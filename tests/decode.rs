use adreno_info::chip::{decode_chip_id, generation_name, model_name, platform_name};

#[test]
fn decodes_adreno_610() {
    let c = decode_chip_id(0x06010001);
    assert_eq!(c.raw_id, 0x06010001);
    assert_eq!((c.major, c.minor, c.patch, c.revision), (6, 1, 0, 1));
    assert_eq!(c.model_name, "Adreno 610");
    assert_eq!(c.adreno_generation, "600");
    assert_eq!(c.snapdragon_model.as_deref(), Some("Snapdragon 665/680/685/690/6 Gen 1"));
}

#[test]
fn decodes_zero_to_fallbacks() {
    let c = decode_chip_id(0);
    assert_eq!((c.major, c.minor, c.patch, c.revision), (0, 0, 0, 0));
    assert_eq!(c.adreno_generation, "Unknown");
    assert_eq!(c.model_name, "Adreno GPU");
    assert_eq!(c.snapdragon_model, None);
}

#[test]
fn decodes_all_ones() {
    let c = decode_chip_id(0xffff_ffff);
    assert_eq!((c.major, c.minor, c.patch, c.revision), (255, 255, 255, 255));
    assert_eq!(c.adreno_generation, "Unknown");
    assert_eq!(c.model_name, "Adreno GPU");
    assert_eq!(c.snapdragon_model, None);
}

#[test]
fn byte_decomposition_is_exact() {
    for raw in [0x1234_5678u32, 0x8000_0001, 0x00ff_00ff, 0x0705_0203, 0xdead_beef] {
        let c = decode_chip_id(raw);
        assert_eq!(c.major as u32, raw >> 24 & 0xff);
        assert_eq!(c.minor as u32, raw >> 16 & 0xff);
        assert_eq!(c.patch as u32, raw >> 8 & 0xff);
        assert_eq!(c.revision as u32, raw & 0xff);
    }
}

#[test]
fn decode_is_deterministic() {
    for raw in [0u32, 0x0601_0001, 0x0a0b_0c0d, 0xffff_ffff] {
        let a = decode_chip_id(raw);
        let b = decode_chip_id(raw);
        assert_eq!((a.raw_id, a.major, a.minor, a.patch, a.revision), (b.raw_id, b.major, b.minor, b.patch, b.revision));
        assert_eq!(a.model_name, b.model_name);
        assert_eq!(a.adreno_generation, b.adreno_generation);
        assert_eq!(a.snapdragon_model, b.snapdragon_model);
    }
}

#[test]
fn generation_table() {
    assert_eq!(generation_name(1), "100");
    assert_eq!(generation_name(7), "700");
    assert_eq!(generation_name(9), "900");
    assert_eq!(generation_name(10), "Unknown");
}

#[test]
fn model_and_platform_tables() {
    assert_eq!(model_name(6, 0), "Adreno 600");
    assert_eq!(platform_name(6, 0), None);
    assert_eq!(model_name(6, 7), "Adreno GPU");
    assert_eq!(model_name(7, 5), "Adreno 750");
    assert_eq!(platform_name(7, 5), Some("Snapdragon 8 Gen 2"));
    assert_eq!(platform_name(7, 4), None);
    assert_eq!(model_name(5, 1), "Adreno GPU");
}

#[test]
fn decodes_adreno_730_with_generation_and_platform() {
    let c = decode_chip_id(0x0703_0010);
    assert_eq!(c.model_name, "Adreno 730");
    assert_eq!(c.adreno_generation, "700");
    assert_eq!(c.snapdragon_model.as_deref(), Some("Snapdragon 8+ Gen 1"));
    assert_eq!((c.patch, c.revision), (0, 0x10));
}

#[test]
fn known_major_unknown_minor_keeps_generation() {
    let c = decode_chip_id(0x0807_0000);
    assert_eq!(c.adreno_generation, "800");
    assert_eq!(c.model_name, "Adreno GPU");
    assert_eq!(c.snapdragon_model, None);
}
