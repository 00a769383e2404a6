use vstd::prelude::*;

verus! {

/// Most significant byte of a chip identifier.
pub open spec fn major_of(raw: u32) -> u8 {
    ((raw >> 24u32) & 0xffu32) as u8
}

pub open spec fn minor_of(raw: u32) -> u8 {
    ((raw >> 16u32) & 0xffu32) as u8
}

pub open spec fn patch_of(raw: u32) -> u8 {
    ((raw >> 8u32) & 0xffu32) as u8
}

/// Least significant byte of a chip identifier.
pub open spec fn revision_of(raw: u32) -> u8 {
    (raw & 0xffu32) as u8
}

/// Generation family, keyed by the major version alone.
pub open spec fn generation_label(major: u8) -> Seq<char> {
    match major {
        1 => "100"@,
        2 => "200"@,
        3 => "300"@,
        4 => "400"@,
        5 => "500"@,
        6 => "600"@,
        7 => "700"@,
        8 => "800"@,
        9 => "900"@,
        _ => "Unknown"@,
    }
}

/// Model name, keyed by the (major, minor) pair; unknown pairs get a generic name.
pub open spec fn model_label(major: u8, minor: u8) -> Seq<char> {
    match (major, minor) {
        (6, 0) => "Adreno 600"@,
        (6, 1) => "Adreno 610"@,
        (6, 2) => "Adreno 620"@,
        (6, 3) => "Adreno 630"@,
        (6, 4) => "Adreno 640"@,
        (6, 5) => "Adreno 650"@,
        (6, 6) => "Adreno 660"@,
        (6, 8) => "Adreno 680"@,
        (6, 9) => "Adreno 690"@,
        (7, 0) => "Adreno 700"@,
        (7, 1) => "Adreno 710"@,
        (7, 2) => "Adreno 720"@,
        (7, 3) => "Adreno 730"@,
        (7, 4) => "Adreno 740"@,
        (7, 5) => "Adreno 750"@,
        _ => "Adreno GPU"@,
    }
}

/// Platforms on which a (major, minor) pair is typically found, where known.
pub open spec fn platform_label(major: u8, minor: u8) -> Option<Seq<char>> {
    match (major, minor) {
        (6, 1) => Some("Snapdragon 665/680/685/690/6 Gen 1"@),
        (6, 2) => Some("Snapdragon 730/732G"@),
        (6, 3) => Some("Snapdragon 835/845"@),
        (6, 4) => Some("Snapdragon 855"@),
        (6, 5) => Some("Snapdragon 865/870"@),
        (6, 6) => Some("Snapdragon 888"@),
        (6, 8) => Some("Snapdragon 8 Gen 1"@),
        (6, 9) => Some("Snapdragon 7+ Gen 2"@),
        (7, 2) => Some("Snapdragon 7 Gen 1"@),
        (7, 3) => Some("Snapdragon 8+ Gen 1"@),
        (7, 5) => Some("Snapdragon 8 Gen 2"@),
        _ => None,
    }
}

/// The generation table.
pub fn generation_name(major: u8) -> (r: &'static str)
    ensures
        r@ == generation_label(major),
{
    match major {
        1 => "100",
        2 => "200",
        3 => "300",
        4 => "400",
        5 => "500",
        6 => "600",
        7 => "700",
        8 => "800",
        9 => "900",
        _ => "Unknown",
    }
}

/// The model table.
pub fn model_name(major: u8, minor: u8) -> (r: &'static str)
    ensures
        r@ == model_label(major, minor),
{
    match (major, minor) {
        (6, 0) => "Adreno 600",
        (6, 1) => "Adreno 610",
        (6, 2) => "Adreno 620",
        (6, 3) => "Adreno 630",
        (6, 4) => "Adreno 640",
        (6, 5) => "Adreno 650",
        (6, 6) => "Adreno 660",
        (6, 8) => "Adreno 680",
        (6, 9) => "Adreno 690",
        (7, 0) => "Adreno 700",
        (7, 1) => "Adreno 710",
        (7, 2) => "Adreno 720",
        (7, 3) => "Adreno 730",
        (7, 4) => "Adreno 740",
        (7, 5) => "Adreno 750",
        _ => "Adreno GPU",
    }
}

/// The platform table.
pub fn platform_name(major: u8, minor: u8) -> (r: Option<&'static str>)
    ensures
        match r {
            Some(s) => platform_label(major, minor) == Some(s@),
            None => platform_label(major, minor) is None,
        },
{
    match (major, minor) {
        (6, 1) => Some("Snapdragon 665/680/685/690/6 Gen 1"),
        (6, 2) => Some("Snapdragon 730/732G"),
        (6, 3) => Some("Snapdragon 835/845"),
        (6, 4) => Some("Snapdragon 855"),
        (6, 5) => Some("Snapdragon 865/870"),
        (6, 6) => Some("Snapdragon 888"),
        (6, 8) => Some("Snapdragon 8 Gen 1"),
        (6, 9) => Some("Snapdragon 7+ Gen 2"),
        (7, 2) => Some("Snapdragon 7 Gen 1"),
        (7, 3) => Some("Snapdragon 8+ Gen 1"),
        (7, 5) => Some("Snapdragon 8 Gen 2"),
        _ => None,
    }
}

/// A chip identifier together with its version bytes and classification.
#[derive(Debug, Clone)]
pub struct ChipInfo {
    pub raw_id: u32,
    pub major: u8,
    pub minor: u8,
    pub patch: u8,
    pub revision: u8,
    pub model_name: String,
    pub adreno_generation: String,
    pub snapdragon_model: Option<String>,
}

/// What a `ChipInfo` says, with its texts as character sequences.
pub struct ChipInfoView {
    pub raw_id: u32,
    pub major: u8,
    pub minor: u8,
    pub patch: u8,
    pub revision: u8,
    pub model_name: Seq<char>,
    pub adreno_generation: Seq<char>,
    pub snapdragon_model: Option<Seq<char>>,
}

pub open spec fn opt_string_view(o: Option<String>) -> Option<Seq<char>> {
    match o {
        Some(s) => Some(s@),
        None => None,
    }
}

impl View for ChipInfo {
    type V = ChipInfoView;

    open spec fn view(&self) -> ChipInfoView {
        ChipInfoView {
            raw_id: self.raw_id,
            major: self.major,
            minor: self.minor,
            patch: self.patch,
            revision: self.revision,
            model_name: self.model_name@,
            adreno_generation: self.adreno_generation@,
            snapdragon_model: opt_string_view(self.snapdragon_model),
        }
    }
}

/// The classification of a raw chip identifier.
pub open spec fn decoded(raw: u32) -> ChipInfoView {
    let major = major_of(raw);
    let minor = minor_of(raw);
    ChipInfoView {
        raw_id: raw,
        major,
        minor,
        patch: patch_of(raw),
        revision: revision_of(raw),
        model_name: model_label(major, minor),
        adreno_generation: generation_label(major),
        snapdragon_model: platform_label(major, minor),
    }
}

/// Splits a raw chip identifier into its version bytes and classifies it.
pub fn decode_chip_id(chip_id: u32) -> (r: ChipInfo)
    ensures
        r@ == decoded(chip_id),
{
    let major = ((chip_id >> 24u32) & 0xffu32) as u8;
    let minor = ((chip_id >> 16u32) & 0xffu32) as u8;
    let patch = ((chip_id >> 8u32) & 0xffu32) as u8;
    let revision = (chip_id & 0xffu32) as u8;
    let snapdragon_model = match platform_name(major, minor) {
        Some(s) => Some(s.to_string()),
        None => None,
    };
    ChipInfo {
        raw_id: chip_id,
        major,
        minor,
        patch,
        revision,
        model_name: model_name(major, minor).to_string(),
        adreno_generation: generation_name(major).to_string(),
        snapdragon_model,
    }
}

/// Decoding depends on the raw identifier alone: two decodings of one identifier
/// agree in every field, fallback labels included.
pub proof fn lemma_decode_deterministic(raw: u32, a: ChipInfo, b: ChipInfo)
    requires
        a@ == decoded(raw),
        b@ == decoded(raw),
    ensures
        a@ == b@,
{
}

/// The version bytes are the identifier's four bytes, most significant first, and
/// put back together they give the identifier again.
pub proof fn lemma_version_bytes(raw: u32)
    ensures
        major_of(raw) as u32 == (raw >> 24u32) & 0xffu32,
        minor_of(raw) as u32 == (raw >> 16u32) & 0xffu32,
        patch_of(raw) as u32 == (raw >> 8u32) & 0xffu32,
        revision_of(raw) as u32 == raw & 0xffu32,
        (major_of(raw) as u32) * 0x1000000 + (minor_of(raw) as u32) * 0x10000
            + (patch_of(raw) as u32) * 0x100 + revision_of(raw) as u32 == raw,
{
    assert((raw >> 24u32) & 0xffu32 <= 0xff) by (bit_vector);
    assert((raw >> 16u32) & 0xffu32 <= 0xff) by (bit_vector);
    assert((raw >> 8u32) & 0xffu32 <= 0xff) by (bit_vector);
    assert(raw & 0xffu32 <= 0xff) by (bit_vector);
    assert(((raw >> 24u32) & 0xffu32) * 0x1000000 + ((raw >> 16u32) & 0xffu32) * 0x10000
        + ((raw >> 8u32) & 0xffu32) * 0x100 + (raw & 0xffu32) == raw) by (bit_vector);
}

} // verus!
