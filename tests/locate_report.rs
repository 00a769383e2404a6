use adreno_info::chip::decode_chip_id;
use adreno_info::locator::{find_kgsl_devices, kgsl_candidate_paths, select_existing};
use adreno_info::probe::{query_probing, ProbeAction, Prober};
use adreno_info::property::{
    device_info_code, read_gpu_info, version_candidates, KgslVersionInfo, QueryError,
    DEVICE_INFO_SIZE, KGSL_PROP_DEVICE_INFO, KGSL_PROP_VERSION,
};
use adreno_info::report::{
    assemble_report, choose_device, read_gpu_version, try_read_gpu_frequency, RunError,
};

fn strings(v: &[&str]) -> Vec<String> {
    v.iter().map(|s| s.to_string()).collect()
}

#[test]
fn candidate_paths_in_order() {
    assert_eq!(
        kgsl_candidate_paths(),
        strings(&["/dev/kgsl-3d0", "/dev/kgsl/kgsl-3d0", "/dev/kgsl-3d1", "/dev/kgsl-2d0", "/dev/kgsl-2d1"])
    );
}

#[test]
fn select_keeps_existing_in_order() {
    let paths = strings(&["a", "b", "c", "d"]);
    assert_eq!(select_existing(&paths, &vec![false, true, false, true]), strings(&["b", "d"]));
    assert_eq!(select_existing(&paths, &vec![true, true, true, true]), paths);
}

#[test]
fn select_none_existing_is_empty() {
    let paths = strings(&["a", "b"]);
    assert!(select_existing(&paths, &vec![false, false]).is_empty());
    assert!(select_existing(&vec![], &vec![]).is_empty());
}

#[test]
fn found_devices_are_existing_candidates() {
    let all = kgsl_candidate_paths();
    let found = find_kgsl_devices();
    let mut last = 0usize;
    for f in &found {
        let pos = all.iter().position(|p| p == f).unwrap();
        assert!(pos >= last);
        last = pos + 1;
        assert!(std::path::Path::new(f).exists());
    }
}

#[test]
fn choose_first_device() {
    assert_eq!(choose_device(&vec![]), Err(RunError::NoDeviceFound));
    assert_eq!(choose_device(&strings(&["x", "y"])), Ok("x".to_string()));
}

#[test]
fn optional_queries() {
    assert_eq!(
        read_gpu_version(Ok(vec![2, 0, 0, 0, 3, 0, 0, 0])),
        Ok(KgslVersionInfo { driver_version: 2, device_version: 3 })
    );
    assert_eq!(read_gpu_version(Err(QueryError::NoCandidateWorked)), Err(QueryError::NoCandidateWorked));
    assert_eq!(try_read_gpu_frequency(Ok(vec![0x00, 0x65, 0xcd, 0x1d])), Some(500_000_000));
    assert_eq!(try_read_gpu_frequency(Err(QueryError::NoCandidateWorked)), None);
}

/// A device that answers only the validated device-info request and the 20-byte version request.
fn simulated_ioctl(code: u32, property: u32, buf: &mut Vec<u8>) -> i32 {
    if code == 0xc0140902 && property == KGSL_PROP_DEVICE_INFO {
        buf.copy_from_slice(&[0x01, 0x00, 0x00, 0x00, 0x01, 0x00, 0x01, 0x06, 0x01, 0x00, 0x00, 0x00, 0x00, 0x00, 0x00, 0x00]);
        0
    } else if code == 0xc0140902 && property == KGSL_PROP_VERSION {
        buf.copy_from_slice(&[0x03, 0, 0, 0, 0x04, 0, 0, 0]);
        0
    } else {
        -1
    }
}

#[test]
fn end_to_end_simulated_device() {
    let mut buf = vec![0u8; DEVICE_INFO_SIZE];
    let status = simulated_ioctl(device_info_code(), KGSL_PROP_DEVICE_INFO, &mut buf);
    let info = read_gpu_info(status, 0, buf).unwrap();

    let mut p = Prober::new(version_candidates());
    let mut action = p.begin();
    let version = loop {
        match action {
            ProbeAction::Issue(code) => {
                let mut b = vec![0u8; 8];
                let s = simulated_ioctl(code, KGSL_PROP_VERSION, &mut b);
                action = p.on_response(s, b);
            }
            last => break read_gpu_version(query_probing(last)),
        }
    };
    assert_eq!(p.issued, 2);

    let report = assemble_report(info, version, None);
    assert_eq!(report.info.device_id, 1);
    assert_eq!(report.info.chip_id, 0x06010001);
    assert!(report.info.mmu_is_enabled());
    assert_eq!(report.info.gmem_gpubaseaddr, 0);
    assert_eq!(report.chip.model_name, "Adreno 610");
    assert_eq!(report.chip.adreno_generation, decode_chip_id(0x06010001).adreno_generation);
    assert_eq!(report.version, Some(KgslVersionInfo { driver_version: 3, device_version: 4 }));
    assert_eq!(report.frequency_hz, None);
    assert_eq!(report.frequency_mhz(), None);
}

#[test]
fn report_drops_failed_optional_parts() {
    let info = read_gpu_info(0, 0, vec![0, 0, 0, 0, 0, 0, 2, 7, 0, 0, 0, 0, 0, 0, 0, 0]).unwrap();
    let r = assemble_report(info, Err(QueryError::EmptyResponse), Some(1_999_999));
    assert_eq!(r.version, None);
    assert_eq!(r.frequency_mhz(), Some(1));
    assert_eq!(r.chip.model_name, "Adreno 720");
    assert!(!r.info.mmu_is_enabled());
}
