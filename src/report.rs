use vstd::prelude::*;
use crate::chip::{ChipInfo, decode_chip_id, decoded};
use crate::property::{
    KgslDeviceInfo,
    KgslVersionInfo,
    QueryError,
    word_at,
    FREQUENCY_SIZE,
    VERSION_INFO_SIZE,
};

verus! {

/// Why a run produced no report.
#[derive(Debug, Clone, Copy, PartialEq, Eq)]
pub enum RunError {
    /// None of the driver's device nodes exists.
    NoDeviceFound,
    /// The device node could not be opened; carries the operating system's error code.
    OpenFailed(i32),
    /// The device identity query failed.
    Query(QueryError),
}

/// The device node to open: the first one found.
pub fn choose_device(devices: &Vec<String>) -> (r: Result<String, RunError>)
    ensures
        devices@.len() == 0 ==> r == Err::<String, RunError>(RunError::NoDeviceFound),
        devices@.len() > 0 ==> (r matches Ok(p) && p@ == devices@[0]@),
{
    if devices.len() == 0 {
        Err(RunError::NoDeviceFound)
    } else {
        Ok(devices[0].clone())
    }
}

/// Reads the version record out of a probing result.
pub fn read_gpu_version(probed: Result<Vec<u8>, QueryError>) -> (r: Result<
    KgslVersionInfo,
    QueryError,
>)
    requires
        probed matches Ok(p) ==> p@.len() == VERSION_INFO_SIZE,
    ensures
        match probed {
            Ok(p) => r == Ok::<KgslVersionInfo, QueryError>(
                (KgslVersionInfo { driver_version: word_at(p@, 0), device_version: word_at(p@, 4) }),
            ),
            Err(e) => r == Err::<KgslVersionInfo, QueryError>(e),
        },
{
    match probed {
        Ok(p) => Ok(KgslVersionInfo::from_bytes(&p)),
        Err(e) => Err(e),
    }
}

/// Reads the clock rate, in hertz, out of a probing result; absent when the query failed.
pub fn try_read_gpu_frequency(probed: Result<Vec<u8>, QueryError>) -> (r: Option<u32>)
    requires
        probed matches Ok(p) ==> p@.len() == FREQUENCY_SIZE,
    ensures
        match probed {
            Ok(p) => r == Some(word_at(p@, 0)),
            Err(_) => r is None,
        },
{
    match probed {
        Ok(p) => Some(crate::property::read_word(&p, 0)),
        Err(_) => None,
    }
}

/// Everything a run found out about the device.
#[derive(Debug)]
pub struct GpuReport {
    pub info: KgslDeviceInfo,
    pub chip: ChipInfo,
    pub version: Option<KgslVersionInfo>,
    pub frequency_hz: Option<u32>,
}

impl GpuReport {
    /// The clock rate in whole megahertz, where known.
    pub fn frequency_mhz(&self) -> (r: Option<u32>)
        ensures
            match self.frequency_hz {
                Some(f) => r == Some((f / 1_000_000) as u32),
                None => r is None,
            },
    {
        match self.frequency_hz {
            Some(f) => Some(f / 1_000_000),
            None => None,
        }
    }
}

/// Puts the report together: the identity record, its decoded chip identifier, and
/// whatever the optional queries gave; a failed optional query leaves its part absent.
pub fn assemble_report(
    info: KgslDeviceInfo,
    version: Result<KgslVersionInfo, QueryError>,
    frequency_hz: Option<u32>,
) -> (r: GpuReport)
    ensures
        r.info == info,
        r.chip@ == decoded(info.chip_id),
        r.version == match version {
            Ok(v) => Some(v),
            Err(_) => None::<KgslVersionInfo>,
        },
        r.frequency_hz == frequency_hz,
{
    let version = match version {
        Ok(v) => Some(v),
        Err(_) => None,
    };
    GpuReport { info, chip: decode_chip_id(info.chip_id), version, frequency_hz }
}

} // verus!
