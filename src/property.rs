use vstd::prelude::*;

verus! {

/// Property type of the device identity record.
pub const KGSL_PROP_DEVICE_INFO: u32 = 0x1;

/// Property type of the driver and device versions.
pub const KGSL_PROP_VERSION: u32 = 0x8;

/// Property type of the power control record, whose first word is a clock rate.
pub const KGSL_PROP_PWRCTRL: u32 = 0xe;

/// Size of the device identity record.
pub const DEVICE_INFO_SIZE: usize = 16;

/// Size of the version record.
pub const VERSION_INFO_SIZE: usize = 8;

/// Size of the clock rate word.
pub const FREQUENCY_SIZE: usize = 4;

/// Payload size that the validated device-info request declares.
pub const DECLARED_REQUEST_SIZE: u32 = 20;

/// The read/write get-property request of type group 0x09, command 0x02, whose
/// encoded payload size is `size`.
pub open spec fn getproperty_code(size: u32) -> int {
    0xc000_0902 + size * 0x1_0000
}

/// Encodes the get-property request code for a declared payload size.
pub fn request_code(size: u32) -> (r: u32)
    requires
        size < 0x4000,
    ensures
        r as int == getproperty_code(size),
{
    let r: u32 = (3u32 << 30u32) | (size << 16u32) | (0x09u32 << 8u32) | 0x02u32;
    assert((3u32 << 30u32) | (size << 16u32) | (0x09u32 << 8u32) | 0x02u32 == 0xc000_0902u32
        + size * 0x1_0000u32) by (bit_vector)
        requires
            size < 0x4000,
    ;
    r
}

/// The single request code used for the device identity query.
pub fn device_info_code() -> (r: u32)
    ensures
        r as int == getproperty_code(DECLARED_REQUEST_SIZE),
{
    request_code(DECLARED_REQUEST_SIZE)
}

/// Request codes tried for the version query, most likely first.
pub fn version_candidates() -> (r: Vec<u32>)
    ensures
        r@ == seq![0xc008_0902u32, 0xc014_0902u32, 0xc00c_0902u32],
{
    let mut r: Vec<u32> = Vec::new();
    r.push(request_code(8));
    r.push(request_code(20));
    r.push(request_code(12));
    r
}

/// Request codes tried for the clock rate query, most likely first.
pub fn frequency_candidates() -> (r: Vec<u32>)
    ensures
        r@ == seq![0xc004_0902u32, 0xc008_0902u32, 0xc014_0902u32],
{
    let mut r: Vec<u32> = Vec::new();
    r.push(request_code(4));
    r.push(request_code(8));
    r.push(request_code(20));
    r
}

/// The little-endian 32-bit word at byte offset `off`.
pub open spec fn word_at(b: Seq<u8>, off: int) -> u32 {
    (b[off] as int + b[off + 1] as int * 0x100 + b[off + 2] as int * 0x1_0000 + b[off + 3] as int
        * 0x100_0000) as u32
}

/// Reads the little-endian 32-bit word at byte offset `off`.
pub fn read_word(b: &Vec<u8>, off: usize) -> (r: u32)
    requires
        off + 4 <= b@.len(),
    ensures
        r == word_at(b@, off as int),
{
    let n = b.len();
    assert(off + 4 <= n);
    let b0 = b[off] as u32;
    let b1 = b[off + 1] as u32;
    let b2 = b[off + 2] as u32;
    let b3 = b[off + 3] as u32;
    b0 + b1 * 0x100 + b2 * 0x1_0000 + b3 * 0x100_0000
}

/// Every byte of the buffer is zero.
pub open spec fn is_all_zero(b: Seq<u8>) -> bool {
    forall|i: int| 0 <= i < b.len() ==> b[i] == 0
}

/// Tells whether every byte of the buffer is still zero.
pub fn all_zero(b: &Vec<u8>) -> (r: bool)
    ensures
        r == is_all_zero(b@),
{
    let mut i: usize = 0;
    while i < b.len()
        invariant
            i <= b@.len(),
            forall|j: int| 0 <= j < i ==> b@[j] == 0,
        decreases b@.len() - i,
    {
        if b[i] != 0 {
            return false;
        }
        i = i + 1;
    }
    true
}

/// Device identity record, in the driver's field order.
#[derive(Debug, Clone, Copy, PartialEq, Eq)]
pub struct KgslDeviceInfo {
    pub device_id: u32,
    pub chip_id: u32,
    pub mmu_enabled: u32,
    pub gmem_gpubaseaddr: u32,
}

impl KgslDeviceInfo {
    /// Reads the record from its 16 bytes: four little-endian words at offsets 0, 4, 8, 12.
    pub fn from_bytes(b: &Vec<u8>) -> (r: KgslDeviceInfo)
        requires
            b@.len() == DEVICE_INFO_SIZE,
        ensures
            r.device_id == word_at(b@, 0),
            r.chip_id == word_at(b@, 4),
            r.mmu_enabled == word_at(b@, 8),
            r.gmem_gpubaseaddr == word_at(b@, 12),
    {
        KgslDeviceInfo {
            device_id: read_word(b, 0),
            chip_id: read_word(b, 4),
            mmu_enabled: read_word(b, 8),
            gmem_gpubaseaddr: read_word(b, 12),
        }
    }

    /// The memory management unit flag as a boolean.
    pub fn mmu_is_enabled(&self) -> (r: bool)
        ensures
            r == (self.mmu_enabled != 0),
    {
        self.mmu_enabled != 0
    }
}

/// Version record: driver version, then device version.
#[derive(Debug, Clone, Copy, PartialEq, Eq)]
pub struct KgslVersionInfo {
    pub driver_version: u32,
    pub device_version: u32,
}

impl KgslVersionInfo {
    /// Reads the record from its 8 bytes: two little-endian words at offsets 0 and 4.
    pub fn from_bytes(b: &Vec<u8>) -> (r: KgslVersionInfo)
        requires
            b@.len() == VERSION_INFO_SIZE,
        ensures
            r.driver_version == word_at(b@, 0),
            r.device_version == word_at(b@, 4),
    {
        KgslVersionInfo { driver_version: read_word(b, 0), device_version: read_word(b, 4) }
    }
}

/// Why a property query gave no data.
#[derive(Debug, Clone, Copy, PartialEq, Eq)]
pub enum QueryError {
    /// The control call reported an error; carries the operating system's error code.
    RequestFailed(i32),
    /// The call succeeded but left the buffer all zero.
    EmptyResponse,
    /// No candidate request code gave a non-zero payload.
    NoCandidateWorked,
}

/// A control call's status reports success.
pub open spec fn call_succeeded(status: i32) -> bool {
    status >= 0
}

/// What a query with one request code yields, given the call's status, the
/// operating system's error code and the buffer afterwards.
pub open spec fn fixed_result(status: i32, os_error: i32, payload: Seq<u8>) -> Result<
    Seq<u8>,
    QueryError,
> {
    if !call_succeeded(status) {
        Err(QueryError::RequestFailed(os_error))
    } else if is_all_zero(payload) {
        Err(QueryError::EmptyResponse)
    } else {
        Ok(payload)
    }
}

pub open spec fn bytes_result_view(r: Result<Vec<u8>, QueryError>) -> Result<Seq<u8>, QueryError> {
    match r {
        Ok(p) => Ok(p@),
        Err(e) => Err(e),
    }
}

/// Classifies the outcome of a query made with one request code.
pub fn query_fixed(status: i32, os_error: i32, payload: Vec<u8>) -> (r: Result<Vec<u8>, QueryError>)
    ensures
        bytes_result_view(r) == fixed_result(status, os_error, payload@),
{
    if status < 0 {
        Err(QueryError::RequestFailed(os_error))
    } else if all_zero(&payload) {
        Err(QueryError::EmptyResponse)
    } else {
        Ok(payload)
    }
}

/// Classifies the outcome of the device identity query and reads the record.
pub fn read_gpu_info(status: i32, os_error: i32, payload: Vec<u8>) -> (r: Result<
    KgslDeviceInfo,
    QueryError,
>)
    requires
        payload@.len() == DEVICE_INFO_SIZE,
    ensures
        match fixed_result(status, os_error, payload@) {
            Ok(p) => r == Ok::<KgslDeviceInfo, QueryError>(
                (KgslDeviceInfo {
                    device_id: word_at(p, 0),
                    chip_id: word_at(p, 4),
                    mmu_enabled: word_at(p, 8),
                    gmem_gpubaseaddr: word_at(p, 12),
                }),
            ),
            Err(e) => r == Err::<KgslDeviceInfo, QueryError>(e),
        },
{
    match query_fixed(status, os_error, payload) {
        Ok(p) => Ok(KgslDeviceInfo::from_bytes(&p)),
        Err(e) => Err(e),
    }
}

} // verus!
