//! Virtio block requests: how a descriptor chain the driver placed on the
//! available ring is read as a request, what the disk is asked to do for
//! it, and what the driver is told when it is done.

use vstd::prelude::*;
use crate::virtio_block::{VirtioBlockError, SECTOR_SHIFT};

verus! {

/// Request type: read from the disk.
pub const VIRTIO_BLK_T_IN: u32 = 0;

/// Request type: write to the disk.
pub const VIRTIO_BLK_T_OUT: u32 = 1;

/// Request type: flush the disk.
pub const VIRTIO_BLK_T_FLUSH: u32 = 4;

/// Request type: get the device identifier.
pub const VIRTIO_BLK_T_GET_ID: u32 = 8;

/// Status: the request succeeded.
pub const VIRTIO_BLK_S_OK: u8 = 0;

/// Status: the request failed with an I/O error.
pub const VIRTIO_BLK_S_IOERR: u8 = 1;

/// Status: the request type is not supported.
pub const VIRTIO_BLK_S_UNSUPP: u8 = 2;

/// Length in bytes of the device identifier.
pub const VIRTIO_BLK_ID_BYTES: u32 = 20;

/// Length in bytes of a sector.
pub const SECTOR_SIZE: u32 = 512;

/// One descriptor of a chain, as the host read it from the descriptor
/// table.
#[derive(Clone, Copy, Debug, PartialEq, Eq)]
pub struct Descriptor {
    /// Guest physical address of the buffer.
    pub addr: u64,
    /// Length of the buffer in bytes.
    pub len: u32,
    /// Whether the device may only write the buffer.
    pub write_only: bool,
}

/// The request header at the start of a chain's first buffer.
#[derive(Clone, Copy, Debug, PartialEq, Eq)]
pub struct RequestHeader {
    /// The request type.
    pub request_type: u32,
    /// The first sector the request addresses.
    pub sector: u64,
}

/// A descriptor chain the host took from the available ring.
#[derive(Clone, Debug, PartialEq, Eq)]
pub struct DescriptorChain {
    /// Index of the chain's first descriptor.
    pub index: u16,
    /// The chain's descriptors, first to last.
    pub descriptors: Vec<Descriptor>,
    /// The header read at the first descriptor's address; none when guest
    /// memory could not be read there.
    pub header: Option<RequestHeader>,
}

/// The kind of a request.
#[derive(Clone, Copy, Debug, PartialEq, Eq)]
pub enum RequestType {
    In,
    Out,
    Flush,
    GetDeviceID,
    Unsupported(u32),
}

/// The kind of the request with type code `t`.
pub open spec fn spec_request_type(t: u32) -> RequestType {
    if t == VIRTIO_BLK_T_IN {
        RequestType::In
    } else if t == VIRTIO_BLK_T_OUT {
        RequestType::Out
    } else if t == VIRTIO_BLK_T_FLUSH {
        RequestType::Flush
    } else if t == VIRTIO_BLK_T_GET_ID {
        RequestType::GetDeviceID
    } else {
        RequestType::Unsupported(t)
    }
}

/// The kind of the request with type code `t`.
pub fn request_type(t: u32) -> (r: RequestType)
    ensures
        r == spec_request_type(t),
{
    if t == VIRTIO_BLK_T_IN {
        RequestType::In
    } else if t == VIRTIO_BLK_T_OUT {
        RequestType::Out
    } else if t == VIRTIO_BLK_T_FLUSH {
        RequestType::Flush
    } else if t == VIRTIO_BLK_T_GET_ID {
        RequestType::GetDeviceID
    } else {
        RequestType::Unsupported(t)
    }
}

/// A request, read from a descriptor chain.
#[derive(Clone, Copy, Debug, PartialEq, Eq)]
pub struct Request {
    pub request_type: RequestType,
    pub sector: u64,
    pub data_addr: u64,
    pub data_len: u32,
    pub status_addr: u64,
}

/// The request with type and sector from `h`, data buffer `data` (address
/// and length zero when there is none) and status buffer `status`, checked:
/// reads and writes must cover whole sectors within the disk's `nsectors`,
/// an identifier request must have room for the identifier, and the status
/// buffer must be writable and at least one byte long.
pub open spec fn spec_check_request(
    h: RequestHeader,
    data_addr: u64,
    data_len: u32,
    status: Descriptor,
    nsectors: u64,
) -> Result<Request, VirtioBlockError> {
    let t = spec_request_type(h.request_type);
    let data_check: Result<(), VirtioBlockError> = match t {
        RequestType::In | RequestType::Out => {
            if data_len % SECTOR_SIZE != 0 {
                Err(VirtioBlockError::InvalidDataLength)
            } else if h.sector + (data_len / SECTOR_SIZE) > nsectors {
                Err(VirtioBlockError::InvalidOffset)
            } else {
                Ok(())
            }
        },
        RequestType::GetDeviceID => {
            if data_len < VIRTIO_BLK_ID_BYTES {
                Err(VirtioBlockError::InvalidDataLength)
            } else {
                Ok(())
            }
        },
        _ => Ok(()),
    };
    match data_check {
        Err(e) => Err(e),
        Ok(()) => if !status.write_only {
            Err(VirtioBlockError::UnexpectedReadOnlyDescriptor)
        } else if status.len < 1 {
            Err(VirtioBlockError::DescriptorLengthTooSmall)
        } else {
            Ok(
                Request {
                    request_type: t,
                    sector: h.sector,
                    data_addr,
                    data_len,
                    status_addr: status.addr,
                },
            )
        },
    }
}

/// The request a descriptor chain holds on a disk of `nsectors` sectors, or
/// why it holds none. The first descriptor must be readable and its header
/// readable; a chain of two descriptors has no data buffer, which only a
/// flush may omit; otherwise the second descriptor is the data buffer (which
/// the device writes for a read or an identifier request and reads for a
/// write) and the third the status buffer.
pub open spec fn spec_parse_request(
    descriptors: Seq<Descriptor>,
    header: Option<RequestHeader>,
    nsectors: u64,
) -> Result<Request, VirtioBlockError> {
    if descriptors.len() == 0 {
        Err(VirtioBlockError::DescriptorChainTooShort)
    } else if descriptors[0].write_only {
        Err(VirtioBlockError::UnexpectedWriteOnlyDescriptor)
    } else {
        match header {
            None => Err(VirtioBlockError::GuestMemory),
            Some(h) => {
                let t = spec_request_type(h.request_type);
                if descriptors.len() < 2 {
                    Err(VirtioBlockError::DescriptorChainTooShort)
                } else if descriptors.len() == 2 {
                    if !(t is Flush) {
                        Err(VirtioBlockError::DescriptorChainTooShort)
                    } else {
                        spec_check_request(h, 0, 0, descriptors[1], nsectors)
                    }
                } else {
                    let data = descriptors[1];
                    if data.write_only && t is Out {
                        Err(VirtioBlockError::UnexpectedWriteOnlyDescriptor)
                    } else if !data.write_only && t is In {
                        Err(VirtioBlockError::UnexpectedReadOnlyDescriptor)
                    } else if !data.write_only && t is GetDeviceID {
                        Err(VirtioBlockError::UnexpectedReadOnlyDescriptor)
                    } else {
                        spec_check_request(h, data.addr, data.len, descriptors[2], nsectors)
                    }
                }
            },
        }
    }
}

fn check_request(
    h: RequestHeader,
    data_addr: u64,
    data_len: u32,
    status: Descriptor,
    nsectors: u64,
) -> (r: Result<Request, VirtioBlockError>)
    ensures
        r == spec_check_request(h, data_addr, data_len, status, nsectors),
{
    let t = request_type(h.request_type);
    match t {
        RequestType::In | RequestType::Out => {
            if data_len % SECTOR_SIZE != 0 {
                return Err(VirtioBlockError::InvalidDataLength);
            }
            let sectors = (data_len / SECTOR_SIZE) as u64;
            match h.sector.checked_add(sectors) {
                None => return Err(VirtioBlockError::InvalidOffset),
                Some(top) => if top > nsectors {
                    return Err(VirtioBlockError::InvalidOffset);
                },
            }
        },
        RequestType::GetDeviceID => {
            if data_len < VIRTIO_BLK_ID_BYTES {
                return Err(VirtioBlockError::InvalidDataLength);
            }
        },
        _ => {},
    }
    if !status.write_only {
        return Err(VirtioBlockError::UnexpectedReadOnlyDescriptor);
    }
    if status.len < 1 {
        return Err(VirtioBlockError::DescriptorLengthTooSmall);
    }
    Ok(
        Request {
            request_type: t,
            sector: h.sector,
            data_addr,
            data_len,
            status_addr: status.addr,
        },
    )
}

impl Request {
    /// Reads the request that `chain` holds on a disk of `nsectors` sectors.
    pub fn parse(chain: &DescriptorChain, nsectors: u64) -> (r: Result<Request, VirtioBlockError>)
        ensures
            r == spec_parse_request(chain.descriptors@, chain.header, nsectors),
    {
        let descs = &chain.descriptors;
        if descs.len() == 0 {
            return Err(VirtioBlockError::DescriptorChainTooShort);
        }
        if descs[0].write_only {
            return Err(VirtioBlockError::UnexpectedWriteOnlyDescriptor);
        }
        let h = match chain.header {
            None => return Err(VirtioBlockError::GuestMemory),
            Some(h) => h,
        };
        let t = request_type(h.request_type);
        if descs.len() < 2 {
            return Err(VirtioBlockError::DescriptorChainTooShort);
        }
        if descs.len() == 2 {
            return match t {
                RequestType::Flush => check_request(h, 0, 0, descs[1], nsectors),
                _ => Err(VirtioBlockError::DescriptorChainTooShort),
            };
        }
        let data = descs[1];
        match t {
            RequestType::Out => if data.write_only {
                return Err(VirtioBlockError::UnexpectedWriteOnlyDescriptor);
            },
            RequestType::In | RequestType::GetDeviceID => if !data.write_only {
                return Err(VirtioBlockError::UnexpectedReadOnlyDescriptor);
            },
            _ => {},
        }
        check_request(h, data.addr, data.len, descs[2], nsectors)
    }
}

/// What the disk is asked to do for a request.
#[derive(Clone, Copy, Debug, PartialEq, Eq)]
pub enum DiskOperation {
    /// Read `len` bytes at byte `offset` of the image into guest memory at
    /// `addr`.
    Read { offset: u64, len: u32, addr: u64 },
    /// Write `len` bytes from guest memory at `addr` to byte `offset` of the
    /// image.
    Write { offset: u64, len: u32, addr: u64 },
    /// Flush the image to stable storage.
    Flush,
    /// Write the device identifier into guest memory at `addr`.
    WriteId { addr: u64 },
    /// Nothing: the chain holds no request, or one the device does not
    /// support.
    Nothing,
}

/// The disk operation for a request, or for a chain that holds none.
pub open spec fn spec_disk_operation(r: Result<Request, VirtioBlockError>) -> DiskOperation {
    match r {
        Err(_) => DiskOperation::Nothing,
        Ok(req) => match req.request_type {
            RequestType::In => DiskOperation::Read {
                offset: req.sector << SECTOR_SHIFT,
                len: req.data_len,
                addr: req.data_addr,
            },
            RequestType::Out => DiskOperation::Write {
                offset: req.sector << SECTOR_SHIFT,
                len: req.data_len,
                addr: req.data_addr,
            },
            RequestType::Flush => DiskOperation::Flush,
            RequestType::GetDeviceID => DiskOperation::WriteId { addr: req.data_addr },
            RequestType::Unsupported(_) => DiskOperation::Nothing,
        },
    }
}

/// The disk operation for a request, or for a chain that holds none.
pub fn disk_operation(r: &Result<Request, VirtioBlockError>) -> (op: DiskOperation)
    ensures
        op == spec_disk_operation(*r),
{
    match r {
        Err(_) => DiskOperation::Nothing,
        Ok(req) => match req.request_type {
            RequestType::In => DiskOperation::Read {
                offset: req.sector << SECTOR_SHIFT,
                len: req.data_len,
                addr: req.data_addr,
            },
            RequestType::Out => DiskOperation::Write {
                offset: req.sector << SECTOR_SHIFT,
                len: req.data_len,
                addr: req.data_addr,
            },
            RequestType::Flush => DiskOperation::Flush,
            RequestType::GetDeviceID => DiskOperation::WriteId { addr: req.data_addr },
            RequestType::Unsupported(_) => DiskOperation::Nothing,
        },
    }
}

/// What the host's disk operation came to.
#[derive(Clone, Copy, Debug, PartialEq, Eq)]
pub enum DiskResult {
    /// The operation moved this many bytes (zero for a flush).
    Transferred(u32),
    /// The operation failed.
    Failed,
}

/// What the driver is told of a chain: the used-ring entry (the chain's
/// index and the bytes written to guest memory, status byte included) and,
/// when the chain held a request, the status byte and where to write it.
#[derive(Clone, Copy, Debug, PartialEq, Eq)]
pub struct Completion {
    pub index: u16,
    pub used_len: u32,
    pub status: Option<(u64, u8)>,
}

/// The status code and the bytes written to guest memory (status byte not
/// counted) for a request whose disk operation came to `result`: a transfer
/// of exactly the requested length succeeds, a shorter one fails with the
/// bytes it wrote to guest memory, an unsupported request is reported as
/// such.
pub open spec fn spec_request_status(req: Request, result: DiskResult) -> (u8, u32) {
    match req.request_type {
        RequestType::Unsupported(_) => (VIRTIO_BLK_S_UNSUPP, 0),
        RequestType::In => match result {
            DiskResult::Transferred(n) => if n == req.data_len {
                (VIRTIO_BLK_S_OK, req.data_len)
            } else if n < req.data_len {
                (VIRTIO_BLK_S_IOERR, n)
            } else {
                (VIRTIO_BLK_S_IOERR, 0)
            },
            DiskResult::Failed => (VIRTIO_BLK_S_IOERR, 0),
        },
        RequestType::Out => match result {
            DiskResult::Transferred(n) => if n == req.data_len {
                (VIRTIO_BLK_S_OK, 0)
            } else {
                (VIRTIO_BLK_S_IOERR, 0)
            },
            DiskResult::Failed => (VIRTIO_BLK_S_IOERR, 0),
        },
        RequestType::Flush => match result {
            DiskResult::Transferred(_) => (VIRTIO_BLK_S_OK, 0),
            DiskResult::Failed => (VIRTIO_BLK_S_IOERR, 0),
        },
        RequestType::GetDeviceID => match result {
            DiskResult::Transferred(n) => if n == VIRTIO_BLK_ID_BYTES {
                (VIRTIO_BLK_S_OK, VIRTIO_BLK_ID_BYTES)
            } else if n < VIRTIO_BLK_ID_BYTES {
                (VIRTIO_BLK_S_IOERR, n)
            } else {
                (VIRTIO_BLK_S_IOERR, 0)
            },
            DiskResult::Failed => (VIRTIO_BLK_S_IOERR, 0),
        },
    }
}

/// What the driver is told of the chain with head `index` that parsed to
/// `r`, whose disk operation came to `result`: a chain that holds no request
/// is returned unused, with no status.
pub open spec fn spec_completion(
    index: u16,
    r: Result<Request, VirtioBlockError>,
    result: DiskResult,
) -> Completion {
    match r {
        Err(_) => Completion { index, used_len: 0, status: None },
        Ok(req) => {
            let (code, bytes) = spec_request_status(req, result);
            Completion {
                index,
                used_len: (bytes + 1) as u32,
                status: Some((req.status_addr, code)),
            }
        },
    }
}

/// Reads and writes of a parsed request cover whole sectors.
pub open spec fn spec_request_well_formed(req: Request) -> bool {
    (req.request_type is In || req.request_type is Out) ==> req.data_len % SECTOR_SIZE == 0
}

/// A parsed request is well formed.
pub proof fn lemma_parsed_request_well_formed(
    descriptors: Seq<Descriptor>,
    header: Option<RequestHeader>,
    nsectors: u64,
)
    ensures
        spec_parse_request(descriptors, header, nsectors) matches Ok(req)
            ==> spec_request_well_formed(req),
{
}

/// The bytes a well-formed request reports leave room for the status byte.
proof fn lemma_status_bytes_bound(req: Request, result: DiskResult)
    requires
        spec_request_well_formed(req),
    ensures
        spec_request_status(req, result).1 < u32::MAX,
{
}

/// What the driver is told of a chain; see `spec_completion`.
pub(crate) fn completion(index: u16, r: &Result<Request, VirtioBlockError>, result: DiskResult) -> (c:
    Completion)
    requires
        *r matches Ok(req) ==> spec_request_well_formed(req),
    ensures
        c == spec_completion(index, *r, result),
{
    match r {
        Err(_) => Completion { index, used_len: 0, status: None },
        Ok(req) => {
            let (code, bytes): (u8, u32) = match req.request_type {
                RequestType::Unsupported(_) => (VIRTIO_BLK_S_UNSUPP, 0),
                RequestType::In => match result {
                    DiskResult::Transferred(n) => if n == req.data_len {
                        (VIRTIO_BLK_S_OK, req.data_len)
                    } else if n < req.data_len {
                        (VIRTIO_BLK_S_IOERR, n)
                    } else {
                        (VIRTIO_BLK_S_IOERR, 0)
                    },
                    DiskResult::Failed => (VIRTIO_BLK_S_IOERR, 0),
                },
                RequestType::Out => match result {
                    DiskResult::Transferred(n) => if n == req.data_len {
                        (VIRTIO_BLK_S_OK, 0)
                    } else {
                        (VIRTIO_BLK_S_IOERR, 0)
                    },
                    DiskResult::Failed => (VIRTIO_BLK_S_IOERR, 0),
                },
                RequestType::Flush => match result {
                    DiskResult::Transferred(_) => (VIRTIO_BLK_S_OK, 0),
                    DiskResult::Failed => (VIRTIO_BLK_S_IOERR, 0),
                },
                RequestType::GetDeviceID => match result {
                    DiskResult::Transferred(n) => if n == VIRTIO_BLK_ID_BYTES {
                        (VIRTIO_BLK_S_OK, VIRTIO_BLK_ID_BYTES)
                    } else if n < VIRTIO_BLK_ID_BYTES {
                        (VIRTIO_BLK_S_IOERR, n)
                    } else {
                        (VIRTIO_BLK_S_IOERR, 0)
                    },
                    DiskResult::Failed => (VIRTIO_BLK_S_IOERR, 0),
                },
            };
            proof {
                assert((code, bytes) == spec_request_status(*req, result));
            }
            proof {
                lemma_status_bytes_bound(*req, result);
            }
            Completion { index, used_len: bytes + 1, status: Some((req.status_addr, code)) }
        },
    }
}

} // verus!
