//! Properties of virtio block requests stated from their inputs: which
//! chains are accepted, what the disk is asked to do, and what the driver is
//! told.

use vstd::prelude::*;
use crate::request::{
    Descriptor, DiskOperation, DiskResult, Request, RequestHeader, RequestType,
    spec_parse_request, spec_disk_operation, spec_request_status, spec_completion,
    VIRTIO_BLK_T_IN, VIRTIO_BLK_T_OUT, VIRTIO_BLK_T_FLUSH, VIRTIO_BLK_T_GET_ID, VIRTIO_BLK_S_OK,
    VIRTIO_BLK_S_IOERR, VIRTIO_BLK_S_UNSUPP, VIRTIO_BLK_ID_BYTES,
};
use crate::virtio_block::VirtioBlockError;

verus! {

/// The byte offset of a sector: the sector times 512, in 64 bits.
pub open spec fn sector_offset(sector: u64) -> u64 {
    ((sector as int * 512) % 0x1_0000_0000_0000_0000) as u64
}

proof fn lemma_shift_is_sector_offset(sector: u64)
    ensures
        sector << 9u64 == sector_offset(sector),
{
    assert(sector << 9u64 == ((sector as int * 512) % 0x1_0000_0000_0000_0000) as u64)
        by (bit_vector);
}

/// A read or a write of whole sectors, with its data buffer the right way
/// round and a writable, non-empty status buffer, is accepted exactly when
/// it ends at or before the last sector of the disk; then the disk reads or
/// writes the data buffer at the byte offset of its first sector.
pub proof fn lemma_read_write_accepted_within_disk(
    descriptors: Seq<Descriptor>,
    h: RequestHeader,
    nsectors: u64,
)
    requires
        descriptors.len() >= 3,
        !descriptors[0].write_only,
        h.request_type == VIRTIO_BLK_T_IN || h.request_type == VIRTIO_BLK_T_OUT,
        descriptors[1].write_only == (h.request_type == VIRTIO_BLK_T_IN),
        descriptors[1].len % 512 == 0,
        descriptors[2].write_only,
        descriptors[2].len >= 1,
    ensures
        h.sector + descriptors[1].len / 512 <= nsectors ==> {
            &&& spec_parse_request(descriptors, Some(h), nsectors) == Ok::<
                Request,
                VirtioBlockError,
            >(
                Request {
                    request_type: if h.request_type == VIRTIO_BLK_T_IN {
                        RequestType::In
                    } else {
                        RequestType::Out
                    },
                    sector: h.sector,
                    data_addr: descriptors[1].addr,
                    data_len: descriptors[1].len,
                    status_addr: descriptors[2].addr,
                },
            )
            &&& spec_disk_operation(spec_parse_request(descriptors, Some(h), nsectors)) == if h.request_type
                == VIRTIO_BLK_T_IN {
                DiskOperation::Read {
                    offset: sector_offset(h.sector),
                    len: descriptors[1].len,
                    addr: descriptors[1].addr,
                }
            } else {
                DiskOperation::Write {
                    offset: sector_offset(h.sector),
                    len: descriptors[1].len,
                    addr: descriptors[1].addr,
                }
            }
        },
        h.sector + descriptors[1].len / 512 > nsectors ==> spec_parse_request(
            descriptors,
            Some(h),
            nsectors,
        ) == Err::<Request, VirtioBlockError>(VirtioBlockError::InvalidOffset),
{
    lemma_shift_is_sector_offset(h.sector);
}

/// Every accepted request has a readable first descriptor, a header, a
/// writable non-empty status buffer (the last of the first three
/// descriptors it uses), and, for a read or a write, whole sectors lying
/// within the disk in a data buffer the right way round.
pub proof fn lemma_accepted_request_is_valid(
    descriptors: Seq<Descriptor>,
    header: Option<RequestHeader>,
    nsectors: u64,
)
    ensures
        spec_parse_request(descriptors, header, nsectors) matches Ok(req) ==> {
            &&& descriptors.len() >= 2
            &&& !descriptors[0].write_only
            &&& header matches Some(h)
            &&& req.sector == h.sector
            &&& {
                let status = if descriptors.len() == 2 {
                    descriptors[1]
                } else {
                    descriptors[2]
                };
                &&& status.write_only
                &&& status.len >= 1
                &&& req.status_addr == status.addr
            }
            &&& descriptors.len() == 2 ==> req.request_type is Flush && req.data_len == 0
            &&& (req.request_type is In || req.request_type is Out) ==> {
                &&& descriptors.len() >= 3
                &&& req.data_len == descriptors[1].len
                &&& req.data_addr == descriptors[1].addr
                &&& req.data_len % 512 == 0
                &&& req.sector + req.data_len / 512 <= nsectors
                &&& descriptors[1].write_only == (req.request_type is In)
            }
            &&& req.request_type is GetDeviceID ==> {
                &&& descriptors.len() >= 3
                &&& descriptors[1].write_only
                &&& req.data_len >= VIRTIO_BLK_ID_BYTES
            }
            &&& (req.request_type is In) == (header->0.request_type == VIRTIO_BLK_T_IN)
            &&& (req.request_type is Out) == (header->0.request_type == VIRTIO_BLK_T_OUT)
            &&& (req.request_type is Flush) == (header->0.request_type == VIRTIO_BLK_T_FLUSH)
            &&& (req.request_type is GetDeviceID) == (header->0.request_type
                == VIRTIO_BLK_T_GET_ID)
        },
{
}

/// Why a chain is rejected, checked in this order: an empty chain is too
/// short; a write-only first descriptor is unexpected; an unreadable header
/// is a guest memory error; a chain without a data buffer is too short
/// unless it holds a flush; a data buffer the wrong way round is unexpected
/// (write-only for a write, read-only for a read or an identifier request);
/// a read or a write of a partial sector, or an identifier request with no
/// room for the identifier, has an invalid data length; a read or a write
/// past the last sector has an invalid offset; then a read-only status
/// buffer is unexpected and an empty one too small.
pub proof fn lemma_rejected_chains(
    descriptors: Seq<Descriptor>,
    header: Option<RequestHeader>,
    nsectors: u64,
)
    ensures
        ({
            let r = spec_parse_request(descriptors, header, nsectors);
            let err = |e: VirtioBlockError| r == Err::<Request, VirtioBlockError>(e);
            let t = header->0.request_type;
            let rw = t == VIRTIO_BLK_T_IN || t == VIRTIO_BLK_T_OUT;
            let reads_data = t == VIRTIO_BLK_T_IN || t == VIRTIO_BLK_T_GET_ID;
            &&& descriptors.len() == 0 ==> err(VirtioBlockError::DescriptorChainTooShort)
            &&& descriptors.len() > 0 && descriptors[0].write_only ==> err(
                VirtioBlockError::UnexpectedWriteOnlyDescriptor,
            )
            &&& descriptors.len() > 0 && !descriptors[0].write_only ==> {
                &&& header is None ==> err(VirtioBlockError::GuestMemory)
                &&& header is Some ==> {
                    &&& descriptors.len() == 1 ==> err(VirtioBlockError::DescriptorChainTooShort)
                    &&& descriptors.len() == 2 && t != VIRTIO_BLK_T_FLUSH ==> err(
                        VirtioBlockError::DescriptorChainTooShort,
                    )
                    &&& descriptors.len() >= 3 ==> {
                        let data = descriptors[1];
                        let status = descriptors[2];
                        let direction_ok = !(data.write_only && t == VIRTIO_BLK_T_OUT) && !(
                        !data.write_only && reads_data);
                        let length_ok = if rw {
                            data.len % 512 == 0
                        } else if t == VIRTIO_BLK_T_GET_ID {
                            data.len >= VIRTIO_BLK_ID_BYTES
                        } else {
                            true
                        };
                        let range_ok = rw ==> header->0.sector + data.len / 512 <= nsectors;
                        &&& data.write_only && t == VIRTIO_BLK_T_OUT ==> err(
                            VirtioBlockError::UnexpectedWriteOnlyDescriptor,
                        )
                        &&& !data.write_only && reads_data ==> err(
                            VirtioBlockError::UnexpectedReadOnlyDescriptor,
                        )
                        &&& direction_ok && !length_ok ==> err(
                            VirtioBlockError::InvalidDataLength,
                        )
                        &&& direction_ok && length_ok && !range_ok ==> err(
                            VirtioBlockError::InvalidOffset,
                        )
                        &&& direction_ok && length_ok && range_ok && !status.write_only ==> err(
                            VirtioBlockError::UnexpectedReadOnlyDescriptor,
                        )
                        &&& direction_ok && length_ok && range_ok && status.write_only
                            && status.len == 0 ==> err(VirtioBlockError::DescriptorLengthTooSmall)
                        &&& (r is Ok) == (direction_ok && length_ok && range_ok
                            && status.write_only && status.len >= 1)
                    }
                }
            }
        }),
{
}

/// A flush with a readable first descriptor and a writable, non-empty
/// status buffer is accepted, with or without a data buffer, and asks the
/// disk to flush; a request of an unknown type with a data buffer and such
/// a status buffer is accepted as unsupported and asks nothing of the disk;
/// an identifier request with a writable buffer of at least 20 bytes asks
/// the disk to write the identifier there.
pub proof fn lemma_flush_unsupported_and_id_accepted(
    descriptors: Seq<Descriptor>,
    h: RequestHeader,
    nsectors: u64,
)
    requires
        descriptors.len() >= 2,
        !descriptors[0].write_only,
        ({
            let status = if descriptors.len() == 2 {
                descriptors[1]
            } else {
                descriptors[2]
            };
            status.write_only && status.len >= 1
        }),
    ensures
        h.request_type == VIRTIO_BLK_T_FLUSH ==> {
            &&& spec_parse_request(descriptors, Some(h), nsectors) is Ok
            &&& spec_disk_operation(spec_parse_request(descriptors, Some(h), nsectors))
                == DiskOperation::Flush
        },
        descriptors.len() >= 3 && h.request_type != VIRTIO_BLK_T_IN && h.request_type
            != VIRTIO_BLK_T_OUT && h.request_type != VIRTIO_BLK_T_FLUSH && h.request_type
            != VIRTIO_BLK_T_GET_ID ==> {
            &&& spec_parse_request(descriptors, Some(h), nsectors) matches Ok(req)
                && req.request_type == RequestType::Unsupported(h.request_type)
            &&& spec_disk_operation(spec_parse_request(descriptors, Some(h), nsectors))
                == DiskOperation::Nothing
        },
        (descriptors.len() >= 3 && h.request_type == VIRTIO_BLK_T_GET_ID && descriptors[1].write_only
            && descriptors[1].len >= VIRTIO_BLK_ID_BYTES ==> spec_disk_operation(
            spec_parse_request(descriptors, Some(h), nsectors),
        ) == (DiskOperation::WriteId { addr: descriptors[1].addr })),
{
}

/// What a request's status is, from what its disk operation came to: a
/// failed operation is an I/O error, whatever the request; an unsupported
/// request is reported unsupported; a request succeeds exactly when its
/// operation moved all it was asked to (any amount for a flush), and only a
/// successful read or identifier request reports the data it wrote to guest
/// memory, never more than asked.
pub proof fn lemma_request_status(req: Request, result: DiskResult)
    ensures
        ({
            let (code, bytes) = spec_request_status(req, result);
            &&& code == VIRTIO_BLK_S_OK || code == VIRTIO_BLK_S_IOERR || code == VIRTIO_BLK_S_UNSUPP
            &&& (req.request_type is Unsupported) <==> code == VIRTIO_BLK_S_UNSUPP
            &&& !(req.request_type is Unsupported) && result is Failed ==> code
                == VIRTIO_BLK_S_IOERR && bytes == 0
            &&& code == VIRTIO_BLK_S_OK ==> result is Transferred
            &&& req.request_type is In ==> {
                &&& (code == VIRTIO_BLK_S_OK) == (result == DiskResult::Transferred(req.data_len))
                &&& code == VIRTIO_BLK_S_OK ==> bytes == req.data_len
                &&& bytes <= req.data_len
            }
            &&& req.request_type is Out ==> {
                &&& (code == VIRTIO_BLK_S_OK) == (result == DiskResult::Transferred(req.data_len))
                &&& bytes == 0
            }
            &&& req.request_type is Flush ==> {
                &&& (code == VIRTIO_BLK_S_OK) == (result is Transferred)
                &&& bytes == 0
            }
            &&& req.request_type is GetDeviceID ==> {
                &&& (code == VIRTIO_BLK_S_OK) == (result == DiskResult::Transferred(
                    VIRTIO_BLK_ID_BYTES,
                ))
                &&& code == VIRTIO_BLK_S_OK ==> bytes == VIRTIO_BLK_ID_BYTES
                &&& bytes <= VIRTIO_BLK_ID_BYTES
            }
            &&& req.request_type is Unsupported ==> bytes == 0
        }),
{
}

/// What the driver is told of a chain: its index always; for a rejected
/// chain, no status and nothing written; for an accepted request, its
/// status written at its status buffer, and as used length the bytes
/// written to guest memory plus the status byte. In particular a failed
/// operation is reported as an I/O error with only the status byte used,
/// and a full read as success with the data and the status byte used.
pub proof fn lemma_completion(index: u16, r: Result<Request, VirtioBlockError>, result: DiskResult)
    requires
        r matches Ok(req) ==> (req.request_type is In ==> req.data_len < u32::MAX),
    ensures
        spec_completion(index, r, result).index == index,
        r is Err ==> spec_completion(index, r, result).used_len == 0 && spec_completion(
            index,
            r,
            result,
        ).status is None,
        r matches Ok(req) ==> {
            &&& spec_completion(index, r, result).status == Some(
                (req.status_addr, spec_request_status(req, result).0),
            )
            &&& spec_completion(index, r, result).used_len == spec_request_status(req, result).1
                + 1
            &&& !(req.request_type is Unsupported) && result is Failed ==> spec_completion(
                index,
                r,
                result,
            ).status == Some((req.status_addr, VIRTIO_BLK_S_IOERR)) && spec_completion(
                index,
                r,
                result,
            ).used_len == 1
            &&& req.request_type is In && result == DiskResult::Transferred(req.data_len)
                ==> spec_completion(index, r, result).status == Some(
                (req.status_addr, VIRTIO_BLK_S_OK),
            ) && spec_completion(index, r, result).used_len == req.data_len + 1
            &&& (req.request_type is Out || req.request_type is Flush) && result
                == DiskResult::Transferred(req.data_len) ==> spec_completion(
                index,
                r,
                result,
            ).status == Some((req.status_addr, VIRTIO_BLK_S_OK)) && spec_completion(
                index,
                r,
                result,
            ).used_len == 1
        },
{
    if let Ok(req) = r {
        lemma_request_status(req, result);
    }
}

} // verus!
