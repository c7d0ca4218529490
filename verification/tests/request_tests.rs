use fc_block::avf::vm_memory_bytes;
use fc_block::block::{BackendInfo, Block};
use fc_block::drive::{BlockDeviceConfig, CacheType};
use fc_block::request::{
    Completion, Descriptor, DescriptorChain, DiskOperation, DiskResult, Request, RequestHeader,
    RequestType, VIRTIO_BLK_S_IOERR, VIRTIO_BLK_S_OK, VIRTIO_BLK_S_UNSUPP,
};
use fc_block::virtio::ActivateError;
use fc_block::virtio_block::VirtioBlockError;

const DATA: u64 = 0x10_0000;
const STATUS: u64 = 0x20_0000;

fn config() -> BlockDeviceConfig {
    BlockDeviceConfig {
        drive_id: String::from("d"),
        partuuid: None,
        is_root_device: false,
        cache_type: CacheType::Unsafe,
        is_read_only: None,
        path_on_host: Some(String::from("/tmp/d.img")),
        rate_limiter: None,
        file_engine_type: None,
        socket: None,
    }
}

/// A device over an image of 16 sectors.
fn device() -> Block {
    Block::new(config(), BackendInfo::Disk { size: 16 * 512 }).unwrap()
}

fn vhost_user_device() -> Block {
    let mut c = config();
    c.path_on_host = None;
    c.socket = Some(String::from("/tmp/s"));
    Block::new(c, BackendInfo::VhostUser { features: 0, protocol_features: 0, config_space: vec![] })
        .unwrap()
}

fn head() -> Descriptor {
    Descriptor { addr: 0x1000, len: 16, write_only: false }
}

fn status() -> Descriptor {
    Descriptor { addr: STATUS, len: 1, write_only: true }
}

fn chain(index: u16, request_type: u32, sector: u64, data: Option<Descriptor>) -> DescriptorChain {
    let mut descriptors = vec![head()];
    if let Some(d) = data {
        descriptors.push(d);
    }
    descriptors.push(status());
    DescriptorChain { index, descriptors, header: Some(RequestHeader { request_type, sector }) }
}

fn read_chain(index: u16, sector: u64, len: u32) -> DescriptorChain {
    chain(index, 0, sector, Some(Descriptor { addr: DATA, len, write_only: true }))
}

fn write_chain(index: u16, sector: u64, len: u32) -> DescriptorChain {
    chain(index, 1, sector, Some(Descriptor { addr: DATA, len, write_only: false }))
}

#[test]
fn parse_read_request() {
    let r = Request::parse(&read_chain(0, 2, 1024), 16).unwrap();
    assert_eq!(r.request_type, RequestType::In);
    assert_eq!(r.sector, 2);
    assert_eq!(r.data_addr, DATA);
    assert_eq!(r.data_len, 1024);
    assert_eq!(r.status_addr, STATUS);
}

#[test]
fn parse_errors() {
    // Past the end of the disk.
    assert_eq!(Request::parse(&read_chain(0, 15, 1024), 16), Err(VirtioBlockError::InvalidOffset));
    assert_eq!(
        Request::parse(&read_chain(0, u64::MAX, 512), 16),
        Err(VirtioBlockError::InvalidOffset)
    );
    // Not whole sectors.
    assert_eq!(Request::parse(&read_chain(0, 0, 100), 16), Err(VirtioBlockError::InvalidDataLength));
    // A read into a read-only buffer, a write from a write-only one.
    assert_eq!(
        Request::parse(
            &chain(0, 0, 0, Some(Descriptor { addr: DATA, len: 512, write_only: false })),
            16
        ),
        Err(VirtioBlockError::UnexpectedReadOnlyDescriptor)
    );
    assert_eq!(
        Request::parse(&chain(0, 1, 0, Some(Descriptor { addr: DATA, len: 512, write_only: true })), 16),
        Err(VirtioBlockError::UnexpectedWriteOnlyDescriptor)
    );
    // Only a flush may omit the data buffer.
    assert_eq!(Request::parse(&chain(0, 0, 0, None), 16), Err(VirtioBlockError::DescriptorChainTooShort));
    assert!(Request::parse(&chain(0, 4, 0, None), 16).is_ok());
    // A write-only head, an unreadable header, a single descriptor.
    let mut c = read_chain(0, 0, 512);
    c.descriptors[0].write_only = true;
    assert_eq!(Request::parse(&c, 16), Err(VirtioBlockError::UnexpectedWriteOnlyDescriptor));
    let mut c = read_chain(0, 0, 512);
    c.header = None;
    assert_eq!(Request::parse(&c, 16), Err(VirtioBlockError::GuestMemory));
    let c = DescriptorChain { index: 0, descriptors: vec![head()], header: c.header };
    assert_eq!(Request::parse(&c, 16), Err(VirtioBlockError::GuestMemory));
    let c = DescriptorChain {
        index: 0,
        descriptors: vec![head()],
        header: Some(RequestHeader { request_type: 4, sector: 0 }),
    };
    assert_eq!(Request::parse(&c, 16), Err(VirtioBlockError::DescriptorChainTooShort));
    // The status buffer must be writable and non-empty.
    let mut c = read_chain(0, 0, 512);
    c.descriptors[2].write_only = false;
    assert_eq!(Request::parse(&c, 16), Err(VirtioBlockError::UnexpectedReadOnlyDescriptor));
    let mut c = read_chain(0, 0, 512);
    c.descriptors[2].len = 0;
    assert_eq!(Request::parse(&c, 16), Err(VirtioBlockError::DescriptorLengthTooSmall));
    // An identifier request needs room for the identifier.
    assert_eq!(
        Request::parse(&chain(0, 8, 0, Some(Descriptor { addr: DATA, len: 19, write_only: true })), 16),
        Err(VirtioBlockError::InvalidDataLength)
    );
}

#[test]
fn disk_operations() {
    let b = device();
    assert_eq!(
        b.disk_operation(&read_chain(0, 2, 1024)),
        DiskOperation::Read { offset: 1024, len: 1024, addr: DATA }
    );
    assert_eq!(
        b.disk_operation(&write_chain(0, 3, 512)),
        DiskOperation::Write { offset: 1536, len: 512, addr: DATA }
    );
    assert_eq!(b.disk_operation(&chain(0, 4, 0, None)), DiskOperation::Flush);
    assert_eq!(
        b.disk_operation(&chain(0, 8, 0, Some(Descriptor { addr: DATA, len: 20, write_only: true }))),
        DiskOperation::WriteId { addr: DATA }
    );
    assert_eq!(b.disk_operation(&chain(0, 99, 0, None)), DiskOperation::Nothing);
    assert_eq!(b.disk_operation(&read_chain(0, 15, 1024)), DiskOperation::Nothing);
    assert_eq!(vhost_user_device().disk_operation(&read_chain(0, 0, 512)), DiskOperation::Nothing);
}

#[test]
fn process_requests_outcomes() {
    let mut b = device();
    let chains = vec![
        read_chain(1, 0, 1024),
        read_chain(2, 0, 1024),
        read_chain(3, 0, 512),
        write_chain(4, 1, 512),
        write_chain(5, 1, 512),
        chain(6, 4, 0, None),
        chain(7, 8, 0, Some(Descriptor { addr: DATA, len: 20, write_only: true })),
        chain(8, 99, 0, Some(Descriptor { addr: DATA, len: 512, write_only: true })),
        read_chain(9, 15, 1024),
    ];
    let results = vec![
        DiskResult::Transferred(1024),
        DiskResult::Transferred(512),
        DiskResult::Failed,
        DiskResult::Transferred(512),
        DiskResult::Transferred(100),
        DiskResult::Transferred(0),
        DiskResult::Transferred(20),
        DiskResult::Transferred(0),
        DiskResult::Transferred(0),
    ];
    let done = b.process_virtio_queues(&chains, &results);
    let s = |code: u8| Some((STATUS, code));
    assert_eq!(
        done,
        vec![
            Completion { index: 1, used_len: 1025, status: s(VIRTIO_BLK_S_OK) },
            Completion { index: 2, used_len: 513, status: s(VIRTIO_BLK_S_IOERR) },
            Completion { index: 3, used_len: 1, status: s(VIRTIO_BLK_S_IOERR) },
            Completion { index: 4, used_len: 1, status: s(VIRTIO_BLK_S_OK) },
            Completion { index: 5, used_len: 1, status: s(VIRTIO_BLK_S_IOERR) },
            Completion { index: 6, used_len: 1, status: s(VIRTIO_BLK_S_OK) },
            Completion { index: 7, used_len: 21, status: s(VIRTIO_BLK_S_OK) },
            Completion { index: 8, used_len: 1, status: s(VIRTIO_BLK_S_UNSUPP) },
            Completion { index: 9, used_len: 0, status: None },
        ]
    );
    assert_eq!(b.queues()[0].next_avail, 9);
    assert_eq!(b.queues()[0].next_used, 9);
}

#[test]
fn missing_results_count_as_failures() {
    let mut b = device();
    let done = b.process_virtio_queues(&[read_chain(1, 0, 512), write_chain(2, 0, 512)], &[]);
    assert_eq!(done[0].status, Some((STATUS, VIRTIO_BLK_S_IOERR)));
    assert_eq!(done[1].status, Some((STATUS, VIRTIO_BLK_S_IOERR)));
}

#[test]
fn queue_positions_wrap() {
    let mut b = device();
    b.queues_mut()[0].next_avail = u16::MAX;
    b.queues_mut()[0].next_used = u16::MAX - 1;
    b.process_virtio_queues(&[chain(0, 4, 0, None), chain(1, 4, 0, None)], &[]);
    assert_eq!(b.queues()[0].next_avail, 1);
    assert_eq!(b.queues()[0].next_used, 0);
}

#[test]
fn processing_keeps_the_rest() {
    let mut b = device();
    let before = b.config();
    b.process_virtio_queues(&[write_chain(0, 0, 512)], &[DiskResult::Transferred(512)]);
    assert_eq!(b.config(), before);
    assert!(!b.is_activated());
    assert_eq!(b.acked_features(), 0);
}

#[test]
fn vhost_user_processes_nothing_here() {
    let mut b = vhost_user_device();
    let done = b.process_virtio_queues(&[read_chain(0, 0, 512)], &[DiskResult::Transferred(512)]);
    assert!(done.is_empty());
    assert_eq!(b.queues()[0].next_avail, 0);
}

#[test]
fn activation_checks_queue_layout() {
    // Not ready.
    let mut b = device();
    assert!(matches!(b.activate(true), Err(ActivateError::QueueMemoryError(_))));
    assert!(!b.is_activated());
    // Rings outside guest memory.
    b.queues_mut()[0].ready = true;
    assert!(matches!(b.activate(false), Err(ActivateError::QueueMemoryError(_))));
    assert!(!b.is_activated());
    // Size not a power of two.
    b.queues_mut()[0].size = 100;
    assert!(b.activate(true).is_err());
    b.queues_mut()[0].size = 128;
    // Misaligned descriptor table, available ring, used ring.
    b.queues_mut()[0].desc_table_address = 0x1008;
    assert!(b.activate(true).is_err());
    b.queues_mut()[0].desc_table_address = 0x1000;
    b.queues_mut()[0].avail_ring_address = 0x2001;
    assert!(b.activate(true).is_err());
    b.queues_mut()[0].avail_ring_address = 0x2000;
    b.queues_mut()[0].used_ring_address = 0x3002;
    assert!(b.activate(true).is_err());
    b.queues_mut()[0].used_ring_address = 0x3000;
    assert_eq!(b.activate(true), Ok(()));
    assert!(b.is_activated());
}

#[test]
fn ring_regions_of_a_queue() {
    let b = device();
    let q = b.queues()[0];
    assert_eq!(q.ring_regions(), vec![(0, 16 * 256), (0, 6 + 2 * 256), (0, 6 + 8 * 256)]);
    let mut q2 = q;
    q2.size = 512;
    // A size above the maximum is counted as the maximum.
    assert_eq!(q2.ring_regions()[0], (0, 16 * 256));
    assert!(!q2.layout_valid());
}

#[test]
fn avf_memory_size() {
    assert_eq!(vm_memory_bytes(1024), 1 << 30);
    assert_eq!(vm_memory_bytes(0), 0);
    if usize::BITS == 64 {
        assert_eq!(vm_memory_bytes(1usize << 44), 0);
        assert_eq!(vm_memory_bytes((1usize << 44) + 3), 3 << 20);
    }
}
