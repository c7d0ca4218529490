//! The virtio block backend: a block device served from a disk image on the
//! host, throttled by a rate limiter.

use vstd::prelude::*;
use crate::config_space::{
    read_config_space, write_config_space, le_bytes_u64, spec_read_config, spec_write_config,
    spec_le_bytes_u64,
};
use crate::drive::{
    BlockDeviceConfig, CacheType, FileEngineType, spec_is_virtio_config, is_writeback,
    clone_option_string,
};
use crate::queue::{Queue, FIRECRACKER_MAX_QUEUE_SIZE, spec_new_queue, spec_queue_layout_valid};
use crate::virtio::ActivateError;
use crate::rate_limiter::{
    BucketUpdate, RateLimiter, RateLimiterConfig, RateLimiterView, RateLimiterState,
    apply_bucket_update, spec_rate_limiter_from_config, spec_config_of_rate_limiter,
    spec_into_option, spec_rate_limiter_state_of, spec_rate_limiter_from_state,
    spec_valid_rate_limiter,
};
use crate::virtio::TYPE_BLOCK;
use crate::request::{
    Completion, DescriptorChain, DiskOperation, DiskResult, Request, completion, disk_operation,
    spec_completion, spec_disk_operation, spec_parse_request, lemma_parsed_request_well_formed,
};
use crate::virtio::{
    VIRTIO_BLK_F_FLUSH, VIRTIO_BLK_F_RO, VIRTIO_F_VERSION_1, VIRTIO_RING_F_EVENT_IDX,
};

verus! {

/// Sectors are 512 bytes.
pub const SECTOR_SHIFT: u64 = 9;

/// The virtio block device has one queue.
pub const BLOCK_NUM_QUEUES: usize = 1;

/// Errors of the virtio block backend.
#[derive(Debug, PartialEq, Eq)]
pub enum VirtioBlockError {
    /// The configuration does not describe a virtio block device.
    Config,
    /// The disk image could not be opened or read: the message and the path.
    BackingFile(String, String),
    /// An eventfd could not be created, with the message.
    EventFd(String),
    /// The rate limiter's timer could not be created, with the message.
    RateLimiter(String),
    /// A saved state could not be restored.
    Persist(PersistError),
    /// The driver gave a descriptor chain too short for the request.
    DescriptorChainTooShort,
    /// The driver gave a status descriptor of length zero.
    DescriptorLengthTooSmall,
    /// The request header could not be read from guest memory.
    GuestMemory,
    /// The data length does not suit the request.
    InvalidDataLength,
    /// The request reaches past the end of the disk.
    InvalidOffset,
    /// A descriptor the device must write to is read-only.
    UnexpectedReadOnlyDescriptor,
    /// A descriptor the device must read from is write-only.
    UnexpectedWriteOnlyDescriptor,
}

/// Errors of restoring a saved device.
#[derive(Clone, Copy, Debug, PartialEq, Eq)]
pub enum PersistError {
    /// The saved state is not that of a block device as this one builds it.
    InvalidInput,
}

/// The configuration of a virtio block device.
#[derive(Clone, Debug, PartialEq, Eq)]
pub struct VirtioBlockConfig {
    /// Unique identifier of the drive.
    pub drive_id: String,
    /// Partition UUID.
    pub partuuid: Option<String>,
    /// Whether the drive is the root device.
    pub is_root_device: bool,
    /// Host cache mode.
    pub cache_type: CacheType,
    /// Whether the disk image is read-only.
    pub is_read_only: bool,
    /// Path of the disk image on the host.
    pub path_on_host: String,
    /// Rate limiter of the device.
    pub rate_limiter: Option<RateLimiterConfig>,
    /// I/O engine.
    pub file_engine_type: FileEngineType,
}

/// The virtio configuration that a block device configuration describes,
/// with an unset read-only flag read as writable and an unset engine as
/// synchronous.
pub open spec fn spec_virtio_config_of(c: BlockDeviceConfig) -> VirtioBlockConfig {
    VirtioBlockConfig {
        drive_id: c.drive_id,
        partuuid: c.partuuid,
        is_root_device: c.is_root_device,
        cache_type: c.cache_type,
        is_read_only: match c.is_read_only {
            Some(b) => b,
            None => false,
        },
        path_on_host: c.path_on_host->0,
        rate_limiter: c.rate_limiter,
        file_engine_type: match c.file_engine_type {
            Some(e) => e,
            None => FileEngineType::Sync,
        },
    }
}

/// The block device configuration that a virtio configuration stands for.
pub open spec fn spec_block_config_of_virtio(v: VirtioBlockConfig) -> BlockDeviceConfig {
    BlockDeviceConfig {
        drive_id: v.drive_id,
        partuuid: v.partuuid,
        is_root_device: v.is_root_device,
        cache_type: v.cache_type,
        is_read_only: Some(v.is_read_only),
        path_on_host: Some(v.path_on_host),
        rate_limiter: v.rate_limiter,
        file_engine_type: Some(v.file_engine_type),
        socket: None,
    }
}

impl VirtioBlockConfig {
    /// The virtio configuration that `value` describes, or `Config` when it
    /// describes none (no disk image, or a socket).
    pub fn try_from(value: &BlockDeviceConfig) -> (r: Result<Self, VirtioBlockError>)
        ensures
            spec_is_virtio_config(*value) ==> r == Ok::<Self, VirtioBlockError>(
                spec_virtio_config_of(*value),
            ),
            !spec_is_virtio_config(*value) ==> r == Err::<Self, VirtioBlockError>(
                VirtioBlockError::Config,
            ),
    {
        match (&value.path_on_host, &value.socket) {
            (Some(path), None) => Ok(
                VirtioBlockConfig {
                    drive_id: value.drive_id.clone(),
                    partuuid: clone_option_string(&value.partuuid),
                    is_root_device: value.is_root_device,
                    cache_type: value.cache_type,
                    is_read_only: match value.is_read_only {
                        Some(b) => b,
                        None => false,
                    },
                    path_on_host: path.clone(),
                    rate_limiter: value.rate_limiter,
                    file_engine_type: match value.file_engine_type {
                        Some(e) => e,
                        None => FileEngineType::Sync,
                    },
                },
            ),
            _ => Err(VirtioBlockError::Config),
        }
    }
}

impl From<VirtioBlockConfig> for BlockDeviceConfig {
    fn from(value: VirtioBlockConfig) -> (r: Self) {
        BlockDeviceConfig {
            drive_id: value.drive_id,
            partuuid: value.partuuid,
            is_root_device: value.is_root_device,
            cache_type: value.cache_type,
            is_read_only: Some(value.is_read_only),
            path_on_host: Some(value.path_on_host),
            rate_limiter: value.rate_limiter,
            file_engine_type: Some(value.file_engine_type),
            socket: None,
        }
    }
}

impl vstd::std_specs::convert::FromSpecImpl<VirtioBlockConfig> for BlockDeviceConfig {
    open spec fn obeys_from_spec() -> bool {
        true
    }

    open spec fn from_spec(v: VirtioBlockConfig) -> Self {
        spec_block_config_of_virtio(v)
    }
}


/// The disk image behind a virtio block device.
#[derive(Clone, Debug, PartialEq, Eq)]
pub struct DiskProperties {
    /// Path of the image on the host.
    pub file_path: String,
    /// Number of whole 512-byte sectors in the image.
    pub nsectors: u64,
    /// Host cache mode.
    pub cache_type: CacheType,
    /// I/O engine.
    pub file_engine_type: FileEngineType,
}

/// The number of whole sectors in an image of `file_size` bytes.
pub open spec fn spec_nsectors(file_size: u64) -> u64 {
    (file_size / 512) as u64
}

impl DiskProperties {
    /// The properties of the image at `file_path`, of `file_size` bytes; a
    /// trailing partial sector is not counted.
    pub fn new(
        file_path: String,
        file_size: u64,
        cache_type: CacheType,
        file_engine_type: FileEngineType,
    ) -> (r: Self)
        ensures
            r == (DiskProperties {
                file_path,
                nsectors: spec_nsectors(file_size),
                cache_type,
                file_engine_type,
            }),
    {
        let nsectors = file_size >> SECTOR_SHIFT;
        assert(file_size >> 9u64 == file_size / 512) by (bit_vector);
        DiskProperties { file_path, nsectors, cache_type, file_engine_type }
    }

    /// The virtio block configuration space of this disk: its capacity in
    /// sectors, as eight little-endian bytes.
    pub fn virtio_block_config_space(&self) -> (r: Vec<u8>)
        ensures
            r@ == spec_le_bytes_u64(self.nsectors),
    {
        le_bytes_u64(self.nsectors)
    }
}

/// The features a virtio block device offers: virtio 1.0 and event index
/// always, flush with a writeback cache, read-only for a read-only image.
pub open spec fn spec_virtio_avail_features(cache_type: CacheType, read_only: bool) -> u64 {
    let base = (1u64 << VIRTIO_F_VERSION_1) | (1u64 << VIRTIO_RING_F_EVENT_IDX);
    let with_flush = if is_writeback(cache_type) {
        base | (1u64 << VIRTIO_BLK_F_FLUSH)
    } else {
        base
    };
    if read_only {
        with_flush | (1u64 << VIRTIO_BLK_F_RO)
    } else {
        with_flush
    }
}

/// What a virtio block device holds, as plain values.
pub struct VirtioBlockView {
    pub avail_features: u64,
    pub acked_features: u64,
    pub config_space: Seq<u8>,
    pub queues: Seq<Queue>,
    pub activated: bool,
    pub id: String,
    pub partuuid: Option<String>,
    pub root_device: bool,
    pub read_only: bool,
    pub disk: DiskProperties,
    pub rate_limiter: RateLimiterView,
}

/// A virtio block device.
pub struct VirtioBlock {
    /// Features offered to the driver.
    pub avail_features: u64,
    /// Features the driver accepted.
    pub acked_features: u64,
    /// The configuration space the driver reads.
    pub config_space: Vec<u8>,
    /// The device's queues.
    pub queues: Vec<Queue>,
    /// Whether the device was activated.
    pub activated: bool,
    /// Drive identifier.
    pub id: String,
    /// Partition UUID.
    pub partuuid: Option<String>,
    /// Whether the drive is the root device.
    pub root_device: bool,
    /// Whether the disk image is read-only.
    pub read_only: bool,
    /// The disk image.
    pub disk: DiskProperties,
    /// The rate limiter that throttles the device.
    pub rate_limiter: RateLimiter,
}

impl View for VirtioBlock {
    type V = VirtioBlockView;

    open spec fn view(&self) -> VirtioBlockView {
        VirtioBlockView {
            avail_features: self.avail_features,
            acked_features: self.acked_features,
            config_space: self.config_space@,
            queues: self.queues@,
            activated: self.activated,
            id: self.id,
            partuuid: self.partuuid,
            root_device: self.root_device,
            read_only: self.read_only,
            disk: self.disk,
            rate_limiter: self.rate_limiter@,
        }
    }
}

/// The device that `VirtioBlock::new` builds from `config` and an image of
/// `disk_size` bytes.
pub open spec fn spec_virtio_block_new(config: VirtioBlockConfig, disk_size: u64) -> VirtioBlockView {
    let disk = DiskProperties {
        file_path: config.path_on_host,
        nsectors: spec_nsectors(disk_size),
        cache_type: config.cache_type,
        file_engine_type: config.file_engine_type,
    };
    VirtioBlockView {
        avail_features: spec_virtio_avail_features(config.cache_type, config.is_read_only),
        acked_features: 0,
        config_space: spec_le_bytes_u64(disk.nsectors),
        queues: seq![spec_new_queue(FIRECRACKER_MAX_QUEUE_SIZE)],
        activated: false,
        id: config.drive_id,
        partuuid: config.partuuid,
        root_device: config.is_root_device,
        read_only: config.is_read_only,
        disk,
        rate_limiter: match config.rate_limiter {
            Some(rl) => spec_rate_limiter_from_config(rl),
            None => RateLimiterView { bandwidth: None, ops: None },
        },
    }
}

/// The configuration a virtio block device reports.
pub open spec fn spec_virtio_block_config(b: VirtioBlockView) -> VirtioBlockConfig {
    VirtioBlockConfig {
        drive_id: b.id,
        partuuid: b.partuuid,
        is_root_device: b.root_device,
        cache_type: b.disk.cache_type,
        is_read_only: b.read_only,
        path_on_host: b.disk.file_path,
        rate_limiter: spec_into_option(spec_config_of_rate_limiter(b.rate_limiter)),
        file_engine_type: b.disk.file_engine_type,
    }
}

/// The device after the driver activated it: with event index accepted,
/// every queue suppresses notifications.
pub open spec fn spec_virtio_block_activate(b: VirtioBlockView) -> VirtioBlockView {
    VirtioBlockView {
        activated: true,
        queues: if b.acked_features & (1u64 << VIRTIO_RING_F_EVENT_IDX) != 0 {
            b.queues.map_values(|q: Queue| Queue { uses_notif_suppression: true, ..q })
        } else {
            b.queues
        },
        ..b
    }
}

/// Work that remains to be done on the disk before the device's state is
/// saved.
#[derive(Clone, Copy, Debug, PartialEq, Eq)]
pub enum PrepareSaveWork {
    /// Nothing: the device was never activated.
    Nothing,
    /// Drain the queue and flush the disk; with the asynchronous engine,
    /// also process its completion queue.
    DrainAndFlush { process_async_completions: bool },
}

/// The work `prepare_save` asks for on a device.
pub open spec fn spec_virtio_prepare_save(b: VirtioBlockView) -> PrepareSaveWork {
    if !b.activated {
        PrepareSaveWork::Nothing
    } else {
        PrepareSaveWork::DrainAndFlush {
            process_async_completions: b.disk.file_engine_type matches FileEngineType::Async,
        }
    }
}

/// Every queue is laid out validly.
pub open spec fn spec_all_queues_valid(queues: Seq<Queue>) -> bool {
    forall|i: int| 0 <= i < queues.len() ==> #[trigger] spec_queue_layout_valid(queues[i])
}

/// Whether every queue is laid out validly.
pub fn all_queues_valid(queues: &Vec<Queue>) -> (r: bool)
    ensures
        r == spec_all_queues_valid(queues@),
{
    let mut i: usize = 0;
    while i < queues.len()
        invariant
            0 <= i <= queues@.len(),
            forall|j: int| 0 <= j < i ==> #[trigger] spec_queue_layout_valid(queues@[j]),
        decreases queues@.len() - i,
    {
        if !queues[i].layout_valid() {
            return false;
        }
        i = i + 1;
    }
    true
}

/// Turns notification suppression on for every queue.
pub fn enable_notif_suppression_all(queues: &mut Vec<Queue>)
    ensures
        final(queues)@ == old(queues)@.map_values(
            |q: Queue| Queue { uses_notif_suppression: true, ..q },
        ),
{
    let n = queues.len();
    let ghost old_queues = queues@;
    let mut i: usize = 0;
    while i < n
        invariant
            n == queues@.len() == old_queues.len(),
            0 <= i <= n,
            forall|j: int|
                0 <= j < i ==> queues@[j] == (Queue { uses_notif_suppression: true, ..old_queues[j] }),
            forall|j: int| i <= j < n ==> queues@[j] == old_queues[j],
        decreases n - i,
    {
        let mut q = queues[i];
        q.enable_notif_suppression();
        queues.set(i, q);
        i = i + 1;
    }
    assert(queues@ =~= old_queues.map_values(|q: Queue| Queue { uses_notif_suppression: true, ..q }));
}

/// The saved state of the virtio part of a device.
#[derive(Clone, Debug, PartialEq, Eq)]
pub struct VirtioDeviceState {
    /// The virtio device type.
    pub device_type: u32,
    /// Features offered to the driver.
    pub avail_features: u64,
    /// Features the driver accepted.
    pub acked_features: u64,
    /// The queues.
    pub queues: Vec<Queue>,
    /// Whether the device was activated.
    pub activated: bool,
}

/// The saved state of a virtio block device.
#[derive(Clone, Debug, PartialEq, Eq)]
pub struct VirtioBlockState {
    pub id: String,
    pub partuuid: Option<String>,
    pub cache_type: CacheType,
    pub root_device: bool,
    pub disk_path: String,
    pub virtio_state: VirtioDeviceState,
    pub rate_limiter_state: RateLimiterState,
    pub file_engine_type: FileEngineType,
}

/// The saved state describes a block device as this one builds it: of the
/// block type, with accepted features among those offered, and with one
/// queue of the maximal size, not selected larger.
pub open spec fn spec_device_state_valid(
    device_type: u32,
    avail_features: u64,
    acked_features: u64,
    queues: Seq<Queue>,
) -> bool {
    &&& device_type == TYPE_BLOCK
    &&& acked_features & !avail_features == 0
    &&& queues.len() == BLOCK_NUM_QUEUES
    &&& forall|i: int|
        0 <= i < queues.len() ==> #[trigger] queues[i].max_size == FIRECRACKER_MAX_QUEUE_SIZE
            && queues[i].size <= FIRECRACKER_MAX_QUEUE_SIZE
}

/// The queues as restored: with event index accepted, every queue
/// suppresses notifications.
pub open spec fn spec_restored_queues(acked_features: u64, queues: Seq<Queue>) -> Seq<Queue> {
    if acked_features & (1u64 << VIRTIO_RING_F_EVENT_IDX) != 0 {
        queues.map_values(|q: Queue| Queue { uses_notif_suppression: true, ..q })
    } else {
        queues
    }
}

/// Whether `s` is the state saved for the device `v`.
pub open spec fn spec_is_saved_state_of(s: VirtioBlockState, v: VirtioBlockView) -> bool {
    &&& s.id == v.id
    &&& s.partuuid == v.partuuid
    &&& s.cache_type == v.disk.cache_type
    &&& s.root_device == v.root_device
    &&& s.disk_path == v.disk.file_path
    &&& s.virtio_state.device_type == TYPE_BLOCK
    &&& s.virtio_state.avail_features == v.avail_features
    &&& s.virtio_state.acked_features == v.acked_features
    &&& s.virtio_state.queues@ == v.queues
    &&& s.virtio_state.activated == v.activated
    &&& s.rate_limiter_state == spec_rate_limiter_state_of(v.rate_limiter)
    &&& s.file_engine_type == v.disk.file_engine_type
}

/// The device restored from `s` over an image of `disk_size` bytes, or
/// `Persist(InvalidInput)` when `s` is not a valid block device state. The
/// read-only flag follows the offered read-only feature, and the
/// configuration space holds the image's capacity.
pub open spec fn spec_virtio_block_restore(s: VirtioBlockState, disk_size: u64) -> Result<
    VirtioBlockView,
    VirtioBlockError,
> {
    let vs = s.virtio_state;
    if !spec_device_state_valid(vs.device_type, vs.avail_features, vs.acked_features, vs.queues@) {
        Err(VirtioBlockError::Persist(PersistError::InvalidInput))
    } else {
        let disk = DiskProperties {
            file_path: s.disk_path,
            nsectors: spec_nsectors(disk_size),
            cache_type: s.cache_type,
            file_engine_type: s.file_engine_type,
        };
        Ok(
            VirtioBlockView {
                avail_features: vs.avail_features,
                acked_features: vs.acked_features,
                config_space: spec_le_bytes_u64(disk.nsectors),
                queues: spec_restored_queues(vs.acked_features, vs.queues@),
                activated: vs.activated,
                id: s.id,
                partuuid: s.partuuid,
                root_device: s.root_device,
                read_only: vs.avail_features & (1u64 << VIRTIO_BLK_F_RO) != 0,
                disk,
                rate_limiter: spec_rate_limiter_from_state(s.rate_limiter_state),
            },
        )
    }
}

/// The view of a restored device, or the error.
pub open spec fn spec_virtio_restore_result_view(r: Result<VirtioBlock, VirtioBlockError>) -> Result<
    VirtioBlockView,
    VirtioBlockError,
> {
    match r {
        Ok(b) => Ok(b@),
        Err(e) => Err(e),
    }
}

/// Copies a list of queues.
pub fn copy_queues(queues: &Vec<Queue>) -> (r: Vec<Queue>)
    ensures
        r@ == queues@,
{
    let mut r: Vec<Queue> = Vec::new();
    let mut i: usize = 0;
    while i < queues.len()
        invariant
            0 <= i <= queues@.len(),
            r@ == queues@.subrange(0, i as int),
        decreases queues@.len() - i,
    {
        r.push(queues[i]);
        i = i + 1;
        assert(r@ =~= queues@.subrange(0, i as int));
    }
    assert(queues@.subrange(0, queues@.len() as int) =~= queues@);
    r
}

/// Checks a saved device state as `spec_device_state_valid` describes.
pub fn check_device_state(state: &VirtioDeviceState) -> (r: bool)
    ensures
        r == spec_device_state_valid(
            state.device_type,
            state.avail_features,
            state.acked_features,
            state.queues@,
        ),
{
    if state.device_type != TYPE_BLOCK || (state.acked_features & !state.avail_features) != 0
        || state.queues.len() != BLOCK_NUM_QUEUES {
        return false;
    }
    let mut i: usize = 0;
    while i < state.queues.len()
        invariant
            0 <= i <= state.queues@.len(),
            forall|j: int|
                0 <= j < i ==> #[trigger] state.queues@[j].max_size == FIRECRACKER_MAX_QUEUE_SIZE
                    && state.queues@[j].size <= FIRECRACKER_MAX_QUEUE_SIZE,
        decreases state.queues@.len() - i,
    {
        let q = state.queues[i];
        if q.max_size != FIRECRACKER_MAX_QUEUE_SIZE || q.size > FIRECRACKER_MAX_QUEUE_SIZE {
            assert(!(state.queues@[i as int].max_size == FIRECRACKER_MAX_QUEUE_SIZE
                && state.queues@[i as int].size <= FIRECRACKER_MAX_QUEUE_SIZE));
            return false;
        }
        i = i + 1;
    }
    true
}

/// The disk result for the `i`-th chain: a missing result counts as a
/// failure.
pub open spec fn spec_result_at(results: Seq<DiskResult>, i: int) -> DiskResult {
    if 0 <= i < results.len() {
        results[i]
    } else {
        DiskResult::Failed
    }
}

/// What the driver is told of `chain` on a disk of `nsectors` sectors when
/// its disk operation came to `result`.
pub open spec fn spec_chain_completion(chain: DescriptorChain, nsectors: u64, result: DiskResult) -> Completion {
    spec_completion(
        chain.index,
        spec_parse_request(chain.descriptors@, chain.header, nsectors),
        result,
    )
}

/// The disk operation that `chain` asks for on a disk of `nsectors` sectors.
pub open spec fn spec_chain_disk_operation(chain: DescriptorChain, nsectors: u64) -> DiskOperation {
    spec_disk_operation(spec_parse_request(chain.descriptors@, chain.header, nsectors))
}

/// The queue after `n` chains were taken from its available ring and as many
/// entries added to its used ring: both positions advance by `n`, modulo
/// 2^16.
pub open spec fn spec_advance_queue(q: Queue, n: nat) -> Queue {
    Queue {
        next_avail: ((q.next_avail + n) % 0x10000) as u16,
        next_used: ((q.next_used + n) % 0x10000) as u16,
        ..q
    }
}

/// The device after the chains in `n` were processed on its queue.
pub open spec fn spec_virtio_after_processing(v: VirtioBlockView, n: nat) -> VirtioBlockView {
    VirtioBlockView { queues: v.queues.update(0, spec_advance_queue(v.queues[0], n)), ..v }
}

proof fn lemma_wrapping_step(a: u16, b: u16, i: nat)
    requires
        b == (a + i) % 0x10000,
    ensures
        vstd::wrapping::u16_specs::wrapping_add(b, 1) == (a + (i + 1)) % 0x10000,
{
    assert((a + (i + 1)) % 0x10000 == ((a + i) % 0x10000 + 1) % 0x10000) by {
        vstd::arithmetic::div_mod::lemma_add_mod_noop(a + i, 1, 0x10000);
    }
}

impl VirtioBlock {
    /// The disk operation that `chain` asks for.
    pub fn disk_operation(&self, chain: &DescriptorChain) -> (op: DiskOperation)
        ensures
            op == spec_chain_disk_operation(*chain, self.disk.nsectors),
    {
        disk_operation(&Request::parse(chain, self.disk.nsectors))
    }

    /// Processes the chains the host took from the available ring of the
    /// queue, where `results[i]` is what the disk operation of `chains[i]`
    /// came to: returns what the driver is to be told of each chain, and
    /// advances the queue's available and used positions by the number of
    /// chains.
    pub fn process_queue(&mut self, chains: &[DescriptorChain], results: &[DiskResult]) -> (r: Vec<
        Completion,
    >)
        requires
            old(self).queues@.len() > 0,
        ensures
            r@.len() == chains@.len(),
            forall|i: int|
                0 <= i < chains@.len() ==> #[trigger] r@[i] == spec_chain_completion(
                    chains@[i],
                    old(self).disk.nsectors,
                    spec_result_at(results@, i),
                ),
            final(self)@ == spec_virtio_after_processing(old(self)@, chains@.len()),
    {
        let nsectors = self.disk.nsectors;
        let mut q = self.queues[0];
        let ghost q0 = q;
        let mut out: Vec<Completion> = Vec::new();
        let mut i: usize = 0;
        while i < chains.len()
            invariant
                0 <= i <= chains@.len(),
                out@.len() == i,
                forall|j: int|
                    0 <= j < i ==> #[trigger] out@[j] == spec_chain_completion(
                        chains@[j],
                        nsectors,
                        spec_result_at(results@, j),
                    ),
                q == (Queue {
                    next_avail: ((q0.next_avail + i) % 0x10000) as u16,
                    next_used: ((q0.next_used + i) % 0x10000) as u16,
                    ..q0
                }),
            decreases chains@.len() - i,
        {
            let chain = &chains[i];
            let request = Request::parse(chain, nsectors);
            proof {
                lemma_parsed_request_well_formed(chain.descriptors@, chain.header, nsectors);
            }
            let result = if i < results.len() {
                results[i]
            } else {
                DiskResult::Failed
            };
            out.push(completion(chain.index, &request, result));
            proof {
                lemma_wrapping_step(q0.next_avail, q.next_avail, i as nat);
                lemma_wrapping_step(q0.next_used, q.next_used, i as nat);
            }
            q.next_avail = q.next_avail.wrapping_add(1);
            q.next_used = q.next_used.wrapping_add(1);
            i = i + 1;
        }
        self.queues.set(0, q);
        out
    }

    /// The state to save for this device.
    pub fn save(&self) -> (r: VirtioBlockState)
        ensures
            spec_is_saved_state_of(r, self@),
            spec_valid_rate_limiter(self@.rate_limiter),
    {
        VirtioBlockState {
            id: self.id.clone(),
            partuuid: clone_option_string(&self.partuuid),
            cache_type: self.disk.cache_type,
            root_device: self.root_device,
            disk_path: self.disk.file_path.clone(),
            virtio_state: VirtioDeviceState {
                device_type: TYPE_BLOCK,
                avail_features: self.avail_features,
                acked_features: self.acked_features,
                queues: copy_queues(&self.queues),
                activated: self.activated,
            },
            rate_limiter_state: self.rate_limiter.save(),
            file_engine_type: self.disk.file_engine_type,
        }
    }

    /// Restores a device from its saved state `state`, over its disk image
    /// reopened with `disk_size` bytes.
    pub fn restore(state: &VirtioBlockState, disk_size: u64) -> (r: Result<VirtioBlock, VirtioBlockError>)
        ensures
            spec_virtio_restore_result_view(r) == spec_virtio_block_restore(*state, disk_size),
    {
        let vs = &state.virtio_state;
        if !check_device_state(vs) {
            return Err(VirtioBlockError::Persist(PersistError::InvalidInput));
        }
        let mut queues = copy_queues(&vs.queues);
        if vs.acked_features & (1u64 << VIRTIO_RING_F_EVENT_IDX) != 0 {
            enable_notif_suppression_all(&mut queues);
        }
        let disk = DiskProperties::new(
            state.disk_path.clone(),
            disk_size,
            state.cache_type,
            state.file_engine_type,
        );
        let config_space = disk.virtio_block_config_space();
        Ok(
            VirtioBlock {
                avail_features: vs.avail_features,
                acked_features: vs.acked_features,
                config_space,
                queues,
                activated: vs.activated,
                id: state.id.clone(),
                partuuid: clone_option_string(&state.partuuid),
                root_device: state.root_device,
                read_only: vs.avail_features & (1u64 << VIRTIO_BLK_F_RO) != 0,
                disk,
                rate_limiter: RateLimiter::restore(&state.rate_limiter_state),
            },
        )
    }


    /// Creates a virtio block device from `config` over an image of
    /// `disk_size` bytes: the features follow the cache type and the
    /// read-only flag, the configuration space holds the capacity, and the
    /// rate limiter follows the configuration (none: no limit).
    pub fn new(config: VirtioBlockConfig, disk_size: u64) -> (r: VirtioBlock)
        ensures
            r@ == spec_virtio_block_new(config, disk_size),
    {
        let rate_limiter = match &config.rate_limiter {
            Some(rl) => rl.to_rate_limiter(),
            None => RateLimiter::default(),
        };
        let mut avail_features = (1u64 << VIRTIO_F_VERSION_1) | (1u64 << VIRTIO_RING_F_EVENT_IDX);
        match config.cache_type {
            CacheType::Writeback => {
                avail_features = avail_features | (1u64 << VIRTIO_BLK_F_FLUSH);
            },
            CacheType::Unsafe => {},
        }
        if config.is_read_only {
            avail_features = avail_features | (1u64 << VIRTIO_BLK_F_RO);
        }
        let disk = DiskProperties::new(
            config.path_on_host,
            disk_size,
            config.cache_type,
            config.file_engine_type,
        );
        let config_space = disk.virtio_block_config_space();
        let mut queues: Vec<Queue> = Vec::new();
        queues.push(Queue::new(FIRECRACKER_MAX_QUEUE_SIZE));
        let r = VirtioBlock {
            avail_features,
            acked_features: 0,
            config_space,
            queues,
            activated: false,
            id: config.drive_id,
            partuuid: config.partuuid,
            root_device: config.is_root_device,
            read_only: config.is_read_only,
            disk,
            rate_limiter,
        };
        assert(r.queues@ =~= seq![spec_new_queue(FIRECRACKER_MAX_QUEUE_SIZE)]);
        r
    }

    /// The configuration of the device: its identity, the disk image, and
    /// the rate limiter (none when no bucket limits).
    pub fn config(&self) -> (r: VirtioBlockConfig)
        ensures
            r == spec_virtio_block_config(self@),
    {
        let rl = RateLimiterConfig::from_rate_limiter(&self.rate_limiter);
        VirtioBlockConfig {
            drive_id: self.id.clone(),
            partuuid: clone_option_string(&self.partuuid),
            is_root_device: self.root_device,
            cache_type: self.disk.cache_type,
            is_read_only: self.read_only,
            path_on_host: self.disk.file_path.clone(),
            rate_limiter: rl.into_option(),
            file_engine_type: self.disk.file_engine_type,
        }
    }

    /// Replaces the disk image with the one at `disk_image_path`, of
    /// `disk_size` bytes; the configuration space then holds the new
    /// capacity.
    pub fn update_disk_image(&mut self, disk_image_path: String, disk_size: u64)
        ensures
            final(self)@ == (VirtioBlockView {
                disk: DiskProperties {
                    file_path: disk_image_path,
                    nsectors: spec_nsectors(disk_size),
                    ..old(self)@.disk
                },
                config_space: spec_le_bytes_u64(spec_nsectors(disk_size)),
                ..old(self)@
            }),
    {
        let disk = DiskProperties::new(
            disk_image_path,
            disk_size,
            self.disk.cache_type,
            self.disk.file_engine_type,
        );
        self.config_space = disk.virtio_block_config_space();
        self.disk = disk;
    }

    /// Changes the rate limiter's buckets.
    pub fn update_rate_limiter(&mut self, bytes: BucketUpdate, ops: BucketUpdate)
        ensures
            final(self)@ == (VirtioBlockView {
                rate_limiter: RateLimiterView {
                    bandwidth: apply_bucket_update(bytes, old(self)@.rate_limiter.bandwidth),
                    ops: apply_bucket_update(ops, old(self)@.rate_limiter.ops),
                },
                ..old(self)@
            }),
    {
        self.rate_limiter.update_buckets(bytes, ops);
    }

    /// Copies into `data` the configuration space from `offset` on.
    pub fn read_config(&self, offset: u64, data: &mut [u8])
        ensures
            final(data)@ == spec_read_config(self.config_space@, offset, old(data)@),
    {
        read_config_space(self.config_space.as_slice(), offset, data);
    }

    /// Writes `data` into the configuration space at `offset`, when it fits.
    pub fn write_config(&mut self, offset: u64, data: &[u8])
        ensures
            final(self)@ == (VirtioBlockView {
                config_space: spec_write_config(old(self)@.config_space, offset, data@),
                ..old(self)@
            }),
    {
        write_config_space(&mut self.config_space, offset, data);
    }

    /// Activates the device when every queue is laid out validly and, as the
    /// host found, its rings lie in guest memory: with event index accepted,
    /// its queues then suppress notifications. Otherwise it fails with a
    /// queue memory error and leaves the device unchanged.
    pub fn activate(&mut self, rings_in_guest_memory: bool) -> (r: Result<(), ActivateError>)
        ensures
            spec_all_queues_valid(old(self)@.queues) && rings_in_guest_memory ==> {
                &&& r is Ok
                &&& final(self)@ == spec_virtio_block_activate(old(self)@)
            },
            !(spec_all_queues_valid(old(self)@.queues) && rings_in_guest_memory) ==> {
                &&& r matches Err(ActivateError::QueueMemoryError(_))
                &&& final(self)@ == old(self)@
            },
    {
        if !all_queues_valid(&self.queues) || !rings_in_guest_memory {
            return Err(ActivateError::QueueMemoryError("invalid queue layout".to_owned()));
        }
        if self.acked_features & (1u64 << VIRTIO_RING_F_EVENT_IDX) != 0 {
            enable_notif_suppression_all(&mut self.queues);
        }
        self.activated = true;
        Ok(())
    }

    /// The work to do on the disk before the device's state is saved.
    pub fn prepare_save(&self) -> (r: PrepareSaveWork)
        ensures
            r == spec_virtio_prepare_save(self@),
    {
        if !self.activated {
            return PrepareSaveWork::Nothing;
        }
        let process_async_completions = match self.disk.file_engine_type {
            FileEngineType::Async => true,
            FileEngineType::Sync => false,
        };
        PrepareSaveWork::DrainAndFlush { process_async_completions }
    }
}

} // verus!
