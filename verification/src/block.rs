//! A block device with either backend: a virtio block device over a disk
//! image, or a vhost-user block device.

use vstd::prelude::*;
use crate::config_space::{spec_read_config, spec_write_config};
use crate::drive::{BlockDeviceConfig, spec_is_virtio_config, spec_is_vhost_user_config};
use crate::queue::Queue;
use crate::rate_limiter::{BucketUpdate, RateLimiterView, apply_bucket_update};
use crate::vhost_user_block::{
    VhostUserBlock, VhostUserBlockConfig, VhostUserBlockError, VhostUserBlockView,
    VhostUserBlockState,
    spec_vhost_user_block_new, spec_vhost_user_config_of, spec_vhost_user_block_config,
    spec_block_config_of_vhost_user,
};
use crate::virtio::{ActivateError, TYPE_BLOCK};
use crate::request::{Completion, DescriptorChain, DiskOperation, DiskResult};
use crate::virtio_block::{
    DiskProperties, PrepareSaveWork, VirtioBlock, VirtioBlockConfig, VirtioBlockError,
    VirtioBlockState, spec_is_saved_state_of, spec_virtio_block_restore,
    VirtioBlockView, spec_virtio_block_new, spec_virtio_config_of, spec_virtio_block_config,
    spec_block_config_of_virtio, spec_nsectors, spec_virtio_block_activate,
    spec_virtio_prepare_save, spec_all_queues_valid, spec_chain_completion,
    spec_chain_disk_operation, spec_result_at, spec_virtio_after_processing,
};
use crate::config_space::spec_le_bytes_u64;

verus! {

/// Errors of a block device.
#[derive(Debug, PartialEq, Eq)]
pub enum BlockError {
    /// The configuration describes neither backend.
    InvalidBlockConfig,
    /// The operation is not one the device's backend supports.
    InvalidBlockBackend,
    /// No backend could be restored.
    BackendRestore,
    /// Error of the virtio backend.
    VirtioBackend(VirtioBlockError),
    /// Error of the vhost-user backend.
    VhostUserBackend(VhostUserBlockError),
}

/// What the host learned of a backend before the device is created.
pub enum BackendInfo {
    /// The disk image of a virtio backend, of `size` bytes.
    Disk { size: u64 },
    /// The offer of a vhost-user backend: its features, its protocol
    /// features, and the configuration space it served.
    VhostUser { features: u64, protocol_features: u64, config_space: Vec<u8> },
}

/// A block device.
pub enum Block {
    /// A virtio block device over a disk image.
    Virtio(VirtioBlock),
    /// A vhost-user block device.
    VhostUser(VhostUserBlock),
}

/// What a block device holds, as plain values.
pub enum BlockView {
    Virtio(VirtioBlockView),
    VhostUser(VhostUserBlockView),
}

impl View for Block {
    type V = BlockView;

    open spec fn view(&self) -> BlockView {
        match self {
            Block::Virtio(b) => BlockView::Virtio(b@),
            Block::VhostUser(b) => BlockView::VhostUser(b@),
        }
    }
}

/// The outcome of `Block::new`, with the device as plain values.
pub open spec fn spec_block_result_view(r: Result<Block, BlockError>) -> Result<BlockView, BlockError> {
    match r {
        Ok(b) => Ok(b@),
        Err(e) => Err(e),
    }
}

/// What `Block::new` gives for `config` and `backend`: a virtio device for
/// a virtio configuration over a disk image, a vhost-user device for a
/// vhost-user configuration with the backend's offer,
/// `InvalidBlockBackend` when the backend is of the other kind, and
/// `InvalidBlockConfig` for a configuration of neither kind.
pub open spec fn spec_block_new(config: BlockDeviceConfig, backend: BackendInfo) -> Result<
    BlockView,
    BlockError,
> {
    if spec_is_virtio_config(config) {
        match backend {
            BackendInfo::Disk { size } => Ok(
                BlockView::Virtio(spec_virtio_block_new(spec_virtio_config_of(config), size)),
            ),
            BackendInfo::VhostUser { .. } => Err(BlockError::InvalidBlockBackend),
        }
    } else if spec_is_vhost_user_config(config) {
        match backend {
            BackendInfo::VhostUser { features, protocol_features, config_space } => Ok(
                BlockView::VhostUser(
                    spec_vhost_user_block_new(
                        spec_vhost_user_config_of(config),
                        features,
                        protocol_features,
                        config_space@,
                    ),
                ),
            ),
            BackendInfo::Disk { .. } => Err(BlockError::InvalidBlockBackend),
        }
    } else {
        Err(BlockError::InvalidBlockConfig)
    }
}

/// The configuration a device reports.
pub open spec fn spec_block_config(b: BlockView) -> BlockDeviceConfig {
    match b {
        BlockView::Virtio(v) => spec_block_config_of_virtio(spec_virtio_block_config(v)),
        BlockView::VhostUser(v) => spec_block_config_of_vhost_user(spec_vhost_user_block_config(v)),
    }
}

/// Whether the device has a vhost-user backend.
pub open spec fn spec_is_vhost_user(b: BlockView) -> bool {
    b is VhostUser
}

pub open spec fn spec_id(b: BlockView) -> String {
    match b {
        BlockView::Virtio(v) => v.id,
        BlockView::VhostUser(v) => v.id,
    }
}

pub open spec fn spec_partuuid(b: BlockView) -> Option<String> {
    match b {
        BlockView::Virtio(v) => v.partuuid,
        BlockView::VhostUser(v) => v.partuuid,
    }
}

pub open spec fn spec_root_device(b: BlockView) -> bool {
    match b {
        BlockView::Virtio(v) => v.root_device,
        BlockView::VhostUser(v) => v.root_device,
    }
}

pub open spec fn spec_read_only(b: BlockView) -> bool {
    match b {
        BlockView::Virtio(v) => v.read_only,
        BlockView::VhostUser(v) => v.read_only,
    }
}

pub open spec fn spec_avail_features(b: BlockView) -> u64 {
    match b {
        BlockView::Virtio(v) => v.avail_features,
        BlockView::VhostUser(v) => v.avail_features,
    }
}

pub open spec fn spec_acked_features(b: BlockView) -> u64 {
    match b {
        BlockView::Virtio(v) => v.acked_features,
        BlockView::VhostUser(v) => v.acked_features,
    }
}

pub open spec fn spec_queues(b: BlockView) -> Seq<Queue> {
    match b {
        BlockView::Virtio(v) => v.queues,
        BlockView::VhostUser(v) => v.queues,
    }
}

pub open spec fn spec_config_space(b: BlockView) -> Seq<u8> {
    match b {
        BlockView::Virtio(v) => v.config_space,
        BlockView::VhostUser(v) => v.config_space,
    }
}

pub open spec fn spec_is_activated(b: BlockView) -> bool {
    match b {
        BlockView::Virtio(v) => v.activated,
        BlockView::VhostUser(v) => v.activated,
    }
}

/// The device with the driver's accepted features set to `features`.
pub open spec fn spec_with_acked_features(b: BlockView, features: u64) -> BlockView {
    match b {
        BlockView::Virtio(v) => BlockView::Virtio(VirtioBlockView { acked_features: features, ..v }),
        BlockView::VhostUser(v) => BlockView::VhostUser(
            VhostUserBlockView { acked_features: features, ..v },
        ),
    }
}

/// The device with its queues replaced by `queues`.
pub open spec fn spec_with_queues(b: BlockView, queues: Seq<Queue>) -> BlockView {
    match b {
        BlockView::Virtio(v) => BlockView::Virtio(VirtioBlockView { queues, ..v }),
        BlockView::VhostUser(v) => BlockView::VhostUser(VhostUserBlockView { queues, ..v }),
    }
}

/// The device after the driver wrote `data` at `offset` of its
/// configuration space: the virtio backend takes a write that fits, the
/// vhost-user backend's configuration is read-only.
pub open spec fn spec_block_write_config(b: BlockView, offset: u64, data: Seq<u8>) -> BlockView {
    match b {
        BlockView::Virtio(v) => BlockView::Virtio(
            VirtioBlockView { config_space: spec_write_config(v.config_space, offset, data), ..v },
        ),
        BlockView::VhostUser(v) => b,
    }
}

/// Whether `Block::activate` succeeds: for a virtio device, every queue is
/// laid out validly and its rings lie in guest memory.
pub open spec fn spec_activation_allowed(b: BlockView, rings_in_guest_memory: bool) -> bool {
    match b {
        BlockView::Virtio(v) => spec_all_queues_valid(v.queues) && rings_in_guest_memory,
        BlockView::VhostUser(_) => true,
    }
}

/// The device after it was activated.
pub open spec fn spec_block_activate(b: BlockView) -> BlockView {
    match b {
        BlockView::Virtio(v) => BlockView::Virtio(spec_virtio_block_activate(v)),
        BlockView::VhostUser(v) => BlockView::VhostUser(VhostUserBlockView { activated: true, ..v }),
    }
}

/// The device after its disk image was replaced, for a virtio device.
pub open spec fn spec_virtio_with_disk_image(v: VirtioBlockView, path: String, disk_size: u64) -> VirtioBlockView {
    VirtioBlockView {
        disk: DiskProperties { file_path: path, nsectors: spec_nsectors(disk_size), ..v.disk },
        config_space: spec_le_bytes_u64(spec_nsectors(disk_size)),
        ..v
    }
}

/// The device after its rate limiter's buckets were changed, for a virtio
/// device.
pub open spec fn spec_virtio_with_bucket_updates(
    v: VirtioBlockView,
    bytes: BucketUpdate,
    ops: BucketUpdate,
) -> VirtioBlockView {
    VirtioBlockView {
        rate_limiter: RateLimiterView {
            bandwidth: apply_bucket_update(bytes, v.rate_limiter.bandwidth),
            ops: apply_bucket_update(ops, v.rate_limiter.ops),
        },
        ..v
    }
}

/// The saved state of a block device.
#[derive(Clone, Debug, PartialEq, Eq)]
pub enum BlockState {
    Virtio(VirtioBlockState),
    VhostUser(VhostUserBlockState),
}

/// What `Block::restore` gives for `state` over a disk image of
/// `disk_size` bytes: the restored virtio device or its error; a vhost-user
/// device cannot be restored.
pub open spec fn spec_block_restore(state: BlockState, disk_size: u64) -> Result<BlockView, BlockError> {
    match state {
        BlockState::Virtio(s) => match spec_virtio_block_restore(s, disk_size) {
            Ok(v) => Ok(BlockView::Virtio(v)),
            Err(e) => Err(BlockError::VirtioBackend(e)),
        },
        BlockState::VhostUser(_) => Err(
            BlockError::VhostUserBackend(VhostUserBlockError::SnapshottingNotSupported),
        ),
    }
}

impl Block {
    /// The state to save for a virtio device; a vhost-user device cannot be
    /// saved.
    pub fn save(&self) -> (r: BlockState)
        requires
            !spec_is_vhost_user(self@),
        ensures
            match (r, self@) {
                (BlockState::Virtio(s), BlockView::Virtio(v)) => spec_is_saved_state_of(s, v),
                _ => false,
            },
    {
        match self {
            Block::Virtio(b) => BlockState::Virtio(b.save()),
            Block::VhostUser(b) => BlockState::VhostUser(
                VhostUserBlockState {
                    id: b.id.clone(),
                    partuuid: crate::drive::clone_option_string(&b.partuuid),
                    cache_type: b.cache_type,
                    root_device: b.root_device,
                    socket_path: b.socket.clone(),
                    vu_acked_protocol_features: b.acked_protocol_features,
                    config_space: Vec::new(),
                },
            ),
        }
    }

    /// Restores a device from its saved state, over its disk image reopened
    /// with `disk_size` bytes.
    pub fn restore(state: &BlockState, disk_size: u64) -> (r: Result<Block, BlockError>)
        ensures
            spec_block_result_view(r) == spec_block_restore(*state, disk_size),
    {
        match state {
            BlockState::Virtio(s) => match VirtioBlock::restore(s, disk_size) {
                Ok(b) => Ok(Block::Virtio(b)),
                Err(e) => Err(BlockError::VirtioBackend(e)),
            },
            BlockState::VhostUser(_) => Err(
                BlockError::VhostUserBackend(VhostUserBlockError::SnapshottingNotSupported),
            ),
        }
    }

    /// Creates the block device that `config` describes, over the backend
    /// the host probed (`backend`).
    pub fn new(config: BlockDeviceConfig, backend: BackendInfo) -> (r: Result<Block, BlockError>)
        ensures
            spec_block_result_view(r) == spec_block_new(config, backend),
    {
        if let Ok(virtio_config) = VirtioBlockConfig::try_from(&config) {
            return match backend {
                BackendInfo::Disk { size } => Ok(Block::Virtio(VirtioBlock::new(virtio_config, size))),
                BackendInfo::VhostUser { .. } => Err(BlockError::InvalidBlockBackend),
            };
        }
        if let Ok(vhost_user_config) = VhostUserBlockConfig::try_from(&config) {
            return match backend {
                BackendInfo::VhostUser { features, protocol_features, config_space } => Ok(
                    Block::VhostUser(
                        VhostUserBlock::new(
                            vhost_user_config,
                            features,
                            protocol_features,
                            config_space,
                        ),
                    ),
                ),
                BackendInfo::Disk { .. } => Err(BlockError::InvalidBlockBackend),
            };
        }
        Err(BlockError::InvalidBlockConfig)
    }

    /// The configuration of the device.
    pub fn config(&self) -> (r: BlockDeviceConfig)
        ensures
            r == spec_block_config(self@),
    {
        match self {
            Block::Virtio(b) => BlockDeviceConfig::from(b.config()),
            Block::VhostUser(b) => BlockDeviceConfig::from(b.config()),
        }
    }

    /// Replaces the disk image of a virtio device with the one at
    /// `disk_image_path`, of `disk_size` bytes; a vhost-user device has no
    /// disk image and is left unchanged.
    pub fn update_disk_image(&mut self, disk_image_path: String, disk_size: u64) -> (r: Result<
        (),
        BlockError,
    >)
        ensures
            match old(self)@ {
                BlockView::Virtio(v) => {
                    &&& r is Ok
                    &&& final(self)@ == BlockView::Virtio(
                        spec_virtio_with_disk_image(v, disk_image_path, disk_size),
                    )
                },
                BlockView::VhostUser(_) => {
                    &&& r == Err::<(), BlockError>(BlockError::InvalidBlockBackend)
                    &&& final(self)@ == old(self)@
                },
            },
    {
        match self {
            Block::Virtio(b) => {
                b.update_disk_image(disk_image_path, disk_size);
                Ok(())
            },
            Block::VhostUser(_) => Err(BlockError::InvalidBlockBackend),
        }
    }

    /// Changes the rate limiter's buckets of a virtio device; a vhost-user
    /// device has no rate limiter and is left unchanged.
    pub fn update_rate_limiter(&mut self, bytes: BucketUpdate, ops: BucketUpdate) -> (r: Result<
        (),
        BlockError,
    >)
        ensures
            match old(self)@ {
                BlockView::Virtio(v) => {
                    &&& r is Ok
                    &&& final(self)@ == BlockView::Virtio(
                        spec_virtio_with_bucket_updates(v, bytes, ops),
                    )
                },
                BlockView::VhostUser(_) => {
                    &&& r == Err::<(), BlockError>(BlockError::InvalidBlockBackend)
                    &&& final(self)@ == old(self)@
                },
            },
    {
        match self {
            Block::Virtio(b) => {
                b.update_rate_limiter(bytes, ops);
                Ok(())
            },
            Block::VhostUser(_) => Err(BlockError::InvalidBlockBackend),
        }
    }

    /// Replaces the configuration space of a vhost-user device with the one
    /// its backend now serves; a virtio device is left unchanged.
    pub fn update_config(&mut self, new_config_space: Vec<u8>) -> (r: Result<(), BlockError>)
        ensures
            match old(self)@ {
                BlockView::Virtio(_) => {
                    &&& r == Err::<(), BlockError>(BlockError::InvalidBlockBackend)
                    &&& final(self)@ == old(self)@
                },
                BlockView::VhostUser(v) => {
                    &&& r is Ok
                    &&& final(self)@ == BlockView::VhostUser(
                        VhostUserBlockView { config_space: new_config_space@, ..v },
                    )
                },
            },
    {
        match self {
            Block::Virtio(_) => Err(BlockError::InvalidBlockBackend),
            Block::VhostUser(b) => {
                b.config_update(new_config_space);
                Ok(())
            },
        }
    }

    /// The work to do on the disk before the state of a virtio device is
    /// saved. A vhost-user device cannot be saved.
    pub fn prepare_save(&self) -> (r: PrepareSaveWork)
        requires
            !spec_is_vhost_user(self@),
        ensures
            match self@ {
                BlockView::Virtio(v) => r == spec_virtio_prepare_save(v),
                BlockView::VhostUser(_) => false,
            },
    {
        match self {
            Block::Virtio(b) => b.prepare_save(),
            Block::VhostUser(_) => PrepareSaveWork::Nothing,
        }
    }

    /// Processes the requests the host took from the available ring of a
    /// virtio device's queue: `results[i]` is what the disk operation of
    /// `chains[i]` (see `disk_operation`) came to. Returns what the driver is
    /// to be told of each chain, and advances the queue's available and used
    /// positions by the number of chains. A vhost-user backend processes its
    /// own queue: nothing is done here.
    pub fn process_virtio_queues(&mut self, chains: &[DescriptorChain], results: &[DiskResult]) -> (r:
        Vec<Completion>)
        requires
            !spec_is_vhost_user(old(self)@) ==> spec_queues(old(self)@).len() > 0,
        ensures
            match old(self)@ {
                BlockView::Virtio(v) => {
                    &&& r@.len() == chains@.len()
                    &&& forall|i: int|
                        0 <= i < chains@.len() ==> #[trigger] r@[i] == spec_chain_completion(
                            chains@[i],
                            v.disk.nsectors,
                            spec_result_at(results@, i),
                        )
                    &&& final(self)@ == BlockView::Virtio(
                        spec_virtio_after_processing(v, chains@.len()),
                    )
                },
                BlockView::VhostUser(_) => {
                    &&& r@.len() == 0
                    &&& final(self)@ == old(self)@
                },
            },
    {
        match self {
            Block::Virtio(b) => b.process_queue(chains, results),
            Block::VhostUser(_) => Vec::new(),
        }
    }

    /// The drive identifier.
    pub fn id(&self) -> (r: &str)
        ensures
            r@ == spec_id(self@)@,
    {
        match self {
            Block::Virtio(b) => b.id.as_str(),
            Block::VhostUser(b) => b.id.as_str(),
        }
    }

    /// Whether the drive is the root device.
    pub fn root_device(&self) -> (r: bool)
        ensures
            r == spec_root_device(self@),
    {
        match self {
            Block::Virtio(b) => b.root_device,
            Block::VhostUser(b) => b.root_device,
        }
    }

    /// Whether the drive is read-only.
    pub fn read_only(&self) -> (r: bool)
        ensures
            r == spec_read_only(self@),
    {
        match self {
            Block::Virtio(b) => b.read_only,
            Block::VhostUser(b) => b.read_only,
        }
    }

    /// The partition UUID.
    pub fn partuuid(&self) -> (r: &Option<String>)
        ensures
            *r == spec_partuuid(self@),
    {
        match self {
            Block::Virtio(b) => &b.partuuid,
            Block::VhostUser(b) => &b.partuuid,
        }
    }

    /// Whether the device has a vhost-user backend.
    pub fn is_vhost_user(&self) -> (r: bool)
        ensures
            r == spec_is_vhost_user(self@),
    {
        match self {
            Block::Virtio(_) => false,
            Block::VhostUser(_) => true,
        }
    }

    /// The features the device offers.
    pub fn avail_features(&self) -> (r: u64)
        ensures
            r == spec_avail_features(self@),
    {
        match self {
            Block::Virtio(b) => b.avail_features,
            Block::VhostUser(b) => b.avail_features,
        }
    }

    /// The features the driver accepted.
    pub fn acked_features(&self) -> (r: u64)
        ensures
            r == spec_acked_features(self@),
    {
        match self {
            Block::Virtio(b) => b.acked_features,
            Block::VhostUser(b) => b.acked_features,
        }
    }

    /// Records the features the driver accepted.
    pub fn set_acked_features(&mut self, acked_features: u64)
        ensures
            final(self)@ == spec_with_acked_features(old(self)@, acked_features),
    {
        match self {
            Block::Virtio(b) => b.acked_features = acked_features,
            Block::VhostUser(b) => b.acked_features = acked_features,
        }
    }

    /// The virtio device type: block.
    pub fn device_type(&self) -> (r: u32)
        ensures
            r == TYPE_BLOCK,
    {
        TYPE_BLOCK
    }

    /// The device's queues.
    pub fn queues(&self) -> (r: &[Queue])
        ensures
            r@ == spec_queues(self@),
    {
        match self {
            Block::Virtio(b) => b.queues.as_slice(),
            Block::VhostUser(b) => b.queues.as_slice(),
        }
    }

    /// The device's queues, to be changed by the transport.
    pub fn queues_mut(&mut self) -> (r: &mut [Queue])
        ensures
            r@ == spec_queues(old(self)@),
            final(self)@ == spec_with_queues(old(self)@, final(r)@),
    {
        match self {
            Block::Virtio(b) => b.queues.as_mut_slice(),
            Block::VhostUser(b) => b.queues.as_mut_slice(),
        }
    }

    /// Copies into `data` the device's configuration space from `offset` on.
    pub fn read_config(&self, offset: u64, data: &mut [u8])
        ensures
            final(data)@ == spec_read_config(spec_config_space(self@), offset, old(data)@),
    {
        match self {
            Block::Virtio(b) => b.read_config(offset, data),
            Block::VhostUser(b) => b.read_config(offset, data),
        }
    }

    /// Writes `data` into the device's configuration space at `offset`.
    pub fn write_config(&mut self, offset: u64, data: &[u8])
        ensures
            final(self)@ == spec_block_write_config(old(self)@, offset, data@),
    {
        match self {
            Block::Virtio(b) => b.write_config(offset, data),
            Block::VhostUser(b) => b.write_config(offset, data),
        }
    }

    /// Activates the device. A virtio device needs every queue laid out
    /// validly and, as the host found, its rings in guest memory
    /// (`rings_in_guest_memory`), else it fails with a queue memory error and
    /// is left unchanged; a vhost-user device, whose backend the host has set
    /// up, is activated.
    pub fn activate(&mut self, rings_in_guest_memory: bool) -> (r: Result<(), ActivateError>)
        ensures
            spec_activation_allowed(old(self)@, rings_in_guest_memory) ==> {
                &&& r is Ok
                &&& final(self)@ == spec_block_activate(old(self)@)
            },
            !spec_activation_allowed(old(self)@, rings_in_guest_memory) ==> {
                &&& r matches Err(ActivateError::QueueMemoryError(_))
                &&& final(self)@ == old(self)@
            },
    {
        match self {
            Block::Virtio(b) => b.activate(rings_in_guest_memory),
            Block::VhostUser(b) => {
                b.activate();
                Ok(())
            },
        }
    }

    /// The disk operation that `chain` asks of a virtio device; a vhost-user
    /// device asks none of this host.
    pub fn disk_operation(&self, chain: &DescriptorChain) -> (op: DiskOperation)
        ensures
            op == match self@ {
                BlockView::Virtio(v) => spec_chain_disk_operation(*chain, v.disk.nsectors),
                BlockView::VhostUser(_) => DiskOperation::Nothing,
            },
    {
        match self {
            Block::Virtio(b) => b.disk_operation(chain),
            Block::VhostUser(_) => DiskOperation::Nothing,
        }
    }

    /// Whether the device was activated.
    pub fn is_activated(&self) -> (r: bool)
        ensures
            r == spec_is_activated(self@),
    {
        match self {
            Block::Virtio(b) => b.activated,
            Block::VhostUser(b) => b.activated,
        }
    }
}

} // verus!
