//! The vhost-user block backend: a block device served by another process
//! over a vhost-user socket.

use vstd::prelude::*;
use crate::config_space::{read_config_space, spec_read_config};
use crate::drive::{
    BlockDeviceConfig, CacheType, spec_is_vhost_user_config, is_writeback, clone_option_string,
};
use crate::queue::{Queue, FIRECRACKER_MAX_QUEUE_SIZE, spec_new_queue};
use crate::virtio::{
    VHOST_USER_F_PROTOCOL_FEATURES, VHOST_USER_PROTOCOL_F_CONFIG, VIRTIO_BLK_F_FLUSH,
    VIRTIO_BLK_F_RO, VIRTIO_F_VERSION_1, VIRTIO_RING_F_EVENT_IDX,
};

verus! {

/// Size in bytes of the configuration space asked of the backend.
pub const BLOCK_CONFIG_SPACE_SIZE: u32 = 60;

/// Errors of the vhost-user block backend.
#[derive(Debug, PartialEq, Eq)]
pub enum VhostUserBlockError {
    /// The configuration does not describe a vhost-user block device.
    Config,
    /// The exchange with the backend failed, with the message.
    VhostUser(String),
    /// An eventfd could not be created, with the message.
    EventFd(String),
    /// The interrupt could not be raised, with the message.
    IrqTrigger(String),
    /// A vhost-user device cannot be saved or restored.
    SnapshottingNotSupported,
}

/// The saved state of a vhost-user block device.
#[derive(Clone, Debug, PartialEq, Eq)]
pub struct VhostUserBlockState {
    pub id: String,
    pub partuuid: Option<String>,
    pub cache_type: CacheType,
    pub root_device: bool,
    pub socket_path: String,
    pub vu_acked_protocol_features: u64,
    pub config_space: Vec<u8>,
}

/// The configuration of a vhost-user block device.
#[derive(Clone, Debug, PartialEq, Eq)]
pub struct VhostUserBlockConfig {
    /// Unique identifier of the drive.
    pub drive_id: String,
    /// Partition UUID.
    pub partuuid: Option<String>,
    /// Whether the drive is the root device.
    pub is_root_device: bool,
    /// Host cache mode.
    pub cache_type: CacheType,
    /// Path of the backend's socket.
    pub socket: String,
}

/// The vhost-user configuration that a block device configuration
/// describes.
pub open spec fn spec_vhost_user_config_of(c: BlockDeviceConfig) -> VhostUserBlockConfig {
    VhostUserBlockConfig {
        drive_id: c.drive_id,
        partuuid: c.partuuid,
        is_root_device: c.is_root_device,
        cache_type: c.cache_type,
        socket: c.socket->0,
    }
}

/// The block device configuration that a vhost-user configuration stands
/// for.
pub open spec fn spec_block_config_of_vhost_user(v: VhostUserBlockConfig) -> BlockDeviceConfig {
    BlockDeviceConfig {
        drive_id: v.drive_id,
        partuuid: v.partuuid,
        is_root_device: v.is_root_device,
        cache_type: v.cache_type,
        is_read_only: None,
        path_on_host: None,
        rate_limiter: None,
        file_engine_type: None,
        socket: Some(v.socket),
    }
}

impl VhostUserBlockConfig {
    /// The vhost-user configuration that `value` describes, or `Config` when
    /// it describes none (no socket, or a field of the virtio backend: image
    /// path, read-only flag, rate limiter or engine).
    pub fn try_from(value: &BlockDeviceConfig) -> (r: Result<Self, VhostUserBlockError>)
        ensures
            spec_is_vhost_user_config(*value) ==> r == Ok::<Self, VhostUserBlockError>(
                spec_vhost_user_config_of(*value),
            ),
            !spec_is_vhost_user_config(*value) ==> r == Err::<Self, VhostUserBlockError>(
                VhostUserBlockError::Config,
            ),
    {
        if value.path_on_host.is_none() && value.is_read_only.is_none() && value.rate_limiter.is_none()
            && value.file_engine_type.is_none() {
            if let Some(socket) = &value.socket {
                return Ok(
                    VhostUserBlockConfig {
                        drive_id: value.drive_id.clone(),
                        partuuid: clone_option_string(&value.partuuid),
                        is_root_device: value.is_root_device,
                        cache_type: value.cache_type,
                        socket: socket.clone(),
                    },
                );
            }
        }
        Err(VhostUserBlockError::Config)
    }
}

impl From<VhostUserBlockConfig> for BlockDeviceConfig {
    fn from(value: VhostUserBlockConfig) -> (r: Self) {
        BlockDeviceConfig {
            drive_id: value.drive_id,
            partuuid: value.partuuid,
            is_root_device: value.is_root_device,
            cache_type: value.cache_type,
            is_read_only: None,
            path_on_host: None,
            rate_limiter: None,
            file_engine_type: None,
            socket: Some(value.socket),
        }
    }
}

impl vstd::std_specs::convert::FromSpecImpl<VhostUserBlockConfig> for BlockDeviceConfig {
    open spec fn obeys_from_spec() -> bool {
        true
    }

    open spec fn from_spec(v: VhostUserBlockConfig) -> Self {
        spec_block_config_of_vhost_user(v)
    }
}

/// The features the device asks of the backend: virtio 1.0, event index,
/// protocol features and read-only always, flush with a writeback cache.
pub open spec fn spec_requested_features(cache_type: CacheType) -> u64 {
    let base = (1u64 << VIRTIO_F_VERSION_1) | (1u64 << VIRTIO_RING_F_EVENT_IDX) | (1u64
        << VHOST_USER_F_PROTOCOL_FEATURES) | (1u64 << VIRTIO_BLK_F_RO);
    if is_writeback(cache_type) {
        base | (1u64 << VIRTIO_BLK_F_FLUSH)
    } else {
        base
    }
}

/// The features both sides support: those asked for that the backend
/// offers.
pub open spec fn spec_negotiated_features(cache_type: CacheType, backend_features: u64) -> u64 {
    spec_requested_features(cache_type) & backend_features
}

/// The protocol features both sides support: the configuration-space
/// feature, when the backend offers it and protocol features were
/// negotiated at all.
pub open spec fn spec_negotiated_protocol_features(
    negotiated_features: u64,
    backend_protocol_features: u64,
) -> u64 {
    if negotiated_features & (1u64 << VHOST_USER_F_PROTOCOL_FEATURES) != 0 {
        backend_protocol_features & (1u64 << VHOST_USER_PROTOCOL_F_CONFIG)
    } else {
        0
    }
}

/// What a vhost-user block device holds, as plain values.
pub struct VhostUserBlockView {
    pub avail_features: u64,
    pub acked_features: u64,
    pub acked_protocol_features: u64,
    pub config_space: Seq<u8>,
    pub queues: Seq<Queue>,
    pub activated: bool,
    pub id: String,
    pub partuuid: Option<String>,
    pub cache_type: CacheType,
    pub root_device: bool,
    pub read_only: bool,
    pub socket: String,
}

/// A vhost-user block device.
pub struct VhostUserBlock {
    /// Features offered to the driver: those negotiated with the backend.
    pub avail_features: u64,
    /// Features the driver accepted.
    pub acked_features: u64,
    /// Protocol features negotiated with the backend.
    pub acked_protocol_features: u64,
    /// The configuration space the driver reads, as the backend serves it.
    pub config_space: Vec<u8>,
    /// The device's queues.
    pub queues: Vec<Queue>,
    /// Whether the device was activated.
    pub activated: bool,
    /// Drive identifier.
    pub id: String,
    /// Partition UUID.
    pub partuuid: Option<String>,
    /// Host cache mode.
    pub cache_type: CacheType,
    /// Whether the drive is the root device.
    pub root_device: bool,
    /// Whether the backend serves the disk read-only.
    pub read_only: bool,
    /// Path of the backend's socket.
    pub socket: String,
}

impl View for VhostUserBlock {
    type V = VhostUserBlockView;

    open spec fn view(&self) -> VhostUserBlockView {
        VhostUserBlockView {
            avail_features: self.avail_features,
            acked_features: self.acked_features,
            acked_protocol_features: self.acked_protocol_features,
            config_space: self.config_space@,
            queues: self.queues@,
            activated: self.activated,
            id: self.id,
            partuuid: self.partuuid,
            cache_type: self.cache_type,
            root_device: self.root_device,
            read_only: self.read_only,
            socket: self.socket,
        }
    }
}

/// The device that `VhostUserBlock::new` builds from `config` and what the
/// backend offered: its features, its protocol features, and the
/// configuration space it served.
pub open spec fn spec_vhost_user_block_new(
    config: VhostUserBlockConfig,
    backend_features: u64,
    backend_protocol_features: u64,
    backend_config_space: Seq<u8>,
) -> VhostUserBlockView {
    let avail = spec_negotiated_features(config.cache_type, backend_features);
    let protocol = spec_negotiated_protocol_features(avail, backend_protocol_features);
    VhostUserBlockView {
        avail_features: avail,
        acked_features: avail & (1u64 << VHOST_USER_F_PROTOCOL_FEATURES),
        acked_protocol_features: protocol,
        config_space: if protocol != 0 {
            backend_config_space
        } else {
            Seq::empty()
        },
        queues: seq![spec_new_queue(FIRECRACKER_MAX_QUEUE_SIZE)],
        activated: false,
        id: config.drive_id,
        partuuid: config.partuuid,
        cache_type: config.cache_type,
        root_device: config.is_root_device,
        read_only: avail & (1u64 << VIRTIO_BLK_F_RO) != 0,
        socket: config.socket,
    }
}

/// The configuration a vhost-user block device reports.
pub open spec fn spec_vhost_user_block_config(b: VhostUserBlockView) -> VhostUserBlockConfig {
    VhostUserBlockConfig {
        drive_id: b.id,
        partuuid: b.partuuid,
        is_root_device: b.root_device,
        cache_type: b.cache_type,
        socket: b.socket,
    }
}

impl VhostUserBlock {
    /// The features to ask of the backend for a device with `cache_type`.
    pub fn requested_features(cache_type: CacheType) -> (r: u64)
        ensures
            r == spec_requested_features(cache_type),
    {
        let base = (1u64 << VIRTIO_F_VERSION_1) | (1u64 << VIRTIO_RING_F_EVENT_IDX) | (1u64
            << VHOST_USER_F_PROTOCOL_FEATURES) | (1u64 << VIRTIO_BLK_F_RO);
        match cache_type {
            CacheType::Writeback => base | (1u64 << VIRTIO_BLK_F_FLUSH),
            CacheType::Unsafe => base,
        }
    }

    /// The protocol features to set on the backend, given the negotiated
    /// features and the protocol features the backend offered.
    pub fn negotiated_protocol_features(
        negotiated_features: u64,
        backend_protocol_features: u64,
    ) -> (r: u64)
        ensures
            r == spec_negotiated_protocol_features(negotiated_features, backend_protocol_features),
    {
        if negotiated_features & (1u64 << VHOST_USER_F_PROTOCOL_FEATURES) != 0 {
            backend_protocol_features & (1u64 << VHOST_USER_PROTOCOL_F_CONFIG)
        } else {
            0
        }
    }

    /// Creates a vhost-user block device from `config` and what the backend
    /// offered: the device offers the negotiated features, is read-only when
    /// the backend accepted read-only, and shows the backend's configuration
    /// space when the configuration-space protocol feature was negotiated.
    pub fn new(
        config: VhostUserBlockConfig,
        backend_features: u64,
        backend_protocol_features: u64,
        backend_config_space: Vec<u8>,
    ) -> (r: VhostUserBlock)
        ensures
            r@ == spec_vhost_user_block_new(
                config,
                backend_features,
                backend_protocol_features,
                backend_config_space@,
            ),
    {
        let avail_features = Self::requested_features(config.cache_type) & backend_features;
        let acked_protocol_features = Self::negotiated_protocol_features(
            avail_features,
            backend_protocol_features,
        );
        let config_space = if acked_protocol_features != 0 {
            backend_config_space
        } else {
            Vec::new()
        };
        let mut queues: Vec<Queue> = Vec::new();
        queues.push(Queue::new(FIRECRACKER_MAX_QUEUE_SIZE));
        let r = VhostUserBlock {
            avail_features,
            acked_features: avail_features & (1u64 << VHOST_USER_F_PROTOCOL_FEATURES),
            acked_protocol_features,
            config_space,
            queues,
            activated: false,
            id: config.drive_id,
            partuuid: config.partuuid,
            cache_type: config.cache_type,
            root_device: config.is_root_device,
            read_only: avail_features & (1u64 << VIRTIO_BLK_F_RO) != 0,
            socket: config.socket,
        };
        assert(r.queues@ =~= seq![spec_new_queue(FIRECRACKER_MAX_QUEUE_SIZE)]);
        assert(r.config_space@ =~= (if acked_protocol_features != 0 {
            backend_config_space@
        } else {
            Seq::<u8>::empty()
        }));
        r
    }

    /// The configuration of the device.
    pub fn config(&self) -> (r: VhostUserBlockConfig)
        ensures
            r == spec_vhost_user_block_config(self@),
    {
        VhostUserBlockConfig {
            drive_id: self.id.clone(),
            partuuid: clone_option_string(&self.partuuid),
            is_root_device: self.root_device,
            cache_type: self.cache_type,
            socket: self.socket.clone(),
        }
    }

    /// Replaces the configuration space with the one the backend now serves.
    pub fn config_update(&mut self, new_config_space: Vec<u8>)
        ensures
            final(self)@ == (VhostUserBlockView { config_space: new_config_space@, ..old(self)@ }),
    {
        self.config_space = new_config_space;
    }

    /// Copies into `data` the configuration space from `offset` on.
    pub fn read_config(&self, offset: u64, data: &mut [u8])
        ensures
            final(data)@ == spec_read_config(self.config_space@, offset, old(data)@),
    {
        read_config_space(self.config_space.as_slice(), offset, data);
    }

    /// Ignores a write of the driver: the backend's configuration fields
    /// cannot be changed by the driver.
    pub fn write_config(&mut self, offset: u64, data: &[u8])
        ensures
            final(self)@ == old(self)@,
    {
    }

    /// Marks the device activated.
    pub fn activate(&mut self)
        ensures
            final(self)@ == (VhostUserBlockView { activated: true, ..old(self)@ }),
    {
        self.activated = true;
    }
}

} // verus!
