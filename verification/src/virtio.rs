//! Virtio device identifiers, feature bits and the errors raised when a
//! device is activated.

use vstd::prelude::*;

verus! {

/// Virtio net device ID.
pub const TYPE_NET: u32 = 1;

/// Virtio block device ID.
pub const TYPE_BLOCK: u32 = 2;

/// Virtio rng device ID.
pub const TYPE_RNG: u32 = 4;

/// Virtio balloon device ID.
pub const TYPE_BALLOON: u32 = 5;

/// Offset from the base MMIO address of a virtio device used by the guest to
/// notify the device of queue events.
pub const NOTIFY_REG_OFFSET: u32 = 0x50;

/// Feature bit: the device complies with virtio 1.0.
pub const VIRTIO_F_VERSION_1: u64 = 32;

/// Feature bit: the driver may use indirect descriptors.
pub const VIRTIO_RING_F_INDIRECT_DESC: u64 = 28;

/// Feature bit: the `used_event` and `avail_event` fields are used for
/// notification suppression.
pub const VIRTIO_RING_F_EVENT_IDX: u64 = 29;

/// Feature bit: the block device is read-only.
pub const VIRTIO_BLK_F_RO: u64 = 5;

/// Feature bit: the block device supports cache flush.
pub const VIRTIO_BLK_F_FLUSH: u64 = 9;

/// Feature bit of vhost-user: protocol features may be negotiated.
pub const VHOST_USER_F_PROTOCOL_FEATURES: u64 = 30;

/// Vhost-user protocol feature bit: the backend serves its configuration
/// space.
pub const VHOST_USER_PROTOCOL_F_CONFIG: u64 = 9;

/// Errors triggered when activating a virtio device.
#[derive(Debug, PartialEq, Eq)]
pub enum ActivateError {
    /// Wrong number of queues for the device.
    QueueMismatch { expected: usize, got: usize },
    /// Failed to write to the activate eventfd.
    EventFd,
    /// Error from the vhost-user backend, with its message.
    VhostUser(String),
    /// Setting the tap interface offload flags failed, with the message.
    TapSetOffload(String),
    /// Error setting pointers in the queue, with the message.
    QueueMemoryError(String),
}

} // verus!
