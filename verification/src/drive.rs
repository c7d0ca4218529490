//! The configuration of a block device as the user gives it.

use vstd::prelude::*;
use crate::rate_limiter::RateLimiterConfig;

verus! {

/// How the host caches writes to the disk image.
#[derive(Clone, Copy, Debug, Default, PartialEq, Eq)]
pub enum CacheType {
    /// Writes are not flushed: the device offers no flush.
    #[default]
    Unsafe,
    /// The device offers flush to the driver.
    Writeback,
}

/// The I/O engine that serves the disk image.
#[derive(Clone, Copy, Debug, Default, PartialEq, Eq)]
pub enum FileEngineType {
    /// Asynchronous I/O.
    Async,
    /// Synchronous I/O.
    #[default]
    Sync,
}

/// Whether `c` is the writeback cache type.
pub open spec fn is_writeback(c: CacheType) -> bool {
    c matches CacheType::Writeback
}

/// The configuration of a block device: common fields, then those of a
/// virtio backend over a disk image, then that of a vhost-user backend.
#[derive(Clone, Debug, PartialEq, Eq)]
pub struct BlockDeviceConfig {
    /// Unique identifier of the drive.
    pub drive_id: String,
    /// Partition UUID, used as the root partition when `is_root_device`.
    pub partuuid: Option<String>,
    /// Whether the drive is the root device.
    pub is_root_device: bool,
    /// Host cache mode.
    pub cache_type: CacheType,
    /// Whether the disk image is read-only (virtio backend).
    pub is_read_only: Option<bool>,
    /// Path of the disk image on the host (virtio backend).
    pub path_on_host: Option<String>,
    /// Rate limiter of the device (virtio backend).
    pub rate_limiter: Option<RateLimiterConfig>,
    /// I/O engine (virtio backend).
    pub file_engine_type: Option<FileEngineType>,
    /// Path of the vhost-user backend's socket (vhost-user backend).
    pub socket: Option<String>,
}

/// A configuration describes a virtio backend when it names a disk image
/// and no socket.
pub open spec fn spec_is_virtio_config(c: BlockDeviceConfig) -> bool {
    c.path_on_host is Some && c.socket is None
}

/// A configuration describes a vhost-user backend when it names a socket
/// and none of the virtio backend's own fields.
pub open spec fn spec_is_vhost_user_config(c: BlockDeviceConfig) -> bool {
    &&& c.path_on_host is None
    &&& c.is_read_only is None
    &&& c.rate_limiter is None
    &&& c.file_engine_type is None
    &&& c.socket is Some
}

/// No configuration describes both backends.
pub proof fn lemma_config_kinds_exclusive(c: BlockDeviceConfig)
    ensures
        !(spec_is_virtio_config(c) && spec_is_vhost_user_config(c)),
{
}

/// Copies an optional string.
pub fn clone_option_string(s: &Option<String>) -> (r: Option<String>)
    ensures
        r == *s,
{
    match s {
        Some(v) => Some(v.clone()),
        None => None,
    }
}

} // verus!
