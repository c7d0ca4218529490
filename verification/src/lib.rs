//! A verified model of a virtio block device front-end: the device
//! configuration, its two backends (a virtio block device over a disk image
//! and a vhost-user block device), and the rate limiter that throttles the
//! former.

pub mod rate_limiter;
pub mod virtio;
pub mod device_status;
pub mod queue;
pub mod config_space;
pub mod drive;
pub mod virtio_block;
pub mod vhost_user_block;
pub mod block;
pub mod laws;
pub mod avf;
pub mod request;
pub mod request_laws;
pub mod feature_laws;
