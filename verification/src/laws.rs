//! Properties that relate the operations of a block device to each other.

use vstd::prelude::*;
use crate::block::{
    BackendInfo, BlockView, BlockError, spec_block_new, spec_block_config, spec_id, spec_partuuid,
    spec_root_device, spec_is_activated, spec_is_vhost_user, spec_acked_features, spec_read_only,
    spec_with_acked_features, spec_avail_features, spec_config_space, spec_queues,
    spec_block_write_config, spec_virtio_with_disk_image, spec_virtio_with_bucket_updates,
    spec_block_activate, spec_with_queues,
};
use crate::config_space::{spec_read_config, spec_le_bytes_u64, lemma_read_after_write};
use crate::drive::{BlockDeviceConfig, spec_is_virtio_config, spec_is_vhost_user_config};
use crate::rate_limiter::{
    BucketUpdate, RateLimiterConfig, spec_normalize_rate_limiter_config, spec_into_option,
    spec_config_of_rate_limiter, spec_config_of_bucket, lemma_bucket_config_round_trip,
    spec_valid_rate_limiter, lemma_rate_limiter_save_restore, spec_limits,
    spec_reported_bucket_config, lemma_bucket_from_config_exists,
};
use crate::virtio_block::{
    VirtioBlockConfig, VirtioBlockView, VirtioBlockState, spec_virtio_config_of,
    spec_block_config_of_virtio, spec_nsectors, spec_is_saved_state_of, spec_device_state_valid,
    spec_restored_queues, spec_virtio_block_restore, spec_virtio_block_new, VirtioBlockError,
    spec_virtio_after_processing, spec_advance_queue, spec_virtio_block_activate,
    spec_virtio_block_config,
};
use crate::vhost_user_block::VhostUserBlockView;
use crate::queue::Queue;
use crate::rate_limiter::{apply_bucket_update, spec_valid_bucket};
use crate::virtio::{TYPE_BLOCK, VIRTIO_BLK_F_RO};
use crate::vhost_user_block::{spec_vhost_user_config_of, spec_block_config_of_vhost_user};

verus! {

/// The configuration a device reports after it was created from `c`: that
/// of the backend `c` describes, with the virtio backend's defaults filled
/// in (writable, synchronous engine) and its rate limiter as the device
/// holds it.
pub open spec fn spec_normalize_block_config(c: BlockDeviceConfig) -> BlockDeviceConfig {
    if spec_is_virtio_config(c) {
        spec_block_config_of_virtio(
            VirtioBlockConfig {
                rate_limiter: spec_normalize_rate_limiter_config(c.rate_limiter),
                ..spec_virtio_config_of(c)
            },
        )
    } else {
        spec_block_config_of_vhost_user(spec_vhost_user_config_of(c))
    }
}

/// A device reports the configuration it was created from, with the
/// virtio defaults filled in and the rate limiter as it holds it.
pub proof fn lemma_new_then_config(config: BlockDeviceConfig, backend: BackendInfo)
    requires
        spec_block_new(config, backend) is Ok,
    ensures
        spec_block_config(spec_block_new(config, backend)->Ok_0) == spec_normalize_block_config(
            config,
        ),
{
}

/// A device created from the configuration that another device reports,
/// over the same backend, is the same device.
pub proof fn lemma_config_then_new(config: BlockDeviceConfig, backend: BackendInfo)
    requires
        spec_block_new(config, backend) is Ok,
    ensures
        spec_block_new(spec_block_config(spec_block_new(config, backend)->Ok_0), backend)
            == spec_block_new(config, backend),
{
    if spec_is_virtio_config(config) {
        if let Some(rl) = config.rate_limiter {
            lemma_bucket_config_round_trip(rl.bandwidth);
            lemma_bucket_config_round_trip(rl.ops);
        }
    }
}

/// A device created from a configuration has that configuration's
/// identity: drive id, partition UUID and root flag; it is not activated,
/// the driver has accepted nothing of a virtio device, and a virtio device
/// is read-only exactly when the configuration says so.
pub proof fn lemma_new_identity(config: BlockDeviceConfig, backend: BackendInfo)
    requires
        spec_block_new(config, backend) is Ok,
    ensures
        ({
            let b = spec_block_new(config, backend)->Ok_0;
            &&& spec_id(b) == config.drive_id
            &&& spec_partuuid(b) == config.partuuid
            &&& spec_root_device(b) == config.is_root_device
            &&& !spec_is_activated(b)
            &&& spec_is_vhost_user(b) == spec_is_vhost_user_config(config)
            &&& spec_is_virtio_config(config) ==> spec_acked_features(b) == 0
            &&& spec_is_virtio_config(config) ==> spec_read_only(b) == (config.is_read_only
                == Some(true))
        }),
{
}

/// The features the driver accepted read back as they were set, and
/// setting them changes nothing else the device reports.
pub proof fn lemma_acked_features_read_after_write(b: BlockView, features: u64)
    ensures
        spec_acked_features(spec_with_acked_features(b, features)) == features,
        spec_avail_features(spec_with_acked_features(b, features)) == spec_avail_features(b),
        spec_config_space(spec_with_acked_features(b, features)) == spec_config_space(b),
        spec_queues(spec_with_acked_features(b, features)) == spec_queues(b),
        spec_block_config(spec_with_acked_features(b, features)) == spec_block_config(b),
        spec_is_activated(spec_with_acked_features(b, features)) == spec_is_activated(b),
{
}

/// On a virtio device, a read of the configuration space over the range
/// just written gives the written bytes.
pub proof fn lemma_config_space_read_after_write(
    b: BlockView,
    offset: u64,
    data: Seq<u8>,
    buf: Seq<u8>,
)
    requires
        !spec_is_vhost_user(b),
        offset + data.len() <= spec_config_space(b).len(),
        buf.len() == data.len(),
    ensures
        spec_read_config(
            spec_config_space(spec_block_write_config(b, offset, data)),
            offset,
            buf,
        ) == data,
{
    lemma_read_after_write(spec_config_space(b), offset, data, buf);
}

/// The configuration space of a vhost-user device does not change when the
/// driver writes to it.
pub proof fn lemma_vhost_user_config_space_read_only(b: BlockView, offset: u64, data: Seq<u8>)
    requires
        spec_is_vhost_user(b),
    ensures
        spec_block_write_config(b, offset, data) == b,
{
}

/// After the disk image of a virtio device was replaced, the device
/// reports the new path, and a read of the first eight bytes of its
/// configuration space gives the new capacity in sectors, little-endian.
pub proof fn lemma_update_disk_image_visible(
    v: VirtioBlockView,
    path: String,
    disk_size: u64,
    buf: Seq<u8>,
)
    requires
        buf.len() == 8,
    ensures
        ({
            let b = BlockView::Virtio(spec_virtio_with_disk_image(v, path, disk_size));
            &&& spec_block_config(b).path_on_host == Some(path)
            &&& spec_read_config(spec_config_space(b), 0, buf) == spec_le_bytes_u64(
                spec_nsectors(disk_size),
            )
        }),
{
    let b = BlockView::Virtio(spec_virtio_with_disk_image(v, path, disk_size));
    assert(spec_read_config(spec_config_space(b), 0, buf) =~= spec_le_bytes_u64(
        spec_nsectors(disk_size),
    ));
}

/// After the rate limiter of a virtio device was changed, the device
/// reports the rate limiter that results: disabling both buckets leaves no
/// rate limiter, and an updated bucket is reported as its configuration.
pub proof fn lemma_update_rate_limiter_visible(
    v: VirtioBlockView,
    bytes: BucketUpdate,
    ops: BucketUpdate,
)
    ensures
        ({
            let after = spec_virtio_with_bucket_updates(v, bytes, ops);
            &&& spec_block_config(BlockView::Virtio(after)).rate_limiter == spec_into_option(
                spec_config_of_rate_limiter(after.rate_limiter),
            )
            &&& (bytes is Disabled && ops is Disabled) ==> spec_block_config(
                BlockView::Virtio(after),
            ).rate_limiter is None
            &&& bytes matches BucketUpdate::Update(tb) ==> spec_block_config(
                BlockView::Virtio(after),
            ).rate_limiter == Some(
                RateLimiterConfig {
                    bandwidth: Some(spec_config_of_bucket(tb@)),
                    ops: spec_config_of_rate_limiter(after.rate_limiter).ops,
                },
            )
        }),
{
}

/// An activated device reports that it is activated, and keeps its
/// features and configuration.
pub proof fn lemma_activate_then_is_activated(b: BlockView)
    ensures
        spec_is_activated(spec_block_activate(b)),
        spec_acked_features(spec_block_activate(b)) == spec_acked_features(b),
        spec_block_config(spec_block_activate(b)) == spec_block_config(b),
        spec_queues(spec_block_activate(b)).len() == spec_queues(b).len(),
{
}

/// A virtio device is consistent when it could have been restored: its
/// device state is valid, its queues already suppress notifications when
/// event index was accepted, it is read-only exactly when it offers
/// read-only, and its configuration space holds its capacity.
pub open spec fn spec_virtio_block_consistent(v: VirtioBlockView) -> bool {
    &&& spec_device_state_valid(TYPE_BLOCK, v.avail_features, v.acked_features, v.queues)
    &&& spec_restored_queues(v.acked_features, v.queues) == v.queues
    &&& v.read_only == (v.avail_features & (1u64 << VIRTIO_BLK_F_RO) != 0)
    &&& v.config_space == spec_le_bytes_u64(v.disk.nsectors)
}

/// A virtio device is consistent when it is created, and its rate
/// limiter's buckets are valid.
pub proof fn lemma_new_virtio_block_consistent(config: VirtioBlockConfig, disk_size: u64)
    ensures
        spec_virtio_block_consistent(spec_virtio_block_new(config, disk_size)),
        spec_valid_rate_limiter(spec_virtio_block_new(config, disk_size).rate_limiter),
{
    let v = spec_virtio_block_new(config, disk_size);
    let avail = v.avail_features;
    assert(0u64 & !avail == 0) by (bit_vector);
    assert(0u64 & (1u64 << 29u64) == 0) by (bit_vector);
    assert(((((1u64 << 32u64) | (1u64 << 29u64)) | (1u64 << 9u64)) | (1u64 << 5u64)) & (1u64 << 5u64) != 0) by (bit_vector);
    assert(((1u64 << 32u64) | (1u64 << 29u64)) & (1u64 << 5u64) == 0) by (bit_vector);
    assert((((1u64 << 32u64) | (1u64 << 29u64)) | (1u64 << 9u64)) & (1u64 << 5u64) == 0) by (bit_vector);
    assert((((1u64 << 32u64) | (1u64 << 29u64)) | (1u64 << 5u64)) & (1u64 << 5u64) != 0) by (bit_vector);
    assert(v.read_only == (avail & (1u64 << VIRTIO_BLK_F_RO) != 0));
    assert(spec_restored_queues(0, v.queues) == v.queues);
}

/// Restoring the saved state of a consistent virtio device, over a disk
/// image of the same capacity, gives the same device.
pub proof fn lemma_save_then_restore(v: VirtioBlockView, s: VirtioBlockState, disk_size: u64)
    requires
        spec_is_saved_state_of(s, v),
        spec_valid_rate_limiter(v.rate_limiter),
        spec_virtio_block_consistent(v),
        spec_nsectors(disk_size) == v.disk.nsectors,
    ensures
        spec_virtio_block_restore(s, disk_size) == Ok::<VirtioBlockView, VirtioBlockError>(v),
{
    lemma_rate_limiter_save_restore(v.rate_limiter);
}

/// A device becomes activated only by activation: no other operation
/// changes whether it is activated, and activation makes it so.
pub proof fn lemma_only_activate_activates(
    b: BlockView,
    features: u64,
    offset: u64,
    data: Seq<u8>,
    queues: Seq<Queue>,
    path: String,
    disk_size: u64,
    bytes: BucketUpdate,
    ops: BucketUpdate,
    n: nat,
    config_space: Seq<u8>,
)
    ensures
        spec_is_activated(spec_with_acked_features(b, features)) == spec_is_activated(b),
        spec_is_activated(spec_block_write_config(b, offset, data)) == spec_is_activated(b),
        spec_is_activated(spec_with_queues(b, queues)) == spec_is_activated(b),
        spec_is_activated(spec_block_activate(b)),
        b matches BlockView::Virtio(v) ==> {
            &&& spec_virtio_with_disk_image(v, path, disk_size).activated == v.activated
            &&& spec_virtio_with_bucket_updates(v, bytes, ops).activated == v.activated
            &&& spec_virtio_after_processing(v, n).activated == v.activated
        },
        b matches BlockView::VhostUser(v) ==> (VhostUserBlockView { config_space, ..v }).activated
            == v.activated,
{
}

/// Advancing a queue by `n` chains and then by `m` more advances it by
/// `n + m`.
proof fn lemma_advance_composes(q: Queue, n: nat, m: nat)
    ensures
        spec_advance_queue(spec_advance_queue(q, n), m) == spec_advance_queue(q, n + m),
{
    lemma_wrapped_add_composes(q.next_avail, n, m);
    lemma_wrapped_add_composes(q.next_used, n, m);
}

proof fn lemma_wrapped_add_composes(x: u16, n: nat, m: nat)
    ensures
        ((((x + n) % 0x10000) as u16) + m) % 0x10000 == (x + (n + m)) % 0x10000,
{
    vstd::arithmetic::div_mod::lemma_add_mod_noop(x + n, m as int, 0x10000);
    vstd::arithmetic::div_mod::lemma_mod_twice(x + n, 0x10000);
    vstd::arithmetic::div_mod::lemma_mod_bound(x + n, 0x10000);
    assert((((x + n) % 0x10000) as u16) as int == (x + n) % 0x10000);
    vstd::arithmetic::div_mod::lemma_add_mod_noop((x + n) % 0x10000, m as int, 0x10000);
}

/// Processing `n` chains and then `m` more advances the queue as processing
/// `n + m` chains at once.
pub proof fn lemma_processing_composes(v: VirtioBlockView, n: nat, m: nat)
    requires
        v.queues.len() > 0,
    ensures
        spec_virtio_after_processing(spec_virtio_after_processing(v, n), m)
            == spec_virtio_after_processing(v, n + m),
{
    let q = v.queues[0];
    lemma_advance_composes(q, n, m);
    let once = spec_virtio_after_processing(v, n);
    assert(once.queues[0] == spec_advance_queue(q, n));
    assert(spec_virtio_after_processing(once, m).queues =~= spec_virtio_after_processing(
        v,
        n + m,
    ).queues);
}

/// Replacing the disk image keeps a virtio device consistent.
pub proof fn lemma_disk_image_keeps_consistent(v: VirtioBlockView, path: String, disk_size: u64)
    requires
        spec_virtio_block_consistent(v),
    ensures
        spec_virtio_block_consistent(spec_virtio_with_disk_image(v, path, disk_size)),
{
}

/// Changing the rate limiter keeps a virtio device consistent, and keeps its
/// buckets valid when the new ones are.
pub proof fn lemma_rate_limiter_update_keeps_consistent(
    v: VirtioBlockView,
    bytes: BucketUpdate,
    ops: BucketUpdate,
)
    requires
        spec_virtio_block_consistent(v),
        spec_valid_rate_limiter(v.rate_limiter),
        bytes matches BucketUpdate::Update(tb) ==> spec_valid_bucket(tb@),
        ops matches BucketUpdate::Update(tb) ==> spec_valid_bucket(tb@),
    ensures
        spec_virtio_block_consistent(spec_virtio_with_bucket_updates(v, bytes, ops)),
        spec_valid_rate_limiter(spec_virtio_with_bucket_updates(v, bytes, ops).rate_limiter),
{
}

/// Activation keeps a virtio device consistent.
pub proof fn lemma_activate_keeps_consistent(v: VirtioBlockView)
    requires
        spec_virtio_block_consistent(v),
    ensures
        spec_virtio_block_consistent(spec_virtio_block_activate(v)),
{
    let a = spec_virtio_block_activate(v);
    assert(spec_restored_queues(a.acked_features, a.queues) =~= a.queues);
}

/// Processing requests keeps a virtio device consistent.
pub proof fn lemma_processing_keeps_consistent(v: VirtioBlockView, n: nat)
    requires
        spec_virtio_block_consistent(v),
        v.queues.len() > 0,
    ensures
        spec_virtio_block_consistent(spec_virtio_after_processing(v, n)),
{
    let p = spec_virtio_after_processing(v, n);
    assert(p.queues[0].max_size == v.queues[0].max_size);
    assert forall|i: int| 0 <= i < p.queues.len() implies #[trigger] p.queues[i].max_size
        == crate::queue::FIRECRACKER_MAX_QUEUE_SIZE && p.queues[i].size
        <= crate::queue::FIRECRACKER_MAX_QUEUE_SIZE by {
        assert(v.queues[i].max_size == crate::queue::FIRECRACKER_MAX_QUEUE_SIZE);
    }
    if v.acked_features & (1u64 << crate::virtio::VIRTIO_RING_F_EVENT_IDX) != 0 {
        assert(v.queues[0].uses_notif_suppression) by {
            assert(spec_restored_queues(v.acked_features, v.queues)[0] == v.queues[0]);
        }
        assert forall|i: int| 0 <= i < p.queues.len() implies #[trigger] p.queues[i].uses_notif_suppression by {
            assert(spec_restored_queues(v.acked_features, v.queues)[i] == v.queues[i]);
        }
        assert(spec_restored_queues(p.acked_features, p.queues) =~= p.queues);
    }
}

/// Setting features the device offers keeps a virtio device consistent,
/// when its queues already suppress notifications if event index is among
/// them.
pub proof fn lemma_acked_features_keep_consistent(v: VirtioBlockView, features: u64)
    requires
        spec_virtio_block_consistent(v),
        features & !v.avail_features == 0,
        spec_restored_queues(features, v.queues) == v.queues,
    ensures
        spec_virtio_block_consistent(VirtioBlockView { acked_features: features, ..v }),
{
}

/// A virtio device created with a rate limiter holds, and reports back, a
/// bucket for each configured bucket whose size and refill time are
/// positive and whose refill time fits in 64-bit nanoseconds, whatever its
/// one-time burst, with the configured size, burst and refill time; it holds
/// no bucket for one that is not configured.
pub proof fn lemma_virtio_rate_limiter_kept(config: VirtioBlockConfig, disk_size: u64)
    ensures
        ({
            let v = spec_virtio_block_new(config, disk_size);
            let reported = spec_virtio_block_config(v).rate_limiter;
            &&& config.rate_limiter is None ==> reported is None && v.rate_limiter.bandwidth is None
                && v.rate_limiter.ops is None
            &&& config.rate_limiter matches Some(rl) ==> {
                &&& rl.bandwidth is None ==> v.rate_limiter.bandwidth is None
                &&& rl.ops is None ==> v.rate_limiter.ops is None
                &&& rl.bandwidth is Some && spec_limits(rl.bandwidth->0) ==> ({
                    let k = rl.bandwidth->0;
                    &&& v.rate_limiter.bandwidth matches Some(b) && b.size == k.size
                        && b.refill_time == k.refill_time
                    &&& reported matches Some(r) && r.bandwidth == Some(
                        spec_reported_bucket_config(k),
                    )
                })
                &&& rl.ops is Some && spec_limits(rl.ops->0) ==> ({
                    let k = rl.ops->0;
                    &&& v.rate_limiter.ops matches Some(b) && b.size == k.size && b.refill_time
                        == k.refill_time
                    &&& reported matches Some(r) && r.ops == Some(spec_reported_bucket_config(k))
                })
            }
        }),
{
    if let Some(rl) = config.rate_limiter {
        lemma_bucket_from_config_exists(rl.bandwidth);
        lemma_bucket_from_config_exists(rl.ops);
    }
}

/// A virtio device created over an image of `disk_size` bytes tells the
/// driver, in its configuration space, its capacity as eight little-endian
/// bytes: the number of whole sectors in the image, a trailing partial
/// sector not counted; and it serves exactly that many sectors.
pub proof fn lemma_virtio_capacity(config: VirtioBlockConfig, disk_size: u64)
    ensures
        ({
            let v = spec_virtio_block_new(config, disk_size);
            let n = v.disk.nsectors;
            &&& n * 512 <= disk_size < n * 512 + 512
            &&& v.config_space == spec_le_bytes_u64(n)
            &&& v.config_space.len() == 8
        }),
{
    let n = spec_nsectors(disk_size);
    vstd::arithmetic::div_mod::lemma_fundamental_div_mod(disk_size as int, 512);
    assert(n * 512 <= disk_size < n * 512 + 512);
}

/// Changing the rate limiter's buckets sets each bucket by its own update:
/// left unchanged, removed, or replaced by the given bucket; the other
/// bucket and the rest of the device stay as they were.
pub proof fn lemma_bucket_updates_independent(v: VirtioBlockView, bytes: BucketUpdate, ops: BucketUpdate)
    ensures
        ({
            let after = spec_virtio_with_bucket_updates(v, bytes, ops);
            &&& bytes is Unchanged ==> after.rate_limiter.bandwidth == v.rate_limiter.bandwidth
            &&& bytes is Disabled ==> after.rate_limiter.bandwidth is None
            &&& bytes matches BucketUpdate::Update(tb) ==> after.rate_limiter.bandwidth == Some(tb@)
            &&& ops is Unchanged ==> after.rate_limiter.ops == v.rate_limiter.ops
            &&& ops is Disabled ==> after.rate_limiter.ops is None
            &&& ops matches BucketUpdate::Update(tb) ==> after.rate_limiter.ops == Some(tb@)
            &&& (VirtioBlockView { rate_limiter: v.rate_limiter, ..after }) == v
        }),
{
}

/// Replacing the disk image of a virtio device changes only its image's
/// path and capacity and the capacity its configuration space holds; the
/// cache and engine of the image and the rest of the device stay as they
/// were.
pub proof fn lemma_disk_image_changes_only_disk(v: VirtioBlockView, path: String, disk_size: u64)
    ensures
        ({
            let after = spec_virtio_with_disk_image(v, path, disk_size);
            &&& after.disk.file_path == path
            &&& after.disk.nsectors * 512 <= disk_size < after.disk.nsectors * 512 + 512
            &&& after.disk.cache_type == v.disk.cache_type
            &&& after.disk.file_engine_type == v.disk.file_engine_type
            &&& after.config_space == spec_le_bytes_u64(after.disk.nsectors)
            &&& (VirtioBlockView { disk: v.disk, config_space: v.config_space, ..after }) == v
        }),
{
    vstd::arithmetic::div_mod::lemma_fundamental_div_mod(disk_size as int, 512);
}

/// Activating a virtio device marks it activated and keeps its queues,
/// each as it was but for notification suppression, which every queue then
/// uses when the driver accepted the event index; nothing else changes.
pub proof fn lemma_virtio_activate_queues(v: VirtioBlockView)
    ensures
        ({
            let after = spec_virtio_block_activate(v);
            &&& after.activated
            &&& after.queues.len() == v.queues.len()
            &&& forall|i: int|
                0 <= i < v.queues.len() ==> #[trigger] after.queues[i] == (Queue {
                    uses_notif_suppression: v.queues[i].uses_notif_suppression || v.acked_features
                        & (1u64 << 29u64) != 0,
                    ..v.queues[i]
                })
            &&& (VirtioBlockView { activated: v.activated, queues: v.queues, ..after }) == v
        }),
{
    let after = spec_virtio_block_activate(v);
    assert forall|i: int| 0 <= i < v.queues.len() implies #[trigger] after.queues[i] == (Queue {
        uses_notif_suppression: v.queues[i].uses_notif_suppression || v.acked_features & (1u64
            << 29u64) != 0,
        ..v.queues[i]
    }) by {
        if v.acked_features & (1u64 << 29u64) == 0 {
            assert(after.queues[i] == v.queues[i]);
        }
    }
}

/// Processing `n` chains on a virtio device moves its first queue's
/// available and used positions forward by `n` each, counted modulo 2^16,
/// so the distance between them stays as it was; the queue's other fields,
/// its other queues and the rest of the device are unchanged.
pub proof fn lemma_processing_advances(v: VirtioBlockView, n: nat)
    requires
        v.queues.len() > 0,
    ensures
        ({
            let after = spec_virtio_after_processing(v, n);
            let q = v.queues[0];
            let p = after.queues[0];
            &&& after.queues.len() == v.queues.len()
            &&& (p.next_avail - q.next_avail - n) % 0x10000 == 0
            &&& (p.next_used - q.next_used - n) % 0x10000 == 0
            &&& (p.next_avail - p.next_used) % 0x10000 == (q.next_avail - q.next_used) % 0x10000
            &&& (Queue { next_avail: q.next_avail, next_used: q.next_used, ..p }) == q
            &&& forall|i: int| 1 <= i < v.queues.len() ==> #[trigger] after.queues[i] == v.queues[i]
            &&& (VirtioBlockView { queues: v.queues, ..after }) == v
        }),
{
    let q = v.queues[0];
    let a: int = q.next_avail + n;
    let u: int = q.next_used + n;
    vstd::arithmetic::div_mod::lemma_fundamental_div_mod(a, 0x10000);
    vstd::arithmetic::div_mod::lemma_fundamental_div_mod(u, 0x10000);
    vstd::arithmetic::div_mod::lemma_mod_bound(a, 0x10000);
    vstd::arithmetic::div_mod::lemma_mod_bound(u, 0x10000);
    let pa: int = a % 0x10000;
    let pu: int = u % 0x10000;
    assert(pa - q.next_avail - n == -0x10000 * (a / 0x10000));
    assert(pu - q.next_used - n == -0x10000 * (u / 0x10000));
    vstd::arithmetic::div_mod::lemma_mod_multiples_basic(-(a / 0x10000), 0x10000);
    vstd::arithmetic::div_mod::lemma_mod_multiples_basic(-(u / 0x10000), 0x10000);
    assert((pa - pu) == (q.next_avail - q.next_used) + 0x10000 * (u / 0x10000 - a / 0x10000));
    vstd::arithmetic::div_mod::lemma_mod_multiples_vanish(
        u / 0x10000 - a / 0x10000,
        q.next_avail - q.next_used,
        0x10000,
    );
}

/// Which device a configuration gives over a backend: one that names a disk
/// image and no socket gives a virtio device over a disk image; one that
/// names a socket and none of the disk image's own settings gives a
/// vhost-user device over a vhost-user backend; a configuration of either
/// kind over the other kind of backend is refused as an invalid backend, and
/// any other configuration as invalid.
pub proof fn lemma_block_new_outcome(config: BlockDeviceConfig, backend: BackendInfo)
    ensures
        ({
            let r = spec_block_new(config, backend);
            let virtio = config.path_on_host is Some && config.socket is None;
            let vhost_user = config.socket is Some && config.path_on_host is None
                && config.is_read_only is None && config.rate_limiter is None
                && config.file_engine_type is None;
            &&& virtio && backend is Disk ==> (r matches Ok(BlockView::Virtio(_)))
            &&& vhost_user && backend is VhostUser ==> (r matches Ok(BlockView::VhostUser(_)))
            &&& virtio && backend is VhostUser ==> r == Err::<BlockView, BlockError>(
                BlockError::InvalidBlockBackend,
            )
            &&& vhost_user && backend is Disk ==> r == Err::<BlockView, BlockError>(
                BlockError::InvalidBlockBackend,
            )
            &&& !virtio && !vhost_user ==> r == Err::<BlockView, BlockError>(
                BlockError::InvalidBlockConfig,
            )
        }),
{
}

} // verus!
