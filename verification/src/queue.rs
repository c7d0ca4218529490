//! The state of a virtqueue that the device keeps.

use vstd::prelude::*;

verus! {

/// The largest queue size the device offers.
pub const FIRECRACKER_MAX_QUEUE_SIZE: u16 = 256;

/// A virtqueue: its size, whether the driver has made it ready, the guest
/// addresses of its three rings, the ring positions and whether
/// notification suppression is in use.
#[derive(Clone, Copy, Debug, PartialEq, Eq)]
pub struct Queue {
    /// The maximal size in elements offered by the device.
    pub max_size: u16,
    /// The queue size in elements the driver selected.
    pub size: u16,
    /// Whether the queue was made ready by the driver.
    pub ready: bool,
    /// Guest physical address of the descriptor table.
    pub desc_table_address: u64,
    /// Guest physical address of the available ring.
    pub avail_ring_address: u64,
    /// Guest physical address of the used ring.
    pub used_ring_address: u64,
    /// Next entry of the available ring to consume.
    pub next_avail: u16,
    /// Next entry of the used ring to fill.
    pub next_used: u16,
    /// Whether the `VIRTIO_RING_F_EVENT_IDX` feature suppresses notifications.
    pub uses_notif_suppression: bool,
}

/// A fresh queue of maximal size `max_size`.
pub open spec fn spec_new_queue(max_size: u16) -> Queue {
    Queue {
        max_size,
        size: max_size,
        ready: false,
        desc_table_address: 0,
        avail_ring_address: 0,
        used_ring_address: 0,
        next_avail: 0,
        next_used: 0,
        uses_notif_suppression: false,
    }
}

/// The queue is laid out as the driver must lay it out before the device is
/// activated: ready, of a nonzero power-of-two size no larger than the
/// maximum, with the descriptor table aligned to 16 bytes, the available
/// ring to 2 and the used ring to 4.
pub open spec fn spec_queue_layout_valid(q: Queue) -> bool {
    &&& q.ready
    &&& q.size <= q.max_size
    &&& q.size != 0
    &&& q.size & ((q.size - 1) as u16) == 0
    &&& q.desc_table_address & 0xf == 0
    &&& q.avail_ring_address & 0x1 == 0
    &&& q.used_ring_address & 0x3 == 0
}

/// The number of elements the queue uses: its size, but no more than its
/// maximum.
pub open spec fn spec_actual_size(q: Queue) -> u64 {
    if q.size <= q.max_size {
        q.size as u64
    } else {
        q.max_size as u64
    }
}

/// The guest memory the queue's rings occupy, as (address, length) pairs:
/// the descriptor table, the available ring and the used ring.
pub open spec fn spec_ring_regions(q: Queue) -> Seq<(u64, u64)> {
    let n = spec_actual_size(q);
    seq![
        (q.desc_table_address, (16 * n) as u64),
        (q.avail_ring_address, (6 + 2 * n) as u64),
        (q.used_ring_address, (6 + 8 * n) as u64),
    ]
}

impl Queue {
    /// Whether the queue is laid out as `spec_queue_layout_valid` says.
    pub fn layout_valid(&self) -> (r: bool)
        ensures
            r == spec_queue_layout_valid(*self),
    {
        if !self.ready || self.size > self.max_size || self.size == 0 {
            return false;
        }
        if self.size & (self.size - 1) != 0 {
            return false;
        }
        self.desc_table_address & 0xf == 0 && self.avail_ring_address & 0x1 == 0
            && self.used_ring_address & 0x3 == 0
    }

    /// The guest memory the queue's rings occupy.
    pub fn ring_regions(&self) -> (r: Vec<(u64, u64)>)
        ensures
            r@ == spec_ring_regions(*self),
    {
        let n: u64 = if self.size <= self.max_size {
            self.size as u64
        } else {
            self.max_size as u64
        };
        let mut r: Vec<(u64, u64)> = Vec::new();
        r.push((self.desc_table_address, 16 * n));
        r.push((self.avail_ring_address, 6 + 2 * n));
        r.push((self.used_ring_address, 6 + 8 * n));
        assert(r@ =~= spec_ring_regions(*self));
        r
    }

    /// Creates a queue that offers `max_size` elements, not ready, with its
    /// rings at guest address zero.
    pub fn new(max_size: u16) -> (r: Queue)
        ensures
            r == spec_new_queue(max_size),
    {
        Queue {
            max_size,
            size: max_size,
            ready: false,
            desc_table_address: 0,
            avail_ring_address: 0,
            used_ring_address: 0,
            next_avail: 0,
            next_used: 0,
            uses_notif_suppression: false,
        }
    }

    /// Turns notification suppression on.
    pub fn enable_notif_suppression(&mut self)
        ensures
            *final(self) == (Queue { uses_notif_suppression: true, ..*old(self) }),
    {
        self.uses_notif_suppression = true;
    }
}

/// `x` is a power of two.
pub open spec fn is_power_of_two_u16(x: u16) -> bool {
    x == 1 || x == 2 || x == 4 || x == 8 || x == 16 || x == 32 || x == 64 || x == 128 || x == 256
        || x == 512 || x == 1024 || x == 2048 || x == 4096 || x == 8192 || x == 16384 || x == 32768
}

/// A queue is laid out validly exactly when it is ready, its size is a
/// power of two no larger than its maximum, its descriptor table lies at a
/// multiple of 16, its available ring at a multiple of 2 and its used ring
/// at a multiple of 4.
pub proof fn lemma_queue_layout_valid_arithmetic(q: Queue)
    ensures
        spec_queue_layout_valid(q) == ({
            &&& q.ready
            &&& q.size <= q.max_size
            &&& is_power_of_two_u16(q.size)
            &&& q.desc_table_address % 16 == 0
            &&& q.avail_ring_address % 2 == 0
            &&& q.used_ring_address % 4 == 0
        }),
{
    let x = q.size;
    let d = q.desc_table_address;
    let a = q.avail_ring_address;
    let u = q.used_ring_address;
    assert((x != 0 && x & ((x - 1) as u16) == 0) == (x == 1 || x == 2 || x == 4 || x == 8 || x
        == 16 || x == 32 || x == 64 || x == 128 || x == 256 || x == 512 || x == 1024 || x == 2048
        || x == 4096 || x == 8192 || x == 16384 || x == 32768)) by (bit_vector);
    assert((d & 0xf == 0) == (d % 16 == 0) && (a & 0x1 == 0) == (a % 2 == 0) && (u & 0x3 == 0) == (u
        % 4 == 0)) by (bit_vector);
}

} // verus!
