//! Reads and writes of a device's configuration space by the driver.

use vstd::prelude::*;

verus! {

/// What `data` holds after the driver reads `data.len()` bytes of the
/// configuration space `space` at `offset`: the bytes of `space` from
/// `offset` on, as many as fit in `data` and as there are, followed by what
/// `data` held beyond them; a read at or past the end copies nothing.
pub open spec fn spec_read_config(space: Seq<u8>, offset: u64, data: Seq<u8>) -> Seq<u8> {
    if offset >= space.len() {
        data
    } else {
        let n: int = if data.len() <= space.len() - offset {
            data.len() as int
        } else {
            space.len() - offset
        };
        space.subrange(offset as int, offset + n) + data.subrange(n, data.len() as int)
    }
}

/// The configuration space after the driver writes `data` at `offset`: a
/// write that does not fit entirely in `space` changes nothing.
pub open spec fn spec_write_config(space: Seq<u8>, offset: u64, data: Seq<u8>) -> Seq<u8> {
    if offset + data.len() <= space.len() {
        space.subrange(0, offset as int) + data + space.subrange(
            offset + data.len(),
            space.len() as int,
        )
    } else {
        space
    }
}

/// Copies into `data` the bytes of `space` from `offset` on, as
/// `spec_read_config` describes.
pub fn read_config_space(space: &[u8], offset: u64, data: &mut [u8])
    ensures
        final(data)@ == spec_read_config(space@, offset, old(data)@),
{
    let space_len = space.len();
    if offset >= space_len as u64 {
        return;
    }
    let start = offset as usize;
    let avail = space_len - start;
    let n = if data.len() <= avail {
        data.len()
    } else {
        avail
    };
    let ghost old_data = data@;
    let mut i: usize = 0;
    while i < n
        invariant
            start == offset,
            start < space_len == space@.len(),
            n <= data@.len() == old_data.len(),
            n <= space_len - start,
            0 <= i <= n,
            forall|j: int| 0 <= j < i ==> data@[j] == space@[start + j],
            forall|j: int| i <= j < data@.len() ==> data@[j] == old_data[j],
        decreases n - i,
    {
        data[i] = space[start + i];
        i = i + 1;
    }
    assert(data@ =~= spec_read_config(space@, offset, old_data));
}

/// Writes `data` into `space` at `offset` when it fits entirely, as
/// `spec_write_config` describes.
pub fn write_config_space(space: &mut Vec<u8>, offset: u64, data: &[u8])
    ensures
        final(space)@ == spec_write_config(old(space)@, offset, data@),
{
    let space_len = space.len();
    if offset > space_len as u64 {
        return;
    }
    let start = offset as usize;
    if data.len() > space_len - start {
        return;
    }
    let ghost old_space = space@;
    let mut i: usize = 0;
    while i < data.len()
        invariant
            start == offset,
            start + data@.len() <= space_len,
            space@.len() == space_len == old_space.len(),
            0 <= i <= data@.len(),
            forall|j: int| 0 <= j < start ==> space@[j] == old_space[j],
            forall|j: int| 0 <= j < i ==> space@[start + j] == data@[j],
            forall|j: int| start + i <= j < space_len ==> space@[j] == old_space[j],
        decreases data@.len() - i,
    {
        space.set(start + i, data[i]);
        i = i + 1;
    }
    assert(space@ =~= spec_write_config(old_space, offset, data@));
}

/// Reading back what was just written, over the same range, gives the
/// written bytes.
pub proof fn lemma_read_after_write(space: Seq<u8>, offset: u64, data: Seq<u8>, buf: Seq<u8>)
    requires
        offset + data.len() <= space.len(),
        buf.len() == data.len(),
    ensures
        spec_read_config(spec_write_config(space, offset, data), offset, buf) == data,
{
    let w = spec_write_config(space, offset, data);
    assert(w.len() == space.len());
    if data.len() == 0 {
        if offset < w.len() {
            assert(spec_read_config(w, offset, buf) =~= data);
        }
    } else {
        assert(spec_read_config(w, offset, buf) =~= data);
    }
}

/// A read keeps the length of the buffer it fills.
pub proof fn lemma_read_keeps_length(space: Seq<u8>, offset: u64, data: Seq<u8>)
    ensures
        spec_read_config(space, offset, data).len() == data.len(),
{
}

/// The eight little-endian bytes of `v`.
pub open spec fn spec_le_bytes_u64(v: u64) -> Seq<u8> {
    seq![
        (v & 0xff) as u8,
        ((v >> 8u64) & 0xff) as u8,
        ((v >> 16u64) & 0xff) as u8,
        ((v >> 24u64) & 0xff) as u8,
        ((v >> 32u64) & 0xff) as u8,
        ((v >> 40u64) & 0xff) as u8,
        ((v >> 48u64) & 0xff) as u8,
        ((v >> 56u64) & 0xff) as u8,
    ]
}

/// The eight little-endian bytes of `v`.
pub fn le_bytes_u64(v: u64) -> (r: Vec<u8>)
    ensures
        r@ == spec_le_bytes_u64(v),
{
    let mut r: Vec<u8> = Vec::new();
    r.push((v & 0xff) as u8);
    r.push(((v >> 8u64) & 0xff) as u8);
    r.push(((v >> 16u64) & 0xff) as u8);
    r.push(((v >> 24u64) & 0xff) as u8);
    r.push(((v >> 32u64) & 0xff) as u8);
    r.push(((v >> 40u64) & 0xff) as u8);
    r.push(((v >> 48u64) & 0xff) as u8);
    r.push(((v >> 56u64) & 0xff) as u8);
    assert(r@ =~= spec_le_bytes_u64(v));
    r
}

/// A read keeps the buffer's length; byte `i` of the buffer becomes byte
/// `offset + i` of the space where the space has one, and is left as it was
/// where it has none.
pub proof fn lemma_read_config_bytes(space: Seq<u8>, offset: u64, data: Seq<u8>)
    ensures
        spec_read_config(space, offset, data).len() == data.len(),
        forall|i: int|
            0 <= i < data.len() ==> #[trigger] spec_read_config(space, offset, data)[i] == if offset
                + i < space.len() {
                space[offset + i]
            } else {
                data[i]
            },
{
    let r = spec_read_config(space, offset, data);
    if offset < space.len() {
        let n: int = if data.len() <= space.len() - offset {
            data.len() as int
        } else {
            space.len() - offset
        };
        assert forall|i: int| 0 <= i < data.len() implies r[i] == if offset + i < space.len() {
            space[offset + i]
        } else {
            data[i]
        } by {
            if i < n {
                assert(r[i] == space.subrange(offset as int, offset + n)[i]);
            } else {
                assert(r[i] == data.subrange(n, data.len() as int)[i - n]);
            }
        }
    }
}

/// A write that fits in the space keeps its length, puts byte `j - offset`
/// of the data at each position `j` it covers and leaves every other byte as
/// it was; a write that does not fit leaves the space as it was.
pub proof fn lemma_write_config_bytes(space: Seq<u8>, offset: u64, data: Seq<u8>)
    ensures
        offset + data.len() > space.len() ==> spec_write_config(space, offset, data) == space,
        offset + data.len() <= space.len() ==> {
            &&& spec_write_config(space, offset, data).len() == space.len()
            &&& forall|j: int|
                0 <= j < space.len() ==> #[trigger] spec_write_config(space, offset, data)[j]
                    == if offset <= j < offset + data.len() {
                    data[j - offset]
                } else {
                    space[j]
                }
        },
{
    if offset + data.len() <= space.len() {
        let w = spec_write_config(space, offset, data);
        let pre = space.subrange(0, offset as int);
        assert forall|j: int| 0 <= j < space.len() implies w[j] == if offset <= j < offset
            + data.len() {
            data[j - offset]
        } else {
            space[j]
        } by {
            if j < offset {
                assert(w[j] == pre[j]);
            } else if j < offset + data.len() {
                assert(w[j] == (pre + data)[j]);
            } else {
                assert(w[j] == space.subrange(offset + data.len(), space.len() as int)[j - offset
                    - data.len()]);
            }
        }
    }
}

/// The eight little-endian bytes of a value give it back, least significant
/// byte first: distinct values have distinct bytes.
pub proof fn lemma_le_bytes_u64_decode(v: u64, w: u64)
    ensures
        spec_le_bytes_u64(v).len() == 8,
        ({
            let b = spec_le_bytes_u64(v);
            v == (b[0] as u64) | ((b[1] as u64) << 8u64) | ((b[2] as u64) << 16u64) | ((b[3] as u64)
                << 24u64) | ((b[4] as u64) << 32u64) | ((b[5] as u64) << 40u64) | ((b[6] as u64)
                << 48u64) | ((b[7] as u64) << 56u64)
        }),
        spec_le_bytes_u64(v) == spec_le_bytes_u64(w) ==> v == w,
{
    assert(v == (((v & 0xff) as u8) as u64) | ((((v >> 8u64) & 0xff) as u8) as u64) << 8u64 | (((
    (v >> 16u64) & 0xff) as u8) as u64) << 16u64 | ((((v >> 24u64) & 0xff) as u8) as u64) << 24u64
        | ((((v >> 32u64) & 0xff) as u8) as u64) << 32u64 | ((((v >> 40u64) & 0xff) as u8) as u64)
        << 40u64 | ((((v >> 48u64) & 0xff) as u8) as u64) << 48u64 | ((((v >> 56u64) & 0xff) as u8)
        as u64) << 56u64) by (bit_vector);
    assert(w == (((w & 0xff) as u8) as u64) | ((((w >> 8u64) & 0xff) as u8) as u64) << 8u64 | (((
    (w >> 16u64) & 0xff) as u8) as u64) << 16u64 | ((((w >> 24u64) & 0xff) as u8) as u64) << 24u64
        | ((((w >> 32u64) & 0xff) as u8) as u64) << 32u64 | ((((w >> 40u64) & 0xff) as u8) as u64)
        << 40u64 | ((((w >> 48u64) & 0xff) as u8) as u64) << 48u64 | ((((w >> 56u64) & 0xff) as u8)
        as u64) << 56u64) by (bit_vector);
    let b = spec_le_bytes_u64(v);
    let c = spec_le_bytes_u64(w);
    if b == c {
        assert(b[0] == c[0] && b[1] == c[1] && b[2] == c[2] && b[3] == c[3]);
        assert(b[4] == c[4] && b[5] == c[5] && b[6] == c[6] && b[7] == c[7]);
    }
}

} // verus!
