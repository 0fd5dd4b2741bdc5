//! Single-producer/single-consumer byte transport over a fixed circular
//! region.
//!
//! The transport is an index-based circular buffer over an owned,
//! fixed-length allocation; its logical contents are the queued bytes in
//! FIFO order, and occupancy is counted in bytes. A write that does not fit
//! is rejected whole — never partially written — and a read drains from the
//! front. One producer and one consumer use a transport at a time; callers
//! retry on `BufferFull`/`BufferEmpty` rather than blocking. Exclusive
//! access per call stands in for the produce/consume ordering: the
//! platform publishes cursor updates with release stores and trusts
//! bytes only after acquire loads, and the contracts here hold under
//! that discipline.

use vstd::prelude::*;
use vstd::arithmetic::div_mod::{lemma_add_mod_noop, lemma_add_mod_noop_right, lemma_mod_multiples_vanish, lemma_small_mod};
use crate::ipc::IpcError;

verus! {

/// One direction of an IPC channel: a lock-free SPSC byte queue with a
/// fixed capacity.
#[derive(Debug)]
pub struct RingBufferTransport {
    /// The circular byte region; its length is the capacity
    buffer: Vec<u8>,
    /// Producer cursor
    write_pos: usize,
    /// Consumer cursor
    read_pos: usize,
    /// Occupancy, in bytes
    count: usize,
}

impl RingBufferTransport {
    /// The fixed capacity, in bytes.
    pub closed spec fn capacity(&self) -> int {
        self.buffer@.len() as int
    }

    /// The queued bytes, oldest first.
    pub closed spec fn contents(&self) -> Seq<u8> {
        Seq::new(
            self.count as nat,
            |i: int| self.buffer@[(self.read_pos + i) % self.capacity()],
        )
    }

    /// Transport well-formedness: cursors inside the region, occupancy
    /// within capacity, and the producer cursor exactly `count` bytes past
    /// the consumer cursor, modulo capacity.
    pub closed spec fn wf(&self) -> bool {
        &&& 0 < self.capacity() <= usize::MAX as int / 2
        &&& (self.write_pos as int) < self.capacity()
        &&& (self.read_pos as int) < self.capacity()
        &&& self.count as int <= self.capacity()
        &&& self.write_pos as int == (self.read_pos + self.count) % self.capacity()
    }

    /// A fresh, empty transport of the given capacity.
    pub fn new(size: usize) -> (r: Self)
        requires
            0 < size <= usize::MAX / 2,
        ensures
            r.wf(),
            r.capacity() == size,
            r.contents() == Seq::<u8>::empty(),
    {
        let mut buffer: Vec<u8> = Vec::new();
        let mut i: usize = 0;
        while i < size
            invariant
                i <= size,
                buffer@.len() == i,
            decreases size - i,
        {
            buffer.push(0);
            i = i + 1;
        }
        proof {
            lemma_small_mod(0, size as nat);
        }
        let r = RingBufferTransport { buffer, write_pos: 0, read_pos: 0, count: 0 };
        proof {
            assert(r.contents() =~= Seq::<u8>::empty());
        }
        r
    }

    /// The fixed capacity, in bytes.
    pub fn capacity_bytes(&self) -> (r: usize)
        ensures
            r == self.capacity(),
    {
        self.buffer.len()
    }

    /// Current occupancy, in bytes.
    pub fn occupied(&self) -> (r: usize)
        ensures
            r == self.contents().len(),
    {
        self.count
    }

    /// Look at a queued byte without consuming it.
    pub fn peek(&self, i: usize) -> (r: u8)
        requires
            self.wf(),
            i < self.contents().len(),
        ensures
            r == self.contents()[i as int],
    {
        let cap = self.buffer.len();
        self.buffer[(self.read_pos + i) % cap]
    }

    /// Copy `data` into the region after the queued bytes.
    ///
    /// Rejected whole with `BufferFull` when fewer than `data.len()` bytes
    /// are free; then the transport is untouched. On success the queued
    /// bytes are the old ones followed by `data`, in order.
    pub fn write(&mut self, data: &[u8]) -> (r: Result<usize, IpcError>)
        requires
            old(self).wf(),
        ensures
            final(self).wf(),
            write_post(*old(self), *final(self), data@, r),
    {
        let cap = self.buffer.len();
        if data.len() > cap - self.count {
            return Err(IpcError::BufferFull);
        }
        let ghost pre = *self;
        let len = data.len();
        let mut k: usize = 0;
        while k < len
            invariant
                pre.wf(),
                k <= len,
                len == data@.len(),
                cap == pre.capacity(),
                len + pre.count <= cap,
                self.buffer@.len() == cap,
                self.write_pos == pre.write_pos,
                self.read_pos == pre.read_pos,
                self.count == pre.count,
                forall|i: int|
                    0 <= i < pre.count as int ==> self.buffer@[(pre.read_pos + i) % (cap as int)]
                        == pre.contents()[i],
                forall|k2: int|
                    0 <= k2 < k ==> self.buffer@[(pre.write_pos + k2) % (cap as int)] == data@[k2],
            decreases len - k,
        {
            let idx = (self.write_pos + k) % cap;
            self.buffer[idx] = data[k];
            proof {
                lemma_ring_positions(
                    pre.read_pos as int,
                    pre.count as int,
                    k as int,
                    cap as int,
                    pre.write_pos as int,
                );
                assert forall|i: int|
                    0 <= i < pre.count as int implies self.buffer@[(pre.read_pos + i) % (
                cap as int)] == pre.contents()[i] by {
                    lemma_ring_distinct(
                        pre.read_pos as int,
                        i,
                        pre.count + k,
                        cap as int,
                    );
                }
                assert forall|k2: int|
                    0 <= k2 < k + 1 implies self.buffer@[(pre.write_pos + k2) % (cap as int)]
                        == data@[k2] by {
                    if k2 < k {
                        lemma_ring_positions(
                            pre.read_pos as int,
                            pre.count as int,
                            k2 as int,
                            cap as int,
                            pre.write_pos as int,
                        );
                        lemma_ring_distinct(
                            pre.read_pos as int,
                            pre.count + k2,
                            pre.count + k,
                            cap as int,
                        );
                    }
                }
            }
            k = k + 1;
        }
        self.write_pos = (self.write_pos + len) % cap;
        self.count = self.count + len;
        proof {
            lemma_ring_positions(
                pre.read_pos as int,
                pre.count as int,
                len as int,
                cap as int,
                pre.write_pos as int,
            );
            assert(self.write_pos as int == (self.read_pos + self.count) % (cap as int));
            assert forall|i: int|
                0 <= i < self.count as int implies self.contents()[i] == (pre.contents()
                + data@)[i] by {
                if i < pre.count as int {
                    assert(self.buffer@[(pre.read_pos + i) % (cap as int)] == pre.contents()[i]);
                } else {
                    lemma_ring_positions(
                        pre.read_pos as int,
                        pre.count as int,
                        i - pre.count,
                        cap as int,
                        pre.write_pos as int,
                    );
                    assert(self.buffer@[(pre.write_pos + (i - pre.count)) % (cap as int)]
                        == data@[i - pre.count]);
                }
            }
            assert(self.contents() =~= pre.contents() + data@);
        }
        Ok(len)
    }

    /// Copy queued bytes out into the front of `dest`.
    ///
    /// Rejected with `BufferEmpty` when nothing is queued; then transport
    /// and destination are untouched. Otherwise up to `dest.len()` bytes
    /// leave the queue front in FIFO order, overwriting the front of
    /// `dest`; the rest of `dest` keeps its old bytes.
    pub fn read(&mut self, dest: &mut Vec<u8>) -> (r: Result<usize, IpcError>)
        requires
            old(self).wf(),
        ensures
            final(self).wf(),
            read_post(*old(self), *final(self), old(dest)@, final(dest)@, r),
    {
        if self.count == 0 {
            return Err(IpcError::BufferEmpty);
        }
        let ghost pre = *self;
        let ghost dest_pre = dest@;
        let cap = self.buffer.len();
        let n = if dest.len() < self.count {
            dest.len()
        } else {
            self.count
        };
        let mut i: usize = 0;
        while i < n
            invariant
                pre.wf(),
                i <= n,
                cap == pre.capacity(),
                n <= pre.count,
                *self == pre,
                dest@.len() == dest_pre.len(),
                n <= dest_pre.len(),
                forall|q: int| 0 <= q < i ==> dest@[q] == pre.contents()[q],
                forall|q: int| i <= q < dest_pre.len() ==> dest@[q] == dest_pre[q],
            decreases n - i,
        {
            let idx = (self.read_pos + i) % cap;
            let b = self.buffer[idx];
            dest[i] = b;
            i = i + 1;
        }
        self.read_pos = (self.read_pos + n) % cap;
        self.count = self.count - n;
        proof {
            assert(self.write_pos as int == (self.read_pos + self.count) % (cap as int)) by {
                lemma_mod_add_left(pre.read_pos + n as int, pre.count - n as int, cap as int);
            }
            assert forall|q: int|
                0 <= q < self.count as int implies self.contents()[q] == pre.contents().skip(
                n as int,
            )[q] by {
                lemma_mod_add_left(pre.read_pos + n as int, q, cap as int);
                assert((self.read_pos + q) % (cap as int) == (pre.read_pos + (n + q)) % (
                cap as int));
            }
            assert(self.contents() =~= pre.contents().skip(n as int));
            assert(dest@ =~= pre.contents().take(n as int) + dest_pre.skip(n as int));
        }
        Ok(n)
    }
}

/// Everything `write` promises, relating the transport before and after
/// the call to the data and the result.
pub open spec fn write_post(
    pre: RingBufferTransport,
    post: RingBufferTransport,
    data: Seq<u8>,
    r: Result<usize, IpcError>,
) -> bool {
    &&& post.capacity() == pre.capacity()
    &&& match r {
        Err(e) => {
            &&& e == IpcError::BufferFull
            &&& data.len() + pre.contents().len() > pre.capacity()
            &&& post == pre
        },
        Ok(n) => {
            &&& n == data.len()
            &&& data.len() + pre.contents().len() <= pre.capacity()
            &&& post.contents() == pre.contents() + data
        },
    }
}

/// Everything `read` promises, relating transport and destination before
/// and after the call to the result.
pub open spec fn read_post(
    pre: RingBufferTransport,
    post: RingBufferTransport,
    dest_pre: Seq<u8>,
    dest_post: Seq<u8>,
    r: Result<usize, IpcError>,
) -> bool {
    &&& post.capacity() == pre.capacity()
    &&& dest_post.len() == dest_pre.len()
    &&& match r {
        Err(e) => {
            &&& e == IpcError::BufferEmpty
            &&& pre.contents().len() == 0
            &&& post == pre
            &&& dest_post == dest_pre
        },
        Ok(n) => {
            &&& pre.contents().len() > 0
            &&& n == if dest_pre.len() < pre.contents().len() {
                dest_pre.len() as int
            } else {
                pre.contents().len() as int
            }
            &&& post.contents() == pre.contents().skip(n as int)
            &&& dest_post == pre.contents().take(n as int) + dest_pre.skip(n as int)
        },
    }
}

/// The producer cursor offset by `k` lands `count + k` logical bytes past
/// the consumer cursor.
proof fn lemma_ring_positions(rp: int, count: int, k: int, cap: int, wp: int)
    requires
        0 < cap,
        0 <= rp < cap,
        0 <= count,
        0 <= k,
        wp == (rp + count) % cap,
    ensures
        (wp + k) % cap == (rp + (count + k)) % cap,
{
    lemma_mod_add_left(rp + count, k, cap);
}

/// Adding inside or outside the remainder is the same:
/// `((x % m) + y) % m == (x + y) % m`.
proof fn lemma_mod_add_left(x: int, y: int, m: int)
    requires
        0 < m,
    ensures
        ((x % m) + y) % m == (x + y) % m,
{
    lemma_add_mod_noop(x, y, m);
    lemma_add_mod_noop_right(x % m, y, m);
}

/// Two distinct logical offsets inside the region land on distinct
/// physical positions.
proof fn lemma_ring_distinct(rp: int, x: int, y: int, cap: int)
    requires
        0 < cap,
        0 <= rp < cap,
        0 <= x < cap,
        0 <= y < cap,
        x != y,
    ensures
        (rp + x) % cap != (rp + y) % cap,
{
    lemma_mod_closed(rp + x, cap);
    lemma_mod_closed(rp + y, cap);
}

/// Closed form of the remainder for values below twice the modulus.
proof fn lemma_mod_closed(v: int, cap: int)
    requires
        0 < cap,
        0 <= v < 2 * cap,
    ensures
        v % cap == if v < cap {
            v
        } else {
            v - cap
        },
{
    if v < cap {
        lemma_small_mod(v as nat, cap as nat);
    } else {
        lemma_mod_multiples_vanish(1, v - cap, cap);
        lemma_small_mod((v - cap) as nat, cap as nat);
    }
}

/// Ring buffer round-trip: queued bytes come out exactly as they went in,
/// first in, first out. If a transport holding `s` accepts a write of
/// `data`, it then holds `s + data`; a read into a destination of exactly
/// that length returns all of it unchanged and leaves the transport empty.
pub proof fn lemma_round_trip(
    t0: RingBufferTransport,
    t1: RingBufferTransport,
    t2: RingBufferTransport,
    data: Seq<u8>,
    dest_pre: Seq<u8>,
    dest_post: Seq<u8>,
    r1: Result<usize, IpcError>,
    r2: Result<usize, IpcError>,
)
    requires
        write_post(t0, t1, data, r1),
        r1 is Ok,
        read_post(t1, t2, dest_pre, dest_post, r2),
        data.len() > 0 || t0.contents().len() > 0,
        dest_pre.len() == t0.contents().len() + data.len(),
    ensures
        t1.contents() == t0.contents() + data,
        r2 is Ok,
        dest_post == t0.contents() + data,
        t2.contents() == Seq::<u8>::empty(),
{
    let n = dest_pre.len() as int;
    assert(t1.contents().len() == n);
    assert(dest_post =~= t1.contents().take(n) + dest_pre.skip(n));
    assert(dest_post =~= t0.contents() + data);
    assert(t2.contents() =~= Seq::<u8>::empty());
}

} // verus!
