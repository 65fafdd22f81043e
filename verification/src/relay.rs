//! The relay engine's byte pump, one direction at a time.
//!
//! Once a backend connection exists, each direction (client to backend,
//! backend to client) runs its own pump loop over its own `RelayBuffer`:
//! read at most the buffer's capacity, forward exactly what was read,
//! adjust the capacity, and stop on a zero-length read (orderly shutdown)
//! or an I/O error. The pump never drops, duplicates or reorders a byte:
//! what leaves one socket is exactly what entered the other.

use vstd::prelude::*;
use crate::buffer::RelayBuffer;
use crate::buffer::resized_capacity;
use crate::sniff::Classification;
use crate::sniff::PeekOutcome;
use crate::sniff::PeekResult;
use crate::sniff::classify;
use crate::sniff::classify_seq;

verus! {

/// One pump iteration after a read: decide whether the loop ends, hand the
/// read bytes through unchanged, and adjust the buffer. A zero-length read
/// is an orderly peer shutdown and stops the pump; any other read is
/// forwarded in full, and the capacity follows the adaptive policy.
pub fn pump_step(buf: &mut RelayBuffer, chunk: Vec<u8>, allow_shrink: bool) -> (r: (Vec<u8>, bool))
    requires
        old(buf).wf(),
        chunk@.len() <= old(buf).current_size,
    ensures
        final(buf).wf(),
        final(buf).min_size == old(buf).min_size,
        final(buf).max_size == old(buf).max_size,
        final(buf).current_size == resized_capacity(
            old(buf).current_size as int,
            old(buf).min_size as int,
            old(buf).max_size as int,
            chunk@.len() as int,
            allow_shrink,
        ),
        r.0@ == chunk@,
        r.1 <==> chunk@.len() == 0,
{
    let stop = chunk.len() == 0;
    let n = chunk.len();
    buf.resize_after_read(n, allow_shrink);
    (chunk, stop)
}

/// The capacity a buffer ends at after pumping `remaining` bytes: each
/// iteration reads the smaller of the capacity and what is left, then
/// applies the adaptive policy.
pub open spec fn stream_final_capacity(
    remaining: nat,
    cap: nat,
    min: nat,
    max: nat,
    allow_shrink: bool,
) -> nat
    decreases remaining,
{
    if remaining == 0 || cap == 0 {
        cap
    } else {
        let n = if remaining < cap {
            remaining
        } else {
            cap
        };
        let next = resized_capacity(cap as int, min as int, max as int, n as int, allow_shrink);
        stream_final_capacity((remaining - n) as nat, next as nat, min, max, allow_shrink)
    }
}

/// Pump a whole in-memory stream: read at most the current capacity per
/// iteration, forward it, resize, until the stream is exhausted. The
/// output is the input, byte for byte — nothing dropped, nothing
/// duplicated — and the capacity follows the adaptive policy read by read,
/// never leaving its band.
pub fn pump_stream(data: &Vec<u8>, buf: &mut RelayBuffer, allow_shrink: bool) -> (out: Vec<u8>)
    requires
        old(buf).wf(),
    ensures
        final(buf).wf(),
        final(buf).min_size == old(buf).min_size,
        final(buf).max_size == old(buf).max_size,
        final(buf).current_size == stream_final_capacity(
            data@.len(),
            old(buf).current_size as nat,
            old(buf).min_size as nat,
            old(buf).max_size as nat,
            allow_shrink,
        ),
        out@ == data@,
{
    let total = data.len();
    let mut out: Vec<u8> = Vec::new();
    let mut offset: usize = 0;
    while offset < total
        invariant
            buf.wf(),
            buf.min_size == old(buf).min_size,
            buf.max_size == old(buf).max_size,
            total == data@.len(),
            offset <= total,
            out@ == data@.subrange(0, offset as int),
            stream_final_capacity(
                (total - offset) as nat,
                buf.current_size as nat,
                buf.min_size as nat,
                buf.max_size as nat,
                allow_shrink,
            ) == stream_final_capacity(
                total as nat,
                old(buf).current_size as nat,
                old(buf).min_size as nat,
                old(buf).max_size as nat,
                allow_shrink,
            ),
        decreases total - offset,
    {
        let remaining = total - offset;
        let n = if remaining < buf.current_size {
            remaining
        } else {
            buf.current_size
        };
        let mut j: usize = 0;
        while j < n
            invariant
                total == data@.len(),
                offset + n <= total,
                j <= n,
                out@ == data@.subrange(0, offset + j),
            decreases n - j,
        {
            out.push(data[offset + j]);
            assert(out@ =~= data@.subrange(0, offset + j + 1));
            j = j + 1;
        }
        buf.resize_after_read(n, allow_shrink);
        offset = offset + n;
    }
    assert(out@ =~= data@);
    out
}

/// The sniff, then the relay, over one client byte stream: classify from a
/// non-consuming look-ahead at the first `peeked_len` bytes, then pump the
/// whole stream. The look-ahead consumes nothing: the bytes handed onward
/// are exactly the bytes the client sent, look-ahead included, and the
/// classification is the rule applied to the observed prefix.
pub fn sniff_then_relay(
    data: &Vec<u8>,
    peeked_len: usize,
    buf: &mut RelayBuffer,
    allow_shrink: bool,
) -> (r: (Classification, Vec<u8>))
    requires
        old(buf).wf(),
        peeked_len <= data@.len(),
    ensures
        final(buf).wf(),
        r.0 == classify_seq(PeekOutcome::Completed, data@.subrange(0, peeked_len as int)),
        r.1@ == data@,
{
    let mut peeked: Vec<u8> = Vec::new();
    let mut i: usize = 0;
    while i < peeked_len
        invariant
            peeked_len <= data@.len(),
            i <= peeked_len,
            peeked@ == data@.subrange(0, i as int),
        decreases peeked_len - i,
    {
        peeked.push(data[i]);
        assert(peeked@ =~= data@.subrange(0, i + 1));
        i = i + 1;
    }
    let peek = PeekResult { bytes: peeked, outcome: PeekOutcome::Completed };
    let class = classify(&peek);
    let out = pump_stream(data, buf, allow_shrink);
    (class, out)
}

} // verus!
