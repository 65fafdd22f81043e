//! Adaptive relay buffer sizing.
//!
//! Each direction of a relayed connection owns one `RelayBuffer`. After
//! every read of `n` bytes the capacity is adjusted: a read that filled the
//! buffer doubles the capacity (the buffer was the bottleneck), and, when
//! shrinking is enabled, a read of less than half the capacity halves it
//! (the buffer is oversized for the observed traffic). The capacity never
//! leaves the configured `[min_size, max_size]` band.

use vstd::prelude::*;

verus! {

/// A growable byte-buffer descriptor: the current capacity together with the
/// bounds the operator configured. The relay engine reads at most
/// `current_size` bytes at a time and re-sizes after every read.
pub struct RelayBuffer {
    pub current_size: usize,
    pub min_size: usize,
    pub max_size: usize,
}

/// The capacity `RelayBuffer::resize_after_read` settles on after a read of
/// `n` bytes against capacity `cap`, within `[min, max]`: double on a read
/// that filled the buffer, halve (when allowed) on a read of less than half
/// the capacity, otherwise keep the capacity as it is.
pub open spec fn resized_capacity(
    cap: int,
    min: int,
    max: int,
    n: int,
    allow_shrink: bool,
) -> int {
    if n == cap && cap < max {
        if 2 * cap > max {
            max
        } else {
            2 * cap
        }
    } else if allow_shrink && n < cap / 2 && cap > min {
        if cap / 2 < min {
            min
        } else {
            cap / 2
        }
    } else {
        cap
    }
}

impl RelayBuffer {
    /// The configured bounds are sane and the capacity lies between them.
    pub open spec fn wf(&self) -> bool {
        1 <= self.min_size <= self.current_size <= self.max_size
    }

    /// A fresh buffer starts at the smallest allowed capacity.
    pub fn new(min_size: usize, max_size: usize) -> (buf: RelayBuffer)
        requires
            1 <= min_size <= max_size,
        ensures
            buf.wf(),
            buf.current_size == min_size,
            buf.min_size == min_size,
            buf.max_size == max_size,
    {
        RelayBuffer { current_size: min_size, min_size, max_size }
    }

    /// Adjust the capacity after a read of `n` bytes, per the adaptive
    /// policy: a full read doubles the capacity (capped at `max_size`); a
    /// read under half the capacity, with shrinking enabled, halves it
    /// (floored at `min_size`); any other read leaves it unchanged. The
    /// bounds themselves never change, and the capacity never leaves
    /// `[min_size, max_size]`.
    pub fn resize_after_read(&mut self, n: usize, allow_shrink: bool)
        requires
            old(self).wf(),
            n <= old(self).current_size,
        ensures
            final(self).wf(),
            final(self).min_size == old(self).min_size,
            final(self).max_size == old(self).max_size,
            final(self).current_size == resized_capacity(
                old(self).current_size as int,
                old(self).min_size as int,
                old(self).max_size as int,
                n as int,
                allow_shrink,
            ),
    {
        if n == self.current_size && self.current_size < self.max_size {
            if self.current_size > self.max_size - self.current_size {
                self.current_size = self.max_size;
            } else {
                self.current_size = self.current_size + self.current_size;
            }
        } else if allow_shrink && n < self.current_size / 2 && self.current_size > self.min_size {
            let halved = self.current_size / 2;
            self.current_size = if halved < self.min_size {
                self.min_size
            } else {
                halved
            };
        }
    }
}

/// The adaptive policy never moves a well-formed buffer's capacity outside
/// `[min, max]`, and it moves the capacity at all only when the read filled
/// the buffer (grow) or, with shrinking enabled, stayed under half of it
/// (shrink).
pub proof fn lemma_resize_within_bounds(cap: int, min: int, max: int, n: int, allow_shrink: bool)
    requires
        1 <= min <= cap <= max,
        0 <= n <= cap,
    ensures
        min <= resized_capacity(cap, min, max, n, allow_shrink) <= max,
        !(n == cap && cap < max) && !(allow_shrink && n < cap / 2 && cap > min)
            ==> resized_capacity(cap, min, max, n, allow_shrink) == cap,
{
}

} // verus!
