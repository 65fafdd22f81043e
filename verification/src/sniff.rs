//! Protocol sniffing: classify a connection from a short look-ahead.
//!
//! The sniffer peeks (never consumes) the first bytes the client sends,
//! bounded by a timeout, and applies a shallow heuristic: an empty
//! look-ahead, a timeout, or an I/O error classifies the connection as
//! `SecureShell` (fail open toward the default backend); a non-empty
//! look-ahead containing the literal bytes `"SSH"` also classifies as
//! `SecureShell`; anything else classifies as `Tunnel`.

use vstd::prelude::*;

verus! {

/// Which backend class a connection is routed to.
#[derive(Clone, Copy, Debug, PartialEq, Eq, Structural)]
pub enum Classification {
    /// Route to the SSH daemon. Also the fail-open default.
    SecureShell,
    /// Route to the VPN daemon.
    Tunnel,
}

/// How the bounded look-ahead read ended.
#[derive(Clone, Copy, Debug, PartialEq, Eq, Structural)]
pub enum PeekOutcome {
    /// The read completed; the peeked bytes (possibly none) are attached.
    Completed,
    /// The timeout elapsed before any data arrived.
    TimedOut,
    /// An I/O error occurred during the look-ahead.
    Failed,
}

/// The bytes observed during sniffing plus how the read ended. Transient:
/// consumed immediately by `classify` and discarded.
#[derive(Debug)]
pub struct PeekResult {
    pub bytes: Vec<u8>,
    pub outcome: PeekOutcome,
}

/// ASCII `'S'`.
pub const BYTE_S: u8 = 83;

/// ASCII `'H'`.
pub const BYTE_H: u8 = 72;

/// The three-byte banner marker `"SSH"` starts at index `i` of `s`.
pub open spec fn ssh_marker_at(s: Seq<u8>, i: int) -> bool {
    &&& 0 <= i
    &&& i + 3 <= s.len()
    &&& s[i] == BYTE_S
    &&& s[i + 1] == BYTE_S
    &&& s[i + 2] == BYTE_H
}

/// `s` contains the literal bytes `"SSH"` somewhere.
pub open spec fn contains_ssh(s: Seq<u8>) -> bool {
    exists|i: int| ssh_marker_at(s, i)
}

/// The classification rule on a finished look-ahead: empty data, a timeout,
/// an error, or data containing `"SSH"` all classify as `SecureShell`;
/// non-empty data without `"SSH"` classifies as `Tunnel`.
pub open spec fn classify_seq(outcome: PeekOutcome, bytes: Seq<u8>) -> Classification {
    if outcome is Completed && bytes.len() > 0 && !contains_ssh(bytes) {
        Classification::Tunnel
    } else {
        Classification::SecureShell
    }
}

/// The classification rule applied to a `PeekResult`.
pub open spec fn classification_of(peek: PeekResult) -> Classification {
    classify_seq(peek.outcome, peek.bytes@)
}

/// Scan `data` for the literal bytes `"SSH"`.
pub fn find_ssh_marker(data: &[u8]) -> (found: bool)
    ensures
        found <==> contains_ssh(data@),
{
    if data.len() < 3 {
        return false;
    }
    let mut i: usize = 0;
    while i <= data.len() - 3
        invariant
            data@.len() >= 3,
            i <= data@.len() - 2,
            forall|j: int| 0 <= j < i ==> !ssh_marker_at(data@, j),
        decreases data.len() - i,
    {
        if data[i] == BYTE_S && data[i + 1] == BYTE_S && data[i + 2] == BYTE_H {
            assert(ssh_marker_at(data@, i as int));
            return true;
        }
        i = i + 1;
    }
    assert(forall|j: int| ssh_marker_at(data@, j) ==> 0 <= j && j + 3 <= data@.len());
    false
}

/// Classify a connection from its look-ahead: the fail-open rule routes
/// empty, timed-out and errored sniffs to `SecureShell`, as well as any
/// look-ahead containing the bytes `"SSH"`; everything else is `Tunnel`.
pub fn classify(peek: &PeekResult) -> (class: Classification)
    ensures
        class == classification_of(*peek),
        class is Tunnel <==> (peek.outcome is Completed && peek.bytes@.len() > 0
            && !contains_ssh(peek.bytes@)),
{
    match peek.outcome {
        PeekOutcome::Completed => {
            if peek.bytes.len() == 0 {
                Classification::SecureShell
            } else if find_ssh_marker(peek.bytes.as_slice()) {
                Classification::SecureShell
            } else {
                Classification::Tunnel
            }
        },
        PeekOutcome::TimedOut => Classification::SecureShell,
        PeekOutcome::Failed => Classification::SecureShell,
    }
}

} // verus!
