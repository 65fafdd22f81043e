//! The per-connection pipeline as an event-driven state machine.
//!
//! Every socket operation of the relay (write a disguise line, read the
//! client's request line, peek, dial, pump, keep-alive write) happens in an
//! unverified shell. The decisions between those operations live here: the
//! shell reports each outcome as an [`Event`], and [`Pipeline::step`]
//! answers with the next [`Action`] to carry out. The machine walks the
//! connection's lifecycle — accepted, handshaking, sniffing, connecting,
//! relaying, then closed or failed — and the lemmas at the bottom prove
//! the dialing discipline: at most one backend dial ever, emitted exactly
//! when the sniff resolves, and exactly one on every connection that gets
//! as far as a backend.

use vstd::prelude::*;
use crate::config::Config;
use crate::handshake::DisguiseCode;
use crate::handshake::disguise_line;
use crate::handshake::disguise_line_bytes;
use crate::registry::BackendAddr;
use crate::registry::BackendRegistry;
use crate::sniff::Classification;
use crate::sniff::PeekResult;
use crate::sniff::classification_of;
use crate::sniff::classify;

verus! {

/// The byte the keep-alive emitter writes toward the backend.
pub const KEEPALIVE_SENTINEL: u8 = 0;

/// Where a connection stands in its lifecycle.
#[derive(Clone, Copy, Debug, PartialEq, Eq, Structural)]
pub enum Stage {
    /// Accepted; nothing sent yet.
    Accepted,
    /// The first `101` line is being written.
    SendingFirstLine,
    /// Waiting for the client's request line, which is read and discarded.
    AwaitingRequestLine,
    /// The second `101` line is being written.
    SendingSecondLine,
    /// The `200` line is being written.
    SendingOkLine,
    /// The bounded look-ahead is under way.
    Sniffing,
    /// Classified; the backend dial is under way.
    Connecting,
    /// Backend connected; both pumps are running.
    Relaying,
    /// The relay finished and the sockets are closed. Terminal.
    Closed,
    /// The pipeline aborted: a handshake write or read failed, or the
    /// backend dial failed. Terminal.
    Failed,
}

/// What the shell reports back to the machine.
#[derive(Debug)]
pub enum Event {
    /// The connection was accepted; the pipeline begins.
    Started,
    /// The last requested line was written in full.
    LineSent,
    /// A write toward the client or backend failed.
    WriteFailed,
    /// The client's request line was read (and discarded).
    RequestLineRead,
    /// The request-line read failed.
    ReadFailed,
    /// The bounded look-ahead finished, timed out, or errored.
    SniffFinished(PeekResult),
    /// The backend dial succeeded.
    DialSucceeded,
    /// The backend dial failed or timed out.
    DialFailed,
    /// Either pump ended: peer closed or an I/O error.
    RelayFinished,
    /// The keep-alive timer fired.
    KeepAliveTick,
}

/// What the shell must do next.
#[derive(Debug)]
pub enum Action {
    /// Write these bytes to the client.
    SendLine(Vec<u8>),
    /// Perform one bounded read of the client's request line and discard it.
    ReadRequestLine,
    /// Perform the bounded, non-consuming look-ahead.
    Sniff,
    /// Open a TCP connection to this backend.
    Dial(BackendAddr),
    /// Start the two relay pumps (and the keep-alive timer, if enabled).
    StartRelay,
    /// Write the keep-alive sentinel byte toward the backend.
    SendKeepAlive,
    /// Close the connection's sockets and stop.
    CloseConnection,
    /// Nothing to do for this event.
    Ignore,
}

/// How far along the lifecycle a stage is. Every transition is
/// non-decreasing in this rank, which is what pins the dial count down.
pub open spec fn stage_rank(stage: Stage) -> nat {
    match stage {
        Stage::Accepted => 0,
        Stage::SendingFirstLine => 1,
        Stage::AwaitingRequestLine => 2,
        Stage::SendingSecondLine => 3,
        Stage::SendingOkLine => 4,
        Stage::Sniffing => 5,
        Stage::Connecting => 6,
        Stage::Relaying => 7,
        Stage::Closed => 8,
        Stage::Failed => 9,
    }
}

/// The stage reached a backend dial: the sniff resolved and a dial was
/// emitted on the way here.
pub open spec fn reached_backend(stage: Stage) -> bool {
    stage is Connecting || stage is Relaying || stage is Closed
}

/// The stage the machine moves to on an event. Mismatched events leave the
/// stage alone; the two terminal stages absorb everything.
pub open spec fn stage_after(stage: Stage, ev: Event) -> Stage {
    match (stage, ev) {
        (Stage::Accepted, Event::Started) => Stage::SendingFirstLine,
        (Stage::SendingFirstLine, Event::LineSent) => Stage::AwaitingRequestLine,
        (Stage::SendingFirstLine, Event::WriteFailed) => Stage::Failed,
        (Stage::AwaitingRequestLine, Event::RequestLineRead) => Stage::SendingSecondLine,
        (Stage::AwaitingRequestLine, Event::ReadFailed) => Stage::Failed,
        (Stage::SendingSecondLine, Event::LineSent) => Stage::SendingOkLine,
        (Stage::SendingSecondLine, Event::WriteFailed) => Stage::Failed,
        (Stage::SendingOkLine, Event::LineSent) => Stage::Sniffing,
        (Stage::SendingOkLine, Event::WriteFailed) => Stage::Failed,
        (Stage::Sniffing, Event::SniffFinished(_)) => Stage::Connecting,
        (Stage::Connecting, Event::DialSucceeded) => Stage::Relaying,
        (Stage::Connecting, Event::DialFailed) => Stage::Failed,
        (Stage::Relaying, Event::RelayFinished) => Stage::Closed,
        _ => stage,
    }
}

/// This step emits the backend dial: only the resolution of the sniff does.
pub open spec fn emits_dial(stage: Stage, ev: Event) -> bool {
    stage is Sniffing && ev is SniffFinished
}

/// One connection's state: the immutable configuration and registry, the
/// lifecycle stage, and the classification once the sniff has resolved.
pub struct Pipeline {
    pub config: Config,
    pub registry: BackendRegistry,
    pub stage: Stage,
    pub classification: Option<Classification>,
}

impl Pipeline {
    /// A connection that reached its backend carries a classification, and
    /// it was set before the dial was emitted.
    pub open spec fn wf(&self) -> bool {
        reached_backend(self.stage) ==> self.classification is Some
    }

    /// A fresh pipeline for one accepted connection.
    pub fn new(config: Config, registry: BackendRegistry) -> (p: Pipeline)
        ensures
            p.wf(),
            p.stage == Stage::Accepted,
            p.classification is None,
            p.config == config,
            p.registry == registry,
    {
        Pipeline { config, registry, stage: Stage::Accepted, classification: None }
    }

    /// Advance the machine on one event and say what the shell does next.
    ///
    /// The stage moves exactly as [`stage_after`] says; the configuration
    /// and registry never change; the classification is set exactly once,
    /// at the step that resolves the sniff, and never changes afterwards. A
    /// dial action is emitted exactly at that step, toward the registry's
    /// target for the classification of the observed bytes. The handshake
    /// actions carry the disguise lines byte for byte, and a keep-alive
    /// write is requested only while relaying with the emitter enabled —
    /// never after the relay ends.
    pub fn step(&mut self, ev: Event) -> (action: Action)
        requires
            old(self).wf(),
        ensures
            final(self).wf(),
            final(self).config == old(self).config,
            final(self).registry == old(self).registry,
            final(self).stage == stage_after(old(self).stage, ev),
            // The classification is written once, by the sniff resolution.
            !emits_dial(old(self).stage, ev) ==> final(self).classification == old(
                self,
            ).classification,
            // The dial is emitted exactly when the sniff resolves, toward
            // the backend registered for the observed bytes.
            action is Dial <==> emits_dial(old(self).stage, ev),
            old(self).stage is Sniffing ==> (ev matches Event::SniffFinished(peek) ==> ({
                let class = classification_of(peek);
                &&& final(self).classification == Some(class)
                &&& (action matches Action::Dial(addr) && addr == (if class is SecureShell {
                    old(self).registry.secure_shell
                } else {
                    old(self).registry.tunnel
                }))
            })),
            // The disguise lines go out byte for byte.
            (old(self).stage is Accepted && ev is Started) ==> (action matches Action::SendLine(
                line,
            ) && line@ == disguise_line_bytes(
                DisguiseCode::SwitchingProtocols,
                old(self).config.status@,
            )),
            (old(self).stage is AwaitingRequestLine && ev is RequestLineRead) ==> (
            action matches Action::SendLine(line) && line@ == disguise_line_bytes(
                DisguiseCode::SwitchingProtocols,
                old(self).config.status@,
            )),
            (old(self).stage is SendingSecondLine && ev is LineSent) ==> (
            action matches Action::SendLine(line) && line@ == disguise_line_bytes(
                DisguiseCode::Success,
                old(self).config.status@,
            )),
            (old(self).stage is SendingFirstLine && ev is LineSent)
                ==> action is ReadRequestLine,
            (old(self).stage is SendingOkLine && ev is LineSent) ==> action is Sniff,
            (old(self).stage is Connecting && ev is DialSucceeded) ==> action is StartRelay,
            (old(self).stage is Connecting && ev is DialFailed) ==> action is CloseConnection,
            (old(self).stage is Relaying && ev is RelayFinished) ==> action is CloseConnection,
            // Every failure transition closes the connection.
            (old(self).stage !is Failed && stage_after(old(self).stage, ev) is Failed)
                ==> action is CloseConnection,
            // The keep-alive emitter never outlives the relay.
            action is SendKeepAlive <==> (old(self).stage is Relaying && ev is KeepAliveTick
                && old(self).config.keepalive_enabled),
            // Mismatched events, and events in a terminal stage, do nothing.
            (stage_after(old(self).stage, ev) == old(self).stage && !(old(self).stage is Relaying
                && ev is KeepAliveTick)) ==> action is Ignore,
            (old(self).stage is Relaying && ev is KeepAliveTick
                && !old(self).config.keepalive_enabled) ==> action is Ignore,
    {
        match (self.stage, &ev) {
            (Stage::Accepted, Event::Started) => {
                self.stage = Stage::SendingFirstLine;
                Action::SendLine(disguise_line(DisguiseCode::SwitchingProtocols, &self.config.status))
            },
            (Stage::SendingFirstLine, Event::LineSent) => {
                self.stage = Stage::AwaitingRequestLine;
                Action::ReadRequestLine
            },
            (Stage::SendingFirstLine, Event::WriteFailed) => {
                self.stage = Stage::Failed;
                Action::CloseConnection
            },
            (Stage::AwaitingRequestLine, Event::RequestLineRead) => {
                self.stage = Stage::SendingSecondLine;
                Action::SendLine(disguise_line(DisguiseCode::SwitchingProtocols, &self.config.status))
            },
            (Stage::AwaitingRequestLine, Event::ReadFailed) => {
                self.stage = Stage::Failed;
                Action::CloseConnection
            },
            (Stage::SendingSecondLine, Event::LineSent) => {
                self.stage = Stage::SendingOkLine;
                Action::SendLine(disguise_line(DisguiseCode::Success, &self.config.status))
            },
            (Stage::SendingSecondLine, Event::WriteFailed) => {
                self.stage = Stage::Failed;
                Action::CloseConnection
            },
            (Stage::SendingOkLine, Event::LineSent) => {
                self.stage = Stage::Sniffing;
                Action::Sniff
            },
            (Stage::SendingOkLine, Event::WriteFailed) => {
                self.stage = Stage::Failed;
                Action::CloseConnection
            },
            (Stage::Sniffing, Event::SniffFinished(peek)) => {
                let class = classify(peek);
                self.classification = Some(class);
                self.stage = Stage::Connecting;
                let target = self.registry.target_for(class);
                Action::Dial(target)
            },
            (Stage::Connecting, Event::DialSucceeded) => {
                self.stage = Stage::Relaying;
                Action::StartRelay
            },
            (Stage::Connecting, Event::DialFailed) => {
                self.stage = Stage::Failed;
                Action::CloseConnection
            },
            (Stage::Relaying, Event::RelayFinished) => {
                self.stage = Stage::Closed;
                Action::CloseConnection
            },
            (Stage::Relaying, Event::KeepAliveTick) => {
                if self.config.keepalive_enabled {
                    Action::SendKeepAlive
                } else {
                    Action::Ignore
                }
            },
            _ => Action::Ignore,
        }
    }
}

/// The stage a run of events ends in.
pub open spec fn run_stage(stage: Stage, evs: Seq<Event>) -> Stage
    decreases evs.len(),
{
    if evs.len() == 0 {
        stage
    } else {
        run_stage(stage_after(stage, evs[0]), evs.drop_first())
    }
}

/// How many dials a run of events emits.
pub open spec fn dial_count(stage: Stage, evs: Seq<Event>) -> nat
    decreases evs.len(),
{
    if evs.len() == 0 {
        0
    } else {
        (if emits_dial(stage, evs[0]) {
            1nat
        } else {
            0nat
        }) + dial_count(stage_after(stage, evs[0]), evs.drop_first())
    }
}

/// No transition moves the lifecycle backwards.
pub proof fn lemma_stage_monotone(stage: Stage, ev: Event)
    ensures
        stage_rank(stage_after(stage, ev)) >= stage_rank(stage),
{
}

/// A dial is emitted exactly at the step that resolves the sniff: from the
/// sniffing stage, on the look-ahead's result — data, timeout or error —
/// and nowhere else. The dial therefore comes strictly after the sniff.
pub proof fn lemma_dial_only_at_sniff_resolution(stage: Stage, ev: Event)
    ensures
        emits_dial(stage, ev) <==> (stage is Sniffing && ev is SniffFinished),
{
}

/// Past the sniff, no run of events ever emits another dial.
pub proof fn lemma_no_dial_past_sniff(stage: Stage, evs: Seq<Event>)
    requires
        stage_rank(stage) >= 6,
    ensures
        dial_count(stage, evs) == 0,
    decreases evs.len(),
{
    if evs.len() > 0 {
        lemma_stage_monotone(stage, evs[0]);
        lemma_no_dial_past_sniff(stage_after(stage, evs[0]), evs.drop_first());
    }
}

/// However a connection's events unfold, at most one backend dial is ever
/// emitted.
pub proof fn lemma_at_most_one_dial(stage: Stage, evs: Seq<Event>)
    ensures
        dial_count(stage, evs) <= 1,
    decreases evs.len(),
{
    if evs.len() > 0 {
        if emits_dial(stage, evs[0]) {
            lemma_no_dial_past_sniff(stage_after(stage, evs[0]), evs.drop_first());
        } else {
            lemma_at_most_one_dial(stage_after(stage, evs[0]), evs.drop_first());
        }
    }
}

/// The failed stage is terminal: no events move it.
pub proof fn lemma_failed_is_terminal(evs: Seq<Event>)
    ensures
        run_stage(Stage::Failed, evs) == Stage::Failed,
    decreases evs.len(),
{
    if evs.len() > 0 {
        lemma_failed_is_terminal(evs.drop_first());
    }
}

/// Every connection whose run reaches a backend — it is connecting,
/// relaying, or closed in order — emitted exactly one dial on the way.
pub proof fn lemma_exactly_one_dial(stage: Stage, evs: Seq<Event>)
    requires
        stage_rank(stage) <= 5,
        reached_backend(run_stage(stage, evs)),
    ensures
        dial_count(stage, evs) == 1,
    decreases evs.len(),
{
    if evs.len() == 0 {
        assert(!reached_backend(stage));
    } else {
        let next = stage_after(stage, evs[0]);
        if emits_dial(stage, evs[0]) {
            lemma_no_dial_past_sniff(next, evs.drop_first());
        } else {
            assert(stage_rank(next) <= 5 || next is Failed);
            if next is Failed {
                lemma_failed_is_terminal(evs.drop_first());
            } else {
                lemma_exactly_one_dial(next, evs.drop_first());
            }
        }
    }
}

} // verus!
