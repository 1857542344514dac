//! An optional call-stack capture whose symbols are resolved lazily, once.
//!
//! A capture records return addresses only, which is cheap. Looking the
//! addresses up as function names, files and lines is expensive, so it waits
//! until the trace is first asked for. The resolved trace is built inside a
//! once-cell: however many threads ask at the same time, resolution runs once
//! and every caller gets the same trace.

use crate::gate::{reported, switch_view, Gate};
use backtrace::Backtrace;
use std::sync::OnceLock;
use vstd::prelude::*;
use vstd::string::StringExecFns;

verus! {

#[verifier::external_type_specification]
#[verifier::external_body]
pub struct ExBacktrace(Backtrace);

/// For each frame of a trace, from the innermost call outwards: its
/// instruction address, and whether its symbols have been looked up.
pub uninterp spec fn frames_of(trace: Backtrace) -> Seq<(usize, bool)>;

/// The instruction addresses of a list of frames.
pub open spec fn addresses(frames: Seq<(usize, bool)>) -> Seq<usize> {
    frames.map_values(|frame: (usize, bool)| frame.0)
}

/// Whether every frame of the list has had its symbols looked up.
pub open spec fn all_looked_up(frames: Seq<(usize, bool)>) -> bool {
    forall|i: int| 0 <= i < frames.len() ==> #[trigger] frames[i].1
}

/// Whether no frame of the list has had its symbols looked up yet.
pub open spec fn none_looked_up(frames: Seq<(usize, bool)>) -> bool {
    forall|i: int| 0 <= i < frames.len() ==> !#[trigger] frames[i].1
}

/// Relies on `backtrace::Backtrace::new_unresolved`: records the frames of
/// the current call stack by address, and looks up no symbol.
pub assume_specification[ Backtrace::new_unresolved ]() -> (r: Backtrace)
    ensures
        none_looked_up(frames_of(r)),
;

/// Relies on `backtrace::Backtrace::resolve`: looks up the symbols of every
/// frame that has none yet, in place, and keeps the frames themselves.
pub assume_specification[ Backtrace::resolve ](trace: &mut Backtrace)
    ensures
        addresses(frames_of(*final(trace))) == addresses(frames_of(*old(trace))),
        all_looked_up(frames_of(*final(trace))),
;

/// Relies on the `Clone` impl of `backtrace::Backtrace`: copies the frames,
/// with their symbols if they have any.
pub assume_specification[ <Backtrace as Clone>::clone ](trace: &Backtrace) -> (r: Backtrace)
    ensures
        frames_of(r) == frames_of(*trace),
;

/// Relies on the `Debug` impl of `backtrace::Backtrace`: the text lists the
/// frames, with their symbols where they are resolved.
#[verifier::external_body]
fn trace_text(trace: &Backtrace) -> String {
    format!("{:?}", trace)
}

/// A resolved copy of an unresolved capture: the same frames, each with its
/// symbols looked up.
fn resolve_copy(raw: &Backtrace) -> (r: Backtrace)
    ensures
        addresses(frames_of(r)) == addresses(frames_of(*raw)),
        all_looked_up(frames_of(r)),
{
    let mut trace = raw.clone();
    trace.resolve();
    trace
}

/// An unresolved capture, and a once-cell that receives its resolved copy
/// on the first request. The cell is filled in `resolved_trace` alone,
/// always with `resolve_copy` of the capture, which is never replaced.
#[verifier::external_body]
pub struct ResolvedOnce {
    raw: Backtrace,
    resolved: OnceLock<Backtrace>,
}

/// The frames of the unresolved capture that a `ResolvedOnce` holds.
pub uninterp spec fn held_frames(once: ResolvedOnce) -> Seq<(usize, bool)>;

/// Relies on `std::sync::OnceLock::new`: the cell starts empty, and the
/// capture is kept as it is.
#[verifier::external_body]
fn hold(raw: Backtrace) -> (r: ResolvedOnce)
    ensures
        held_frames(r) == frames_of(raw),
{
    ResolvedOnce { raw, resolved: OnceLock::new() }
}

/// Relies on `std::sync::OnceLock::get_or_init`: returns the cell's value,
/// first filling it with `resolve_copy` of the capture if it is empty. Of
/// concurrent callers on an empty cell only one runs the resolution; the
/// others wait for its result, and every caller gets that one trace.
#[verifier::external_body]
fn resolved_trace(once: &ResolvedOnce) -> (r: &Backtrace)
    ensures
        addresses(frames_of(*r)) == addresses(held_frames(*once)),
        all_looked_up(frames_of(*r)),
{
    once.resolved.get_or_init(|| resolve_copy(&once.raw))
}

/// The debug rendering of a holder whose resolved trace renders as `trace`.
pub open spec fn present_rendering(trace: Seq<char>) -> Seq<char> {
    "InternalBacktrace { backtrace: Some("@ + trace + ") }"@
}

/// The debug rendering of a holder whose resolved trace renders as `trace`.
pub fn present_text(trace: &str) -> (r: String)
    ensures
        r@ == present_rendering(trace@),
{
    String::from_str("InternalBacktrace { backtrace: Some(").concat(trace).concat(") }")
}

/// Holds the call stack captured where it was built, or nothing.
pub struct InternalBacktrace {
    backtrace: Option<ResolvedOnce>,
}

impl InternalBacktrace {
    /// Whether this holder owns a capture. This is fixed when the holder is
    /// built and never changes afterwards.
    pub closed spec fn is_present(&self) -> bool {
        self.backtrace is Some
    }

    /// The frames of the capture this holder owns, as captured; empty if it
    /// owns none.
    pub closed spec fn captured_frames(&self) -> Seq<(usize, bool)> {
        match self.backtrace {
            Some(once) => held_frames(once),
            None => Seq::empty(),
        }
    }

    /// Captures the current call stack if `enabled`, and holds nothing
    /// otherwise. The capture records addresses only: no symbol is looked up
    /// here.
    pub fn capture(enabled: bool) -> (r: InternalBacktrace)
        ensures
            r.is_present() == enabled,
            none_looked_up(r.captured_frames()),
    {
        if enabled {
            InternalBacktrace { backtrace: Some(hold(Backtrace::new_unresolved())) }
        } else {
            InternalBacktrace { backtrace: None }
        }
    }

    /// Captures the current call stack if `gate` says that captures are
    /// enabled, and holds nothing otherwise. `read_switch` reads the switch;
    /// `gate` calls it only if it holds no decision yet.
    pub fn new<F: FnOnce() -> Option<Vec<u8>>>(gate: &Gate, read_switch: F) -> (r:
        InternalBacktrace)
        requires
            read_switch.requires(()),
        ensures
            exists|seen: usize, value: Option<Vec<u8>>, outcome: Result<usize, usize>|
                {
                    &&& (crate::gate::decision_of(seen) is None ==> read_switch.ensures(
                        (),
                        value,
                    ))
                    &&& r.is_present() == reported(seen, switch_view(value), outcome)
                },
            none_looked_up(r.captured_frames()),
    {
        let enabled = gate.is_enabled(read_switch);
        InternalBacktrace::capture(enabled)
    }

    /// A holder with no capture, whatever any switch says.
    pub fn none() -> (r: InternalBacktrace)
        ensures
            !r.is_present(),
            r.captured_frames().len() == 0,
    {
        InternalBacktrace { backtrace: None }
    }

    /// The resolved trace, or `None` if this holder has no capture.
    ///
    /// The trace has the captured frames, every one with its symbols looked
    /// up. The first request resolves them; later requests, from any thread,
    /// return the same trace without resolving again.
    pub fn as_backtrace(&self) -> (r: Option<&Backtrace>)
        ensures
            r is Some == self.is_present(),
            r matches Some(trace) ==> addresses(frames_of(*trace)) == addresses(
                self.captured_frames(),
            ),
            r matches Some(trace) ==> all_looked_up(frames_of(*trace)),
    {
        match &self.backtrace {
            Some(once) => Some(resolved_trace(once)),
            None => None,
        }
    }

    /// The debug rendering of this holder. A holder without a capture says
    /// so; one with a capture shows its trace, resolving it first.
    pub fn debug_text(&self) -> (r: String)
        ensures
            !self.is_present() ==> r@ == "InternalBacktrace { backtrace: None }"@,
            self.is_present() ==> exists|trace: Seq<char>| r@ == present_rendering(trace),
    {
        match self.as_backtrace() {
            Some(trace) => {
                let text = trace_text(trace);
                present_text(text.as_str())
            },
            None => String::from_str("InternalBacktrace { backtrace: None }"),
        }
    }
}

} // verus!
