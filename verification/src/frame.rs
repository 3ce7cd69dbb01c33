//! The frame protocol: a frame is begun, laid out and ended, in that order.

use vstd::prelude::*;
use crate::input::{after_event, initial_input, InputAdapter, InputState, PlatformEvent, RawInput};
use crate::scale::Scale;

verus! {

/// Where the session stands in the frame cycle.
#[derive(Clone, Copy, Debug, PartialEq, Eq, Structural)]
pub enum Phase {
    /// No frame is under way.
    Idle,
    /// A frame was begun and not ended yet.
    FrameOpen,
}

/// A call of the frame protocol.
#[derive(Clone, Copy, Debug, PartialEq, Eq, Structural)]
pub enum FrameCall {
    Begin,
    End,
}

/// The phase after a call, or nothing where the call is out of order: a
/// frame begins from idle only and ends only when open.
pub open spec fn step(phase: Phase, call: FrameCall) -> Option<Phase> {
    match (phase, call) {
        (Phase::Idle, FrameCall::Begin) => Some(Phase::FrameOpen),
        (Phase::FrameOpen, FrameCall::End) => Some(Phase::Idle),
        _ => None,
    }
}

/// The phase after a sequence of calls, or nothing where one of them was out
/// of order.
pub open spec fn run(phase: Phase, calls: Seq<FrameCall>) -> Option<Phase>
    decreases calls.len(),
{
    if calls.len() == 0 {
        Some(phase)
    } else {
        match run(phase, calls.drop_last()) {
            Some(p) => step(p, calls.last()),
            None => None,
        }
    }
}

/// The call that is in order at position `i` of a sequence that starts from
/// idle.
pub open spec fn call_in_order(i: int) -> FrameCall {
    if i % 2 == 0 {
        FrameCall::Begin
    } else {
        FrameCall::End
    }
}

/// Whether begin and end take turns in `calls`, begin first.
pub open spec fn alternates(calls: Seq<FrameCall>) -> bool {
    forall|i: int| 0 <= i < calls.len() ==> #[trigger] calls[i] == call_in_order(i)
}

/// From idle, the sequences of calls that are accepted are exactly those in
/// which begin and end take turns; any other is rejected.  An accepted
/// sequence leaves a frame open exactly if its last call was a begin.
pub proof fn lemma_accepted_calls_alternate(calls: Seq<FrameCall>)
    ensures
        run(Phase::Idle, calls) is Some <==> alternates(calls),
        alternates(calls) ==> run(Phase::Idle, calls) == Some(
            if calls.len() % 2 == 0 {
                Phase::Idle
            } else {
                Phase::FrameOpen
            },
        ),
    decreases calls.len(),
{
    if calls.len() > 0 {
        let d = calls.drop_last();
        let n = d.len() as int;
        lemma_accepted_calls_alternate(d);
        assert forall|i: int| 0 <= i < n implies d[i] == calls[i] by {}
        if alternates(calls) {
            assert forall|i: int| 0 <= i < d.len() implies #[trigger] d[i] == call_in_order(i) by {
                assert(calls[i] == call_in_order(i));
            }
            assert(calls[n] == call_in_order(n));
        }
        if run(Phase::Idle, calls) is Some {
            assert(alternates(d));
            assert forall|i: int| 0 <= i < calls.len() implies #[trigger] calls[i]
                == call_in_order(i) by {
                if i < n {
                    assert(d[i] == call_in_order(i));
                }
            }
        }
    }
}

/// A sequence of calls that was rejected stays rejected, whatever calls
/// follow: the protocol does not right itself.
pub proof fn lemma_rejection_is_final(phase: Phase, calls: Seq<FrameCall>, more: Seq<FrameCall>)
    requires
        run(phase, calls) is None,
    ensures
        run(phase, calls + more) is None,
    decreases more.len(),
{
    if more.len() == 0 {
        assert(calls + more == calls);
    } else {
        lemma_rejection_is_final(phase, calls, more.drop_last());
        assert((calls + more).drop_last() == calls + more.drop_last());
    }
}

impl Phase {
    /// The phase after `call`, or nothing where the call is out of order.
    pub fn after(self, call: FrameCall) -> (r: Option<Phase>)
        ensures
            r == step(self, call),
    {
        match (self, call) {
            (Phase::Idle, FrameCall::Begin) => Some(Phase::FrameOpen),
            (Phase::FrameOpen, FrameCall::End) => Some(Phase::Idle),
            _ => None,
        }
    }
}

/// The session: the phase of the frame cycle and the input gathered for the
/// next frame.
pub struct FrameContext {
    phase: Phase,
    input: InputAdapter,
}

impl FrameContext {
    /// The phase of the frame cycle.
    pub closed spec fn phase(&self) -> Phase {
        self.phase
    }

    /// What the input adapter holds.
    pub closed spec fn input(&self) -> InputState {
        self.input@
    }

    /// An idle session for a window of `size` physical pixels at `scale`.
    pub fn new(size: [u32; 2], scale: Scale) -> (context: FrameContext)
        ensures
            context.phase() == Phase::Idle,
            context.input() == initial_input(size, scale),
    {
        FrameContext { phase: Phase::Idle, input: InputAdapter::new(size, scale) }
    }

    /// Takes in one window event.  The frame cycle stays where it is.
    pub fn handle_event(&mut self, event: &PlatformEvent)
        ensures
            final(self).phase() == old(self).phase(),
            final(self).input() == after_event(old(self).input(), *event),
    {
        self.input.handle_event(event);
    }

    /// Begins a frame: hands out the input gathered so far, for the toolkit
    /// to start its frame with.  No frame may be open.
    pub fn begin_frame(&mut self) -> (raw: RawInput)
        requires
            step(old(self).phase(), FrameCall::Begin) is Some,
        ensures
            Some(final(self).phase()) == step(old(self).phase(), FrameCall::Begin),
            raw.is_snapshot_of(old(self).input()),
            final(self).input() == (InputState { events: Seq::empty(), ..old(self).input() }),
    {
        self.phase = Phase::FrameOpen;
        self.input.take_input()
    }

    /// Ends the open frame.
    pub fn end_frame(&mut self)
        requires
            step(old(self).phase(), FrameCall::End) is Some,
        ensures
            Some(final(self).phase()) == step(old(self).phase(), FrameCall::End),
            final(self).input() == old(self).input(),
    {
        self.phase = Phase::Idle;
    }

    /// The phase of the frame cycle.
    pub fn current_phase(&self) -> (r: Phase)
        ensures
            r == self.phase(),
    {
        self.phase
    }

    /// Whether `call` is in order now.
    pub fn accepts(&self, call: FrameCall) -> (r: bool)
        ensures
            r == step(self.phase(), call) is Some,
    {
        self.phase.after(call).is_some()
    }

    /// The input adapter.
    pub fn adapter(&self) -> (r: &InputAdapter)
        ensures
            r@ == self.input(),
    {
        &self.input
    }
}

} // verus!
