//! The pose sampler's gate: it samples the headset only while the XR session
//! has input focus, and waits otherwise.

use vstd::prelude::*;

verus! {

/// The lifecycle states of an XR session.
#[derive(PartialEq, Eq, Structural, Clone, Copy, Debug)]
pub enum SessionPhase {
    Unknown,
    Idle,
    Ready,
    Synchronized,
    Visible,
    Focused,
    Stopping,
    LossPending,
    Exiting,
}

/// How long the sampler waits before looking again when it may not sample.
pub const UNFOCUSED_WAIT_MS: u64 = 100;

/// What the sampler does next.
#[derive(PartialEq, Eq, Structural, Clone, Copy, Debug)]
pub enum PoseStep {
    /// Read the head and hand poses and publish a frame.
    Sample,
    /// Sleep this many milliseconds, then poll the session again.
    Wait(u64),
}

/// What the sampler polls from the XR runtime.
#[derive(PartialEq, Eq, Structural, Clone, Copy, Debug)]
pub enum PoseEvent {
    /// The session changed to this state.
    SessionStateChanged(SessionPhase),
    /// Any other runtime event.
    Other,
}

/// The session state that the latest state change among `events` reported,
/// or `Idle` when there was none.
pub open spec fn latest_reported(events: Seq<PoseEvent>) -> SessionPhase
    decreases events.len(),
{
    if events.len() == 0 {
        SessionPhase::Idle
    } else {
        match events.last() {
            PoseEvent::SessionStateChanged(phase) => phase,
            PoseEvent::Other => latest_reported(events.drop_last()),
        }
    }
}

/// The sampler's view of the session, and the events it has seen.
pub struct PoseGate {
    pub phase: SessionPhase,
    pub events: Ghost<Seq<PoseEvent>>,
}

/// The sampler reads poses only with input focus, and otherwise waits.
pub open spec fn step_for(phase: SessionPhase) -> PoseStep {
    if phase == SessionPhase::Focused {
        PoseStep::Sample
    } else {
        PoseStep::Wait(UNFOCUSED_WAIT_MS)
    }
}

impl PoseGate {
    /// The sampler's phase is the one that the events seen so far leave.
    pub open spec fn wf(&self) -> bool {
        self.phase == latest_reported(self.events@)
    }

    /// A freshly begun session is idle, and no event has been seen.
    pub fn new() -> (gate: PoseGate)
        ensures
            gate.phase == SessionPhase::Idle,
            gate.events@ == Seq::<PoseEvent>::empty(),
            gate.wf(),
    {
        PoseGate { phase: SessionPhase::Idle, events: Ghost(Seq::empty()) }
    }

    /// Takes one polled event into account: a state change sets the phase,
    /// any other event leaves it.
    pub fn on_event(&mut self, event: PoseEvent)
        requires
            old(self).wf(),
        ensures
            final(self).wf(),
            final(self).events@ == old(self).events@.push(event),
            final(self).phase == (match event {
                PoseEvent::SessionStateChanged(phase) => phase,
                PoseEvent::Other => old(self).phase,
            }),
    {
        proof {
            let evs = self.events@.push(event);
            assert(evs.drop_last() =~= self.events@);
            self.events@ = evs;
        }
        match event {
            PoseEvent::SessionStateChanged(phase) => {
                self.phase = phase;
            },
            PoseEvent::Other => {},
        }
    }

    /// What to do after the pending session events are handled: sample when
    /// the latest reported state is `Focused`, wait otherwise.
    pub fn next_step(&self) -> (step: PoseStep)
        requires
            self.wf(),
        ensures
            step == step_for(self.phase),
            step == step_for(latest_reported(self.events@)),
            step == PoseStep::Sample <==> self.phase == SessionPhase::Focused,
            self.phase != SessionPhase::Focused ==> step == PoseStep::Wait(100),
    {
        match self.phase {
            SessionPhase::Focused => PoseStep::Sample,
            _ => PoseStep::Wait(UNFOCUSED_WAIT_MS),
        }
    }
}

/// The sampler samples exactly in the `Focused` state, and in every other
/// state waits 100 ms.
pub proof fn lemma_sample_only_when_focused(phase: SessionPhase)
    ensures
        step_for(phase) == PoseStep::Sample <==> phase == SessionPhase::Focused,
        phase != SessionPhase::Focused ==> step_for(phase) == PoseStep::Wait(100),
{
}

/// The phase after a state change is the reported one, and an event that is
/// not a state change leaves the phase as the earlier events left it.
pub proof fn lemma_latest_report_wins(events: Seq<PoseEvent>, event: PoseEvent)
    ensures
        latest_reported(Seq::<PoseEvent>::empty()) == SessionPhase::Idle,
        event matches PoseEvent::SessionStateChanged(p) ==> latest_reported(events.push(event)) == p,
        event == PoseEvent::Other ==> latest_reported(events.push(event)) == latest_reported(events),
{
    assert(events.push(event).drop_last() =~= events);
}

} // verus!
