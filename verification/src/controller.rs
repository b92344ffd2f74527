//! The window-lifecycle controller: a state machine over the platform's
//! event stream. It decides when the single window is created, when the
//! one-time graphics negotiation runs, when the loop must exit, and how the
//! stored configuration follows a resize; the platform loop performs the
//! returned action and reports negotiation completion back.

use vstd::prelude::*;
use crate::surface::SurfaceConfig;
use crate::surface::spec_resized;
use crate::surface::resized;

verus! {

/// Lifecycle phase of the shell, in the order it is traversed.
#[derive(Clone, Copy, Debug, PartialEq, Eq, Structural)]
pub enum Phase {
    /// No window exists yet.
    Uninitialized,
    /// The window exists; graphics negotiation has not started.
    WindowCreated,
    /// Negotiation is in flight; no event is serviced until it completes.
    GraphicsPending,
    /// The surface is configured; window events are serviced.
    Ready,
    /// The exit signal was issued; every further event is ignored.
    Terminating,
}

/// A platform event, reduced to what the controller decides on.
#[derive(Clone, Copy, Debug, PartialEq, Eq, Structural)]
pub enum Event {
    /// The application resumed: the window must exist after this.
    Resumed,
    /// The event loop started: the window must exist and negotiation runs.
    InitCause,
    /// The user asked to close the window.
    CloseRequested,
    /// A keyboard event, reduced to the exit-relevant parts.
    KeyInput { escape: bool, pressed: bool, repeat: bool },
    /// The platform asks for a redraw.
    RedrawRequested,
    /// The window reports a new pixel size.
    Resized { width: u32, height: u32 },
    /// Any other event kind: always ignored.
    Other,
}

/// What the platform loop must do after a step.
#[derive(Clone, Copy, Debug, PartialEq, Eq, Structural)]
pub enum Action {
    /// Create the native window with default attributes.
    CreateWindow,
    /// Create the native window, then run the negotiation to completion.
    CreateWindowAndNegotiate,
    /// Run the negotiation to completion on the existing window.
    Negotiate,
    /// Signal the event loop to exit; no further event is serviced.
    SignalExit,
    /// Ask the window for another redraw.
    RequestRedraw,
    /// Reapply the surface configuration with the new pixel size.
    Reconfigure { width: u32, height: u32 },
    /// Do nothing.
    Ignore,
}

/// The controller: the current phase and, once negotiated, the stored
/// surface configuration.
#[derive(Clone, Copy, Debug)]
pub struct Controller {
    pub phase: Phase,
    pub config: Option<SurfaceConfig>,
}

/// One step into the loop: either the platform dispatched an event, or the
/// negotiation the controller requested completed with a configuration.
#[derive(Clone, Copy, Debug)]
pub enum LoopInput {
    Dispatched(Event),
    NegotiationComplete(SurfaceConfig),
}

/// A configuration is stored exactly in the phases that follow a completed
/// negotiation: no graphics context before a window, none before the
/// handshake is done.
pub open spec fn wf(c: Controller) -> bool {
    c.config is Some <==> (c.phase is Ready || c.phase is Terminating)
}

/// The transition relation on dispatched events: next controller state and
/// the action the loop must perform.
pub open spec fn spec_next(c: Controller, e: Event) -> (Controller, Action) {
    match c.phase {
        Phase::Uninitialized => match e {
            Event::Resumed => (
                Controller { phase: Phase::WindowCreated, ..c },
                Action::CreateWindow,
            ),
            Event::InitCause => (
                Controller { phase: Phase::GraphicsPending, ..c },
                Action::CreateWindowAndNegotiate,
            ),
            _ => (c, Action::Ignore),
        },
        Phase::WindowCreated => match e {
            Event::InitCause => (
                Controller { phase: Phase::GraphicsPending, ..c },
                Action::Negotiate,
            ),
            _ => (c, Action::Ignore),
        },
        Phase::GraphicsPending => (c, Action::Ignore),
        Phase::Ready => match e {
            Event::CloseRequested => (
                Controller { phase: Phase::Terminating, ..c },
                Action::SignalExit,
            ),
            Event::KeyInput { escape: true, pressed: true, repeat: false } => (
                Controller { phase: Phase::Terminating, ..c },
                Action::SignalExit,
            ),
            Event::Resized { width, height } => match c.config {
                Some(cfg) => (
                    Controller { config: Some(spec_resized(cfg, width, height)), ..c },
                    Action::Reconfigure { width, height },
                ),
                None => (c, Action::Ignore),
            },
            Event::RedrawRequested => (c, Action::RequestRedraw),
            _ => (c, Action::Ignore),
        },
        Phase::Terminating => (c, Action::Ignore),
    }
}

/// The transition relation on loop inputs: a dispatched event steps by
/// `spec_next`; a completed negotiation stores the configuration and makes
/// the controller ready, and is ignored in any phase that did not request it.
pub open spec fn spec_advance(c: Controller, s: LoopInput) -> (Controller, Action) {
    match s {
        LoopInput::Dispatched(e) => spec_next(c, e),
        LoopInput::NegotiationComplete(cfg) => if c.phase is GraphicsPending {
            (Controller { phase: Phase::Ready, config: Some(cfg) }, Action::Ignore)
        } else {
            (c, Action::Ignore)
        },
    }
}

impl Controller {
    /// A fresh controller: no window, no configuration.
    pub fn new() -> (r: Controller)
        ensures
            r.phase is Uninitialized,
            r.config is None,
            wf(r),
    {
        Controller { phase: Phase::Uninitialized, config: None }
    }

    /// Service one dispatched event: move to the next state and tell the
    /// loop what to do, exactly as `spec_next` says.
    pub fn step(&mut self, e: Event) -> (a: Action)
        ensures
            (*final(self), a) == spec_next(*old(self), e),
    {
        match self.phase {
            Phase::Uninitialized => match e {
                Event::Resumed => {
                    self.phase = Phase::WindowCreated;
                    Action::CreateWindow
                },
                Event::InitCause => {
                    self.phase = Phase::GraphicsPending;
                    Action::CreateWindowAndNegotiate
                },
                _ => Action::Ignore,
            },
            Phase::WindowCreated => match e {
                Event::InitCause => {
                    self.phase = Phase::GraphicsPending;
                    Action::Negotiate
                },
                _ => Action::Ignore,
            },
            Phase::GraphicsPending => Action::Ignore,
            Phase::Ready => match e {
                Event::CloseRequested => {
                    self.phase = Phase::Terminating;
                    Action::SignalExit
                },
                Event::KeyInput { escape: true, pressed: true, repeat: false } => {
                    self.phase = Phase::Terminating;
                    Action::SignalExit
                },
                Event::Resized { width, height } => match &self.config {
                    Some(cfg) => {
                        let patched = resized(cfg, width, height);
                        self.config = Some(patched);
                        Action::Reconfigure { width, height }
                    },
                    None => Action::Ignore,
                },
                Event::RedrawRequested => Action::RequestRedraw,
                _ => Action::Ignore,
            },
            Phase::Terminating => Action::Ignore,
        }
    }

    /// Record that the negotiation the controller requested has completed:
    /// store the configuration and become ready. A completion no phase asked
    /// for changes nothing.
    pub fn complete_negotiation(&mut self, cfg: SurfaceConfig)
        ensures
            *final(self) == spec_advance(*old(self), LoopInput::NegotiationComplete(cfg)).0,
    {
        match self.phase {
            Phase::GraphicsPending => {
                self.phase = Phase::Ready;
                self.config = Some(cfg);
            },
            _ => {},
        }
    }
}

/// The controller state after a whole sequence of loop inputs.
pub open spec fn run(c: Controller, inputs: Seq<LoopInput>) -> Controller
    decreases inputs.len(),
{
    if inputs.len() == 0 {
        c
    } else {
        run(spec_advance(c, inputs[0]).0, inputs.skip(1))
    }
}

/// The actions a sequence of loop inputs produces, in order.
pub open spec fn actions_of(c: Controller, inputs: Seq<LoopInput>) -> Seq<Action>
    decreases inputs.len(),
{
    if inputs.len() == 0 {
        Seq::empty()
    } else {
        seq![spec_advance(c, inputs[0]).1] + actions_of(
            spec_advance(c, inputs[0]).0,
            inputs.skip(1),
        )
    }
}

/// Actions that create the native window.
pub open spec fn creates_window(a: Action) -> bool {
    a is CreateWindow || a is CreateWindowAndNegotiate
}

/// Actions that start the graphics negotiation.
pub open spec fn starts_negotiation(a: Action) -> bool {
    a is CreateWindowAndNegotiate || a is Negotiate
}

/// How many window-creating actions a run produces.
pub open spec fn count_creates(c: Controller, inputs: Seq<LoopInput>) -> nat
    decreases inputs.len(),
{
    if inputs.len() == 0 {
        0
    } else {
        (if creates_window(spec_advance(c, inputs[0]).1) {
            1 as nat
        } else {
            0 as nat
        }) + count_creates(spec_advance(c, inputs[0]).0, inputs.skip(1))
    }
}

/// How many negotiation-starting actions a run produces.
pub open spec fn count_negotiations(c: Controller, inputs: Seq<LoopInput>) -> nat
    decreases inputs.len(),
{
    if inputs.len() == 0 {
        0
    } else {
        (if starts_negotiation(spec_advance(c, inputs[0]).1) {
            1 as nat
        } else {
            0 as nat
        }) + count_negotiations(spec_advance(c, inputs[0]).0, inputs.skip(1))
    }
}

/// How many exit signals a run produces.
pub open spec fn count_exits(c: Controller, inputs: Seq<LoopInput>) -> nat
    decreases inputs.len(),
{
    if inputs.len() == 0 {
        0
    } else {
        (if spec_advance(c, inputs[0]).1 is SignalExit {
            1 as nat
        } else {
            0 as nat
        }) + count_exits(spec_advance(c, inputs[0]).0, inputs.skip(1))
    }
}

/// Position of a phase in the lifecycle order.
pub open spec fn rank(p: Phase) -> nat {
    match p {
        Phase::Uninitialized => 0,
        Phase::WindowCreated => 1,
        Phase::GraphicsPending => 2,
        Phase::Ready => 3,
        Phase::Terminating => 4,
    }
}

/// Phases only move forward: no loop input returns the controller to an
/// earlier lifecycle phase.
pub proof fn lemma_phase_monotone(c: Controller, s: LoopInput)
    ensures
        rank(spec_advance(c, s).0.phase) >= rank(c.phase),
{
}

/// Every loop input preserves the well-formedness invariant: a
/// configuration is stored exactly from the moment negotiation completes.
pub proof fn lemma_wf_preserved(c: Controller, s: LoopInput)
    requires
        wf(c),
    ensures
        wf(spec_advance(c, s).0),
{
}

/// A whole run preserves the well-formedness invariant: no graphics
/// context ever exists before the window and its negotiation do.
pub proof fn lemma_wf_preserved_run(c: Controller, inputs: Seq<LoopInput>)
    requires
        wf(c),
    ensures
        wf(run(c, inputs)),
    decreases inputs.len(),
{
    if inputs.len() > 0 {
        lemma_wf_preserved(c, inputs[0]);
        lemma_wf_preserved_run(spec_advance(c, inputs[0]).0, inputs.skip(1));
    }
}

/// Over any run, the window is created at most once, and never once the
/// controller has left its initial phase: a second resume or init event
/// cannot create a second window.
pub proof fn lemma_window_created_at_most_once(c: Controller, inputs: Seq<LoopInput>)
    ensures
        count_creates(c, inputs) <= 1,
        !(c.phase is Uninitialized) ==> count_creates(c, inputs) == 0,
    decreases inputs.len(),
{
    if inputs.len() > 0 {
        lemma_window_created_at_most_once(spec_advance(c, inputs[0]).0, inputs.skip(1));
    }
}

/// Over any run, negotiation is started at most once, and never again once
/// it has been requested: the controller's normal flow cannot trigger the
/// negotiation entry point twice on the same window.
pub proof fn lemma_negotiation_at_most_once(c: Controller, inputs: Seq<LoopInput>)
    ensures
        count_negotiations(c, inputs) <= 1,
        rank(c.phase) >= 2 ==> count_negotiations(c, inputs) == 0,
    decreases inputs.len(),
{
    if inputs.len() > 0 {
        lemma_negotiation_at_most_once(spec_advance(c, inputs[0]).0, inputs.skip(1));
    }
}

/// Over any run, the loop-exit signal is issued at most once, and never
/// once the controller is terminating.
pub proof fn lemma_exit_signalled_at_most_once(c: Controller, inputs: Seq<LoopInput>)
    ensures
        count_exits(c, inputs) <= 1,
        c.phase is Terminating ==> count_exits(c, inputs) == 0,
    decreases inputs.len(),
{
    if inputs.len() > 0 {
        lemma_exit_signalled_at_most_once(spec_advance(c, inputs[0]).0, inputs.skip(1));
    }
}

/// A run produces exactly one action per loop input.
pub proof fn lemma_actions_len(c: Controller, inputs: Seq<LoopInput>)
    ensures
        actions_of(c, inputs).len() == inputs.len(),
    decreases inputs.len(),
{
    if inputs.len() > 0 {
        lemma_actions_len(spec_advance(c, inputs[0]).0, inputs.skip(1));
    }
}

/// Once terminating, a run changes nothing and performs nothing: after the
/// exit signal no further event has any effect.
pub proof fn lemma_terminating_is_terminal(c: Controller, inputs: Seq<LoopInput>)
    requires
        c.phase is Terminating,
    ensures
        run(c, inputs) == c,
        forall|i: int| 0 <= i < inputs.len() ==> actions_of(c, inputs)[i] == Action::Ignore,
    decreases inputs.len(),
{
    if inputs.len() > 0 {
        assert(spec_advance(c, inputs[0]).0 == c);
        lemma_terminating_is_terminal(c, inputs.skip(1));
        lemma_actions_len(c, inputs.skip(1));
        assert(actions_of(c, inputs) == seq![Action::Ignore] + actions_of(c, inputs.skip(1)));
        assert forall|i: int| 0 <= i < inputs.len() implies actions_of(c, inputs)[i]
            == Action::Ignore by {
            if i > 0 {
                assert((seq![Action::Ignore] + actions_of(c, inputs.skip(1)))[i] == actions_of(
                    c,
                    inputs.skip(1),
                )[i - 1]);
            }
        }
    }
}

/// An event kind the ready controller ignores: anything but a close
/// request, a non-repeated escape press, a resize, or a redraw request.
pub open spec fn ignored_kind(e: Event) -> bool {
    match e {
        Event::CloseRequested => false,
        Event::KeyInput { escape, pressed, repeat } => !(escape && pressed && !repeat),
        Event::Resized { .. } => false,
        Event::RedrawRequested => false,
        _ => true,
    }
}

/// A ready controller is left exactly as it was by any sequence of ignored
/// event kinds, and no action other than `Ignore` is produced.
pub proof fn lemma_ignored_events_have_no_effect(c: Controller, inputs: Seq<LoopInput>)
    requires
        c.phase is Ready,
        forall|i: int| 0 <= i < inputs.len() ==> ((#[trigger] inputs[i]) matches LoopInput::Dispatched(e)
            && ignored_kind(e)),
    ensures
        run(c, inputs) == c,
        forall|i: int| 0 <= i < inputs.len() ==> actions_of(c, inputs)[i] == Action::Ignore,
    decreases inputs.len(),
{
    if inputs.len() > 0 {
        assert(inputs[0] matches LoopInput::Dispatched(e) && ignored_kind(e));
        assert(spec_advance(c, inputs[0]).0 == c);
        assert(forall|i: int| 0 <= i < inputs.skip(1).len() ==> #[trigger] inputs.skip(1)[i]
            == inputs[i + 1]);
        lemma_ignored_events_have_no_effect(c, inputs.skip(1));
        lemma_actions_len(c, inputs.skip(1));
        assert(actions_of(c, inputs) == seq![Action::Ignore] + actions_of(c, inputs.skip(1)));
        assert forall|i: int| 0 <= i < inputs.len() implies actions_of(c, inputs)[i]
            == Action::Ignore by {
            if i > 0 {
                assert((seq![Action::Ignore] + actions_of(c, inputs.skip(1)))[i] == actions_of(
                    c,
                    inputs.skip(1),
                )[i - 1]);
            }
        }
    }
}

} // verus!
