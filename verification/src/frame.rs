//! The frame loop driver: which stage of a frame comes next.
//!
//! The driver performs no stage itself. The caller carries out the action it
//! is handed (clearing, polling the input, creating a ball, drawing, stepping
//! the world, refreshing the render list, presenting) and reports back with
//! an event; the driver answers with the next action.
//!
//! Drawing comes after polling and spawning and before stepping: a ball is
//! first drawn in the frame of its press, at its spawn position, and every
//! other ball is drawn where the previous frame's step left it.

use crate::spawner::{
    held, lemma_hold_spawns_once, rising_edge, spawn_count, SpawnRequest, Spawner,
};
use vstd::prelude::*;

verus! {

/// The stages of one frame, in the order they run.
#[derive(Clone, Copy, Debug, PartialEq, Eq, Structural)]
pub enum Stage {
    /// Clear and prepare the frame.
    Clear,
    /// Sample the spawn input and the pointer.
    Poll,
    /// Create the ball that the press asked for.
    Spawn,
    /// Draw the render entities: a ball spawned in this frame at its spawn
    /// position, every other at the position cached by the last refresh.
    Draw,
    /// Advance the world by one timestep.
    Step,
    /// Refresh the render entities from the stepped world.
    Sync,
    /// Present the frame and wait for the next one.
    Present,
}

/// What the caller reports after carrying out an action.
#[derive(Debug, PartialEq, Eq)]
pub enum Event<P> {
    /// The action is done and has nothing to report.
    Completed,
    /// The input was sampled: whether the spawn button is down, and where
    /// the pointer is.
    Input { pressed: bool, pointer: P },
}

/// What the caller is asked to do next.
#[derive(Debug, PartialEq, Eq)]
pub enum Action<P> {
    /// Clear and prepare the frame.
    Clear,
    /// Sample the input and report it with `Event::Input`.
    Poll,
    /// Create the ball of this request and add it to the render list.
    Spawn(SpawnRequest<P>),
    /// Draw the render entities as the render list holds them now.
    Draw,
    /// Advance the world by one timestep.
    Step,
    /// Refresh the render list from the world.
    Sync,
    /// Present the frame and wait for the next one.
    Present,
}

/// The driver's state as a plain value: the stage whose action is
/// outstanding, and the spawner's memory of the last input sample.
pub struct LoopState {
    pub stage: Stage,
    pub was_pressed: bool,
}

/// The driver of the per-frame loop.
pub struct FrameLoop {
    stage: Stage,
    spawner: Spawner,
}

impl View for FrameLoop {
    type V = LoopState;

    closed spec fn view(&self) -> LoopState {
        LoopState { stage: self.stage, was_pressed: self.spawner.was_pressed() }
    }
}

impl Stage {
    /// Position of the stage within a frame, from 0 for `Clear` to 6 for
    /// `Present`.
    pub open spec fn rank(self) -> nat {
        match self {
            Stage::Clear => 0,
            Stage::Poll => 1,
            Stage::Spawn => 2,
            Stage::Draw => 3,
            Stage::Step => 4,
            Stage::Sync => 5,
            Stage::Present => 6,
        }
    }
}

impl<P> Action<P> {
    /// The stage that this action carries out.
    pub open spec fn stage(self) -> Stage {
        match self {
            Action::Clear => Stage::Clear,
            Action::Poll => Stage::Poll,
            Action::Spawn(_) => Stage::Spawn,
            Action::Draw => Stage::Draw,
            Action::Step => Stage::Step,
            Action::Sync => Stage::Sync,
            Action::Present => Stage::Present,
        }
    }
}

/// One transition of the driver: the state after `event` answers the
/// outstanding stage, and the action asked for next.
///
/// Every stage but `Poll` moves on to its successor whatever the event
/// carries. `Poll` consults the spawner: an input sample that is a rising
/// edge leads to `Spawn` with the sampled pointer, any other sample to
/// `Draw`. A `Poll` answered without a sample spawns nothing and leaves the
/// spawner's memory as it was.
pub open spec fn transition<P>(state: LoopState, event: Event<P>) -> (LoopState, Action<P>) {
    match state.stage {
        Stage::Clear => (LoopState { stage: Stage::Poll, ..state }, Action::Poll),
        Stage::Poll => match event {
            Event::Input { pressed, pointer } => if rising_edge(state.was_pressed, pressed) {
                (
                    LoopState { stage: Stage::Spawn, was_pressed: pressed },
                    Action::Spawn(SpawnRequest { position: pointer }),
                )
            } else {
                (LoopState { stage: Stage::Draw, was_pressed: pressed }, Action::Draw)
            },
            Event::Completed => (LoopState { stage: Stage::Draw, ..state }, Action::Draw),
        },
        Stage::Spawn => (LoopState { stage: Stage::Draw, ..state }, Action::Draw),
        Stage::Draw => (LoopState { stage: Stage::Step, ..state }, Action::Step),
        Stage::Step => (LoopState { stage: Stage::Sync, ..state }, Action::Sync),
        Stage::Sync => (LoopState { stage: Stage::Present, ..state }, Action::Present),
        Stage::Present => (LoopState { stage: Stage::Clear, ..state }, Action::Clear),
    }
}

impl FrameLoop {
    /// A driver at the start of its first frame: `Clear` is outstanding and
    /// no press has been seen.
    pub fn new() -> (driver: Self)
        ensures
            driver@ == (LoopState { stage: Stage::Clear, was_pressed: false }),
    {
        FrameLoop { stage: Stage::Clear, spawner: Spawner::new() }
    }

    /// The stage whose action is outstanding.
    pub fn stage(&self) -> (stage: Stage)
        ensures
            stage == self@.stage,
    {
        self.stage
    }

    /// Takes the report on the outstanding action and answers with the next
    /// one.
    pub fn next<P>(&mut self, event: Event<P>) -> (action: Action<P>)
        ensures
            (final(self)@, action) == transition(old(self)@, event),
    {
        match self.stage {
            Stage::Clear => {
                self.stage = Stage::Poll;
                Action::Poll
            },
            Stage::Poll => {
                let request = match event {
                    Event::Input { pressed, pointer } => self.spawner.on_frame(pressed, pointer),
                    Event::Completed => None,
                };
                match request {
                    Some(request) => {
                        self.stage = Stage::Spawn;
                        Action::Spawn(request)
                    },
                    None => {
                        self.stage = Stage::Draw;
                        Action::Draw
                    },
                }
            },
            Stage::Spawn => {
                self.stage = Stage::Draw;
                Action::Draw
            },
            Stage::Draw => {
                self.stage = Stage::Step;
                Action::Step
            },
            Stage::Step => {
                self.stage = Stage::Sync;
                Action::Sync
            },
            Stage::Sync => {
                self.stage = Stage::Present;
                Action::Present
            },
            Stage::Present => {
                self.stage = Stage::Clear;
                Action::Clear
            },
        }
    }
}

/// The driver's course over a sequence of events: the state reached, and the
/// actions it answered with, in order.
pub open spec fn run<P>(state: LoopState, events: Seq<Event<P>>) -> (LoopState, Seq<Action<P>>)
    decreases events.len(),
{
    if events.len() == 0 {
        (state, Seq::empty())
    } else {
        let (next, action) = transition(state, events[0]);
        let (last, rest) = run(next, events.skip(1));
        (last, seq![action] + rest)
    }
}

/// The reports of a caller that carries out one whole frame, from the
/// report on `Clear` to the report on `Present`, and samples `pressed` and
/// `pointer` at the poll. `was_pressed` is the sample of the frame before.
pub open spec fn frame_events<P>(was_pressed: bool, pressed: bool, pointer: P) -> Seq<Event<P>> {
    if rising_edge(was_pressed, pressed) {
        seq![
            Event::Completed,
            Event::Input { pressed, pointer },
            Event::Completed,
            Event::Completed,
            Event::Completed,
            Event::Completed,
            Event::Completed,
        ]
    } else {
        seq![
            Event::Completed,
            Event::Input { pressed, pointer },
            Event::Completed,
            Event::Completed,
            Event::Completed,
            Event::Completed,
        ]
    }
}

/// The reports of a caller that carries out one whole frame per sample of
/// `inputs`, with the pointer resting at `pointer`.
pub open spec fn session_events<P>(was_pressed: bool, inputs: Seq<bool>, pointer: P) -> Seq<
    Event<P>,
>
    decreases inputs.len(),
{
    if inputs.len() == 0 {
        Seq::empty()
    } else {
        frame_events(was_pressed, inputs[0], pointer) + session_events(
            inputs[0],
            inputs.skip(1),
            pointer,
        )
    }
}

/// Number of `Spawn` actions among `actions`.
pub open spec fn spawn_actions<P>(actions: Seq<Action<P>>) -> nat
    decreases actions.len(),
{
    if actions.len() == 0 {
        0
    } else {
        let here: nat = if actions[0] is Spawn { 1 } else { 0 };
        here + spawn_actions(actions.skip(1))
    }
}

/// Within a frame the stages only move forward: each transition leads to the
/// stage of next higher rank, except that a poll without a rising edge skips
/// `Spawn`, and that `Present` wraps around to `Clear`. The action handed
/// out is always the one of the stage reached. In particular `Spawn` comes
/// before `Draw` and `Draw` before `Step` in every frame: a new ball is drawn
/// at its spawn position, and every other ball where the previous frame's
/// refresh cached it.
pub proof fn lemma_stages_advance<P>(state: LoopState, event: Event<P>)
    ensures
        ({
            let (next, action) = transition(state, event);
            &&& action.stage() == next.stage
            &&& state.stage != Stage::Present ==> next.stage.rank() > state.stage.rank()
            &&& state.stage == Stage::Present ==> next.stage == Stage::Clear
            &&& next.stage.rank() == state.stage.rank() + 1 || state.stage == Stage::Present || (
            state.stage == Stage::Poll && next.stage == Stage::Draw)
            &&& next.stage == Stage::Spawn <==> state.stage == Stage::Poll && event is Input
                && rising_edge(state.was_pressed, event->pressed)
        }),
{
}

/// Running two event sequences back to back is running their concatenation.
pub proof fn lemma_run_concat<P>(state: LoopState, first: Seq<Event<P>>, second: Seq<Event<P>>)
    ensures
        ({
            let (middle, head) = run(state, first);
            let (last, tail) = run(middle, second);
            run(state, first + second) == (last, head + tail)
        }),
    decreases first.len(),
{
    if first.len() == 0 {
        assert(first + second =~= second);
        let (last, tail) = run(state, second);
        assert(Seq::<Action<P>>::empty() + tail =~= tail);
    } else {
        let (next, action) = transition(state, first[0]);
        assert((first + second)[0] == first[0]);
        assert((first + second).skip(1) =~= first.skip(1) + second);
        lemma_run_concat(next, first.skip(1), second);
        let (middle, head_rest) = run(next, first.skip(1));
        let (last, tail) = run(middle, second);
        assert(seq![action] + (head_rest + tail) =~= (seq![action] + head_rest) + tail);
    }
}

/// Counting `Spawn` actions distributes over concatenation.
pub proof fn lemma_spawn_actions_concat<P>(first: Seq<Action<P>>, second: Seq<Action<P>>)
    ensures
        spawn_actions(first + second) == spawn_actions(first) + spawn_actions(second),
    decreases first.len(),
{
    if first.len() == 0 {
        assert(first + second =~= second);
    } else {
        assert((first + second)[0] == first[0]);
        assert((first + second).skip(1) =~= first.skip(1) + second);
        lemma_spawn_actions_concat(first.skip(1), second);
    }
}

/// One whole frame, started with `Clear` outstanding, asks for `Poll`,
/// `Spawn` if and only if the sample is a rising edge, `Draw`, `Step`,
/// `Sync`, `Present` and then `Clear` of the next frame, in this order, and
/// ends with `Clear` outstanding and the sample remembered.
pub proof fn lemma_frame_order<P>(was_pressed: bool, pressed: bool, pointer: P)
    ensures
        ({
            let start = LoopState { stage: Stage::Clear, was_pressed };
            let (end, actions) = run(start, frame_events(was_pressed, pressed, pointer));
            &&& end == (LoopState { stage: Stage::Clear, was_pressed: pressed })
            &&& rising_edge(was_pressed, pressed) ==> actions == seq![
                Action::Poll,
                Action::Spawn(SpawnRequest { position: pointer }),
                Action::Draw,
                Action::Step,
                Action::Sync,
                Action::Present,
                Action::Clear,
            ]
            &&& !rising_edge(was_pressed, pressed) ==> actions == seq![
                Action::<P>::Poll,
                Action::Draw,
                Action::Step,
                Action::Sync,
                Action::Present,
                Action::Clear,
            ]
            &&& spawn_actions(actions) == if rising_edge(was_pressed, pressed) {
                1nat
            } else {
                0nat
            }
        }),
{
    let start = LoopState { stage: Stage::Clear, was_pressed };
    let events = frame_events(was_pressed, pressed, pointer);
    reveal_with_fuel(run, 8);
    reveal_with_fuel(spawn_actions, 8);
    let (end, actions) = run(start, events);
    if rising_edge(was_pressed, pressed) {
        assert(actions =~= seq![
            Action::Poll,
            Action::Spawn(SpawnRequest { position: pointer }),
            Action::Draw,
            Action::Step,
            Action::Sync,
            Action::Present,
            Action::Clear,
        ]);
    } else {
        assert(actions =~= seq![
            Action::<P>::Poll,
            Action::Draw,
            Action::Step,
            Action::Sync,
            Action::Present,
            Action::Clear,
        ]);
    }
}

/// Over any number of whole frames the driver asks for exactly as many
/// spawns as the input has rising edges, and ends each frame with `Clear`
/// outstanding.
pub proof fn lemma_session_spawns<P>(was_pressed: bool, inputs: Seq<bool>, pointer: P)
    ensures
        ({
            let start = LoopState { stage: Stage::Clear, was_pressed };
            let (end, actions) = run(start, session_events(was_pressed, inputs, pointer));
            &&& end.stage == Stage::Clear
            &&& end.was_pressed == if inputs.len() == 0 {
                was_pressed
            } else {
                inputs.last()
            }
            &&& spawn_actions(actions) == spawn_count(was_pressed, inputs)
        }),
    decreases inputs.len(),
{
    if inputs.len() > 0 {
        let start = LoopState { stage: Stage::Clear, was_pressed };
        let first = frame_events(was_pressed, inputs[0], pointer);
        let rest = session_events(inputs[0], inputs.skip(1), pointer);
        lemma_frame_order(was_pressed, inputs[0], pointer);
        lemma_session_spawns(inputs[0], inputs.skip(1), pointer);
        lemma_run_concat(start, first, rest);
        let (middle, head) = run(start, first);
        let (last, tail) = run(middle, rest);
        lemma_spawn_actions_concat(head, tail);
        if inputs.len() > 1 {
            assert(inputs.skip(1).last() == inputs.last());
        }
    }
}

/// Holding the spawn input down for `n >= 1` whole frames makes the driver
/// ask for exactly one spawn.
pub proof fn lemma_held_session_spawns_once<P>(n: nat, pointer: P)
    requires
        n >= 1,
    ensures
        ({
            let start = LoopState { stage: Stage::Clear, was_pressed: false };
            spawn_actions(run(start, session_events(false, held(n), pointer)).1) == 1
        }),
{
    lemma_session_spawns(false, held(n), pointer);
    lemma_hold_spawns_once(n);
}

} // verus!
