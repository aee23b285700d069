//! Debounced spawning: one request per press of the spawn input.

use vstd::prelude::*;

verus! {

/// A request to create one ball at `position`.
///
/// `P` is the caller's position type; the spawner hands the pointer position
/// through without looking at it.
#[derive(Debug, PartialEq, Eq)]
pub struct SpawnRequest<P> {
    pub position: P,
}

/// Remembers whether the spawn input was down on the previous frame.
pub struct Spawner {
    was_pressed: bool,
}

/// The input went from released to pressed between two consecutive frames.
pub open spec fn rising_edge(was_pressed: bool, pressed: bool) -> bool {
    pressed && !was_pressed
}

/// Number of requests emitted while feeding `inputs`, one sample per frame,
/// to a spawner whose previous sample was `was_pressed`.
pub open spec fn spawn_count(was_pressed: bool, inputs: Seq<bool>) -> nat
    decreases inputs.len(),
{
    if inputs.len() == 0 {
        0
    } else {
        let here: nat = if rising_edge(was_pressed, inputs[0]) { 1 } else { 0 };
        here + spawn_count(inputs[0], inputs.skip(1))
    }
}

/// The input sequence that holds the button down for `n` frames.
pub open spec fn held(n: nat) -> Seq<bool> {
    Seq::new(n, |i: int| true)
}

impl Spawner {
    /// The sample seen on the previous frame.
    pub closed spec fn was_pressed(&self) -> bool {
        self.was_pressed
    }

    /// A spawner that has seen no press yet.
    pub fn new() -> (s: Self)
        ensures
            !s.was_pressed(),
    {
        Spawner { was_pressed: false }
    }

    /// Consumes one frame's input sample.
    ///
    /// Returns a request for `pointer` exactly on the frame where the input
    /// goes from released to pressed, and nothing while it stays held or
    /// stays released.
    pub fn on_frame<P>(&mut self, pressed: bool, pointer: P) -> (request: Option<SpawnRequest<P>>)
        ensures
            final(self).was_pressed() == pressed,
            request == if rising_edge(old(self).was_pressed(), pressed) {
                Some(SpawnRequest { position: pointer })
            } else {
                None
            },
    {
        let fire = pressed && !self.was_pressed;
        self.was_pressed = pressed;
        if fire {
            Some(SpawnRequest { position: pointer })
        } else {
            None
        }
    }
}

/// Once the button is down, keeping it down for `n` more frames emits nothing.
pub proof fn lemma_held_is_silent(n: nat)
    ensures
        spawn_count(true, held(n)) == 0,
    decreases n,
{
    if n > 0 {
        assert(held(n).skip(1) =~= held((n - 1) as nat));
        lemma_held_is_silent((n - 1) as nat);
    }
}

/// Holding the button for `n >= 1` frames from a released state emits
/// exactly one request, however long the hold lasts.
pub proof fn lemma_hold_spawns_once(n: nat)
    requires
        n >= 1,
    ensures
        spawn_count(false, held(n)) == 1,
{
    assert(held(n).skip(1) =~= held((n - 1) as nat));
    lemma_held_is_silent((n - 1) as nat);
}

/// Counting over a sequence followed by one more sample adds that sample's
/// edge, judged against the last sample before it.
pub proof fn lemma_spawn_count_push(was_pressed: bool, inputs: Seq<bool>, last: bool)
    ensures
        spawn_count(was_pressed, inputs.push(last)) == spawn_count(was_pressed, inputs) + (if rising_edge(
            if inputs.len() == 0 { was_pressed } else { inputs.last() },
            last,
        ) { 1nat } else { 0nat }),
    decreases inputs.len(),
{
    let extended = inputs.push(last);
    if inputs.len() == 0 {
        assert(extended.skip(1) =~= Seq::<bool>::empty());
        assert(extended[0] == last);
        assert(spawn_count(last, extended.skip(1)) == 0);
        assert(spawn_count(was_pressed, inputs) == 0);
    } else {
        assert(extended[0] == inputs[0]);
        assert(extended.skip(1) =~= inputs.skip(1).push(last));
        lemma_spawn_count_push(inputs[0], inputs.skip(1), last);
        if inputs.len() == 1 {
            assert(inputs.last() == inputs[0]);
        } else {
            assert(inputs.skip(1).last() == inputs.last());
        }
    }
}

/// Holding the button for `n >= 1` frames and then releasing it emits
/// exactly one request, not `n`.
pub proof fn lemma_hold_then_release_spawns_once(n: nat)
    requires
        n >= 1,
    ensures
        spawn_count(false, held(n).push(false)) == 1,
{
    lemma_hold_spawns_once(n);
    lemma_spawn_count_push(false, held(n), false);
}

} // verus!
