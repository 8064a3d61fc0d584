//! The input-mode toggle: a two-state machine that selects the active
//! pipeline variant, driven by release edges of the designated toggle key.

use vstd::prelude::*;

verus! {

/// Which of the two pipeline variants is selected for drawing.
///
/// `VariantA` consumes the external vertex buffer and samples the texture;
/// `VariantB` derives per-vertex color procedurally in the shader.
#[derive(Clone, Copy, Debug, PartialEq, Eq, Structural)]
pub enum ToggleState {
    VariantA,
    VariantB,
}

/// Whether a key went down or came back up.
#[derive(Clone, Copy, Debug, PartialEq, Eq, Structural)]
pub enum KeyAction {
    Press,
    Release,
}

/// A keyboard event as the event-loop driver hands it over: either the
/// designated toggle key with its edge (and whether it is an auto-repeat
/// while held), or any other event.
#[derive(Clone, Copy, Debug, PartialEq, Eq, Structural)]
pub enum InputEvent {
    ToggleKey { action: KeyAction, repeat: bool },
    Other,
}

impl ToggleState {
    /// The opposite variant.
    pub open spec fn spec_flipped(self) -> ToggleState {
        match self {
            ToggleState::VariantA => ToggleState::VariantB,
            ToggleState::VariantB => ToggleState::VariantA,
        }
    }

    /// Flip to the opposite variant.
    pub fn flipped(self) -> (r: ToggleState)
        ensures
            r == self.spec_flipped(),
    {
        match self {
            ToggleState::VariantA => ToggleState::VariantB,
            ToggleState::VariantB => ToggleState::VariantA,
        }
    }
}

/// Whether this event concerns the toggle key at all. Exactly these events
/// are consumed (reported as handled); all others propagate to the driver.
pub open spec fn concerns_toggle_key(e: InputEvent) -> bool {
    e is ToggleKey
}

/// Whether this event is a release edge of the toggle key: the only kind of
/// event that may change the selected variant. Presses and auto-repeats of
/// the toggle key are consumed but never flip the state.
pub open spec fn is_release_edge(e: InputEvent) -> bool {
    e matches InputEvent::ToggleKey { action, .. } && action is Release
}

/// The state the toggle reaches from `s` on event `e`.
pub open spec fn spec_toggle_next(s: ToggleState, e: InputEvent) -> ToggleState {
    if is_release_edge(e) {
        s.spec_flipped()
    } else {
        s
    }
}

/// One step of the toggle machine: returns the next state and whether the
/// event was handled (consumed). Only a release edge of the toggle key flips
/// the state; presses and auto-repeats are handled without effect; every
/// other event is left for the driver, with the state unchanged.
pub fn toggle_step(s: ToggleState, e: &InputEvent) -> (r: (ToggleState, bool))
    ensures
        r.0 == spec_toggle_next(s, *e),
        r.1 == concerns_toggle_key(*e),
{
    match e {
        InputEvent::ToggleKey { action, repeat: _ } => {
            let next = if matches!(action, KeyAction::Release) {
                s.flipped()
            } else {
                s
            };
            (next, true)
        },
        InputEvent::Other => (s, false),
    }
}

/// The state reached from `s` after `n` release edges of the toggle key.
pub open spec fn after_releases(s: ToggleState, n: nat) -> ToggleState
    decreases n,
{
    if n == 0 {
        s
    } else {
        after_releases(s, (n - 1) as nat).spec_flipped()
    }
}

/// Release edges toggle by parity: an even number of release edges returns
/// the state to its original value, and an odd number always yields the
/// opposite value. In particular two consecutive release edges undo each
/// other.
pub proof fn lemma_toggle_parity(s: ToggleState, n: nat)
    ensures
        after_releases(s, n) == if n % 2 == 0 {
            s
        } else {
            s.spec_flipped()
        },
    decreases n,
{
    if n > 0 {
        lemma_toggle_parity(s, (n - 1) as nat);
    }
}

/// Events that are not release edges never change the state: the toggle
/// moves only on a release edge of the toggle key.
pub proof fn lemma_non_release_preserves_state(s: ToggleState, e: InputEvent)
    requires
        !is_release_edge(e),
    ensures
        spec_toggle_next(s, e) == s,
{
}

/// Two consecutive release edges return the toggle to its original value.
pub proof fn lemma_release_pair_roundtrip(s: ToggleState, e1: InputEvent, e2: InputEvent)
    requires
        is_release_edge(e1),
        is_release_edge(e2),
    ensures
        spec_toggle_next(spec_toggle_next(s, e1), e2) == s,
{
}

/// The state the toggle reaches from `s` over a whole stream of events.
pub open spec fn spec_toggle_after(s: ToggleState, events: Seq<InputEvent>) -> ToggleState
    decreases events.len(),
{
    if events.len() == 0 {
        s
    } else {
        spec_toggle_after(spec_toggle_next(s, events[0]), events.skip(1))
    }
}

/// How many release edges of the toggle key a stream of events holds.
pub open spec fn spec_release_count(events: Seq<InputEvent>) -> nat
    decreases events.len(),
{
    if events.len() == 0 {
        0
    } else {
        (if is_release_edge(events[0]) {
            1nat
        } else {
            0nat
        }) + spec_release_count(events.skip(1))
    }
}

/// Over any stream of events, the toggle's end state depends on nothing but
/// the parity of the release edges in it: an even number of release edges
/// returns the state to its starting value, an odd number always yields the
/// opposite value, and presses, auto-repeats and unrelated events drop out
/// entirely.
pub proof fn lemma_toggle_counts_release_parity(s: ToggleState, events: Seq<InputEvent>)
    ensures
        spec_toggle_after(s, events) == if spec_release_count(events) % 2 == 0 {
            s
        } else {
            s.spec_flipped()
        },
    decreases events.len(),
{
    if events.len() > 0 {
        lemma_toggle_counts_release_parity(spec_toggle_next(s, events[0]), events.skip(1));
    }
}

} // verus!
