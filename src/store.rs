use vstd::prelude::*;
use crate::state::{Field, GameState, GameView, StateError};

verus! {

/// Sole owner of the game state. Every state it holds satisfies the
/// player's bounds; a commit that would break one leaves it untouched.
///
/// Exclusive access (`&mut self`) serialises commits: a host that shares the
/// store between threads puts it behind one lock.
pub struct StateStore {
    state: GameState,
}

impl View for StateStore {
    type V = GameView;

    closed spec fn view(&self) -> GameView {
        self.state@
    }
}

impl StateStore {
    #[verifier::type_invariant]
    spec fn holds_valid_state(&self) -> bool {
        self.state@.valid()
    }

    /// A store that holds the initial state.
    pub fn new() -> (r: StateStore)
        ensures
            r@.status == crate::state::Status::Ready,
            r@.player.name == "Player"@,
            r@.player.health == 100,
            r@.player.score == 0,
            r@.valid(),
    {
        StateStore { state: GameState::initial() }
    }

    /// A copy of the current state.
    pub fn snapshot(&self) -> (r: GameState)
        ensures
            r@ == self@,
            r@.valid(),
    {
        proof {
            use_type_invariant(self);
        }
        self.state.duplicate()
    }

    /// Replaces the state with `delta` if `delta` keeps every bound; else
    /// reports the first bound it breaks and keeps the state as it was.
    pub fn commit(&mut self, delta: GameState) -> (r: Result<(), StateError>)
        ensures
            final(self)@ == committed(old(self)@, delta@),
            final(self)@.valid(),
            match delta@.violation() {
                None => r is Ok,
                Some(f) => r is Err && r->Err_0.reports(f),
            },
    {
        let r = match delta.player.check() {
            Ok(()) => {
                self.state = delta;
                Ok(())
            },
            Err(e) => Err(e),
        };
        proof {
            use_type_invariant(&*self);
        }
        r
    }
}

/// The state a store holds after a commit of `delta` on state `current`:
/// `delta` if it keeps every bound, `current` otherwise.
pub open spec fn committed(current: GameView, delta: GameView) -> GameView {
    if delta.violation() is None {
        delta
    } else {
        current
    }
}

/// A valid state is always accepted by `commit`, and is then exactly the
/// state that the next snapshot returns.
pub proof fn lemma_commit_valid_is_kept(current: GameView, delta: GameView)
    requires
        current.valid(),
        delta.valid(),
    ensures
        delta.violation() is None,
        committed(current, delta) == delta,
{
}

/// A state that breaks a bound is always refused by `commit` with the
/// violation of that bound, and the store keeps its prior state.
pub proof fn lemma_commit_invalid_is_refused(current: GameView, delta: GameView)
    requires
        current.valid(),
        !delta.valid(),
    ensures
        delta.violation() is Some,
        !delta.player.name_ok() ==> delta.violation() == Some(Field::Name),
        delta.player.name_ok() && !delta.player.health_ok() ==> delta.violation() == Some(
            Field::Health,
        ),
        committed(current, delta) == current,
        committed(current, delta).valid(),
{
}

/// Two snapshots of one store, with no commit between them, are equal.
pub proof fn lemma_snapshot_repeatable(store: &StateStore, first: GameView, second: GameView)
    requires
        first == store@,
        second == store@,
    ensures
        first == second,
{
}

} // verus!
