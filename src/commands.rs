use vstd::prelude::*;
use crate::json::{frame_outcome, json_string_of, outcome_frame, quote, state_json, state_to_json};
use crate::processor::{step, ActionProcessor};
use crate::rules::{candidate, rule_in, Action};
use crate::state::{reason_text, GameView};
use crate::store::StateStore;

verus! {

/// The reply to an action of kind `kind` whose rule proposed `c`.
pub open spec fn update_json(kind: Seq<char>, c: GameView) -> Seq<char> {
    match c.violation() {
        None => outcome_frame(json_string_of(kind), None),
        Some(f) => outcome_frame(json_string_of(kind), Some(json_string_of(reason_text(f)))),
    }
}

/// Host command: the current game state as a JSON object
/// `{status, player: {name, health, score}}`. It never fails.
pub fn get_game_state(store: &StateStore) -> (r: Result<String, String>)
    ensures
        r matches Ok(t) && t@ == state_json(store@),
{
    let s = store.snapshot();
    Ok(state_to_json(&s))
}

/// Host command: applies an action of kind `action` with an empty payload
/// and replies `{action, result: "success"}`, or
/// `{action, result: "rejected", reason}` where the state was kept.
pub fn update_game_state(processor: &mut ActionProcessor, action: String) -> (r: Result<
    String,
    String,
>)
    ensures
        final(processor).rules() == old(processor).rules(),
        final(processor).state() == step(old(processor).rules(), old(processor).state(), action@),
        r matches Ok(t) && t@ == update_json(
            action@,
            candidate(rule_in(old(processor).rules(), action@), old(processor).state()),
        ),
{
    let quoted_action = quote(action.as_str());
    let request = Action::new(action);
    let outcome = processor.apply(&request);
    match outcome.reason {
        None => Ok(frame_outcome(quoted_action.as_str(), None)),
        Some(reason) => {
            let quoted_reason = quote(reason.as_str());
            Ok(frame_outcome(quoted_action.as_str(), Some(quoted_reason.as_str())))
        },
    }
}

} // verus!
