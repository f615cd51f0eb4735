use game_core::commands::{get_game_state, update_game_state};
use game_core::json::{decimal_text, frame_outcome, frame_state, number_text, state_to_json};
use game_core::processor::{ActionOutcome, ActionProcessor};
use game_core::rules::{propose, Action, PayloadValue, Rule, RuleRegistry};
use game_core::state::{Field, GameState, PlayerState, StateError, Status};
use game_core::store::StateStore;

fn player(name: &str, health: i64, score: i64) -> GameState {
    GameState {
        status: Status::Ready,
        player: PlayerState { name: name.to_string(), health, score },
    }
}

fn processor_with(rules: Vec<(&str, Rule)>) -> ActionProcessor {
    let mut reg = RuleRegistry::new();
    for (kind, rule) in rules {
        reg.register(kind.to_string(), rule);
    }
    ActionProcessor::new(StateStore::new(), reg)
}

#[test]
fn initial_state_is_ready_default_player() {
    let store = StateStore::new();
    assert_eq!(store.snapshot(), player("Player", 100, 0));
}

#[test]
fn get_game_state_returns_initial_json() {
    let store = StateStore::new();
    assert_eq!(
        get_game_state(&store),
        Ok("{\"status\":\"ready\",\"player\":{\"name\":\"Player\",\"health\":100,\"score\":0}}"
            .to_string())
    );
}

#[test]
fn commit_valid_states_then_snapshot_returns_them() {
    let cases = vec![
        player("Ann", 0, 0),
        player("Bo", 100, 5),
        player("x", 57, i64::MAX),
        GameState {
            status: Status::Busy,
            player: PlayerState { name: "Zed".to_string(), health: 1, score: 99 },
        },
    ];
    let mut store = StateStore::new();
    for s in cases {
        assert_eq!(store.commit(s.clone()), Ok(()));
        assert_eq!(store.snapshot(), s);
    }
}

#[test]
fn commit_out_of_bounds_is_refused_and_state_kept() {
    let cases = vec![
        (player("Player", -1, 0), Field::Health, "health out of bounds"),
        (player("Player", 101, 0), Field::Health, "health out of bounds"),
        (player("Player", 50, -5), Field::Score, "score out of bounds"),
        (player("", 50, 5), Field::Name, "name must not be empty"),
    ];
    let mut store = StateStore::new();
    store.commit(player("Kim", 70, 12)).unwrap();
    for (s, field, reason) in cases {
        let r = store.commit(s);
        assert_eq!(
            r,
            Err(StateError::InvariantViolation { field, reason: reason.to_string() })
        );
        assert_eq!(store.snapshot(), player("Kim", 70, 12));
    }
}

#[test]
fn empty_name_is_reported_before_other_bounds() {
    let mut store = StateStore::new();
    let r = store.commit(player("", 500, -3));
    assert_eq!(
        r,
        Err(StateError::InvariantViolation {
            field: Field::Name,
            reason: "name must not be empty".to_string()
        })
    );
}

#[test]
fn snapshot_twice_is_equal() {
    let mut store = StateStore::new();
    assert_eq!(store.snapshot(), store.snapshot());
    store.commit(player("Lee", 3, 4)).unwrap();
    let a = store.snapshot();
    let b = store.snapshot();
    assert_eq!(a, b);
}

#[test]
fn unregistered_kind_is_noop_success() {
    let mut p = processor_with(vec![]);
    let r = update_game_state(&mut p, "heal".to_string());
    assert_eq!(r, Ok("{\"action\":\"heal\",\"result\":\"success\"}".to_string()));
    assert_eq!(p.store().snapshot(), player("Player", 100, 0));
}

#[test]
fn rule_setting_health_150_is_rejected() {
    let mut p = processor_with(vec![("heal", Rule::SetHealth(150))]);
    let r = update_game_state(&mut p, "heal".to_string());
    assert_eq!(
        r,
        Ok("{\"action\":\"heal\",\"result\":\"rejected\",\"reason\":\"health out of bounds\"}"
            .to_string())
    );
    assert_eq!(p.store().snapshot(), player("Player", 100, 0));
}

#[test]
fn accepted_action_commits_and_reports_snapshot() {
    let mut p = processor_with(vec![("hit", Rule::AddHealth(-30))]);
    let o = p.apply(&Action::new("hit".to_string()));
    assert_eq!(
        o,
        ActionOutcome { accepted: true, snapshot: Some(player("Player", 70, 0)), reason: None }
    );
    assert_eq!(p.store().snapshot(), player("Player", 70, 0));
}

#[test]
fn refused_action_reports_reason_only() {
    let mut p = processor_with(vec![("cheat", Rule::AddScore(-1))]);
    let o = p.apply(&Action::new("cheat".to_string()));
    assert_eq!(
        o,
        ActionOutcome {
            accepted: false,
            snapshot: None,
            reason: Some("score out of bounds".to_string())
        }
    );
    assert_eq!(p.store().snapshot(), player("Player", 100, 0));
}

#[test]
fn sequential_actions_compose_without_lost_updates() {
    let mut p = processor_with(vec![
        ("coin", Rule::AddScore(5)),
        ("gem", Rule::AddScore(7)),
        ("hit", Rule::AddHealth(-30)),
        ("overheal", Rule::AddHealth(50)),
    ]);
    let kinds = ["coin", "hit", "overheal", "gem", "coin", "hit"];
    let mut accepted = 0;
    for k in kinds {
        if p.apply(&Action::new(k.to_string())).accepted {
            accepted += 1;
        }
    }
    // "overheal" at 70 would give 120 and is refused; the rest all land.
    assert_eq!(accepted, 5);
    assert_eq!(p.store().snapshot(), player("Player", 40, 17));
}

#[test]
fn add_health_overflow_is_out_of_bounds() {
    let mut p = processor_with(vec![("boom", Rule::AddHealth(i64::MAX))]);
    let r = update_game_state(&mut p, "boom".to_string());
    assert_eq!(
        r,
        Ok("{\"action\":\"boom\",\"result\":\"rejected\",\"reason\":\"health out of bounds\"}"
            .to_string())
    );
    assert_eq!(p.store().snapshot(), player("Player", 100, 0));
}

#[test]
fn add_score_overflow_is_out_of_bounds() {
    let s = player("Max", 10, i64::MAX);
    let r = propose(Rule::AddScore(1), &s);
    assert_eq!(
        r,
        Err(StateError::InvariantViolation {
            field: Field::Score,
            reason: "score out of bounds".to_string()
        })
    );
    assert_eq!(propose(Rule::AddScore(-1), &s), Ok(player("Max", 10, i64::MAX - 1)));
}

#[test]
fn propose_keep_returns_same_state() {
    let s = player("Ann", 42, 8);
    assert_eq!(propose(Rule::Keep, &s), Ok(s.clone()));
    assert_eq!(propose(Rule::SetHealth(-7), &s), Ok(player("Ann", -7, 8)));
}

#[test]
fn registering_again_replaces_rule() {
    let mut reg = RuleRegistry::new();
    assert_eq!(reg.lookup(&"heal".to_string()), Rule::Keep);
    reg.register("heal".to_string(), Rule::SetHealth(10));
    reg.register("coin".to_string(), Rule::AddScore(1));
    reg.register("heal".to_string(), Rule::AddHealth(3));
    assert_eq!(reg.lookup(&"heal".to_string()), Rule::AddHealth(3));
    assert_eq!(reg.lookup(&"coin".to_string()), Rule::AddScore(1));
    assert_eq!(reg.lookup(&"jump".to_string()), Rule::Keep);
}

#[test]
fn processor_register_changes_rules_not_state() {
    let mut p = processor_with(vec![]);
    p.register("coin".to_string(), Rule::AddScore(2));
    assert_eq!(p.store().snapshot(), player("Player", 100, 0));
    update_game_state(&mut p, "coin".to_string()).unwrap();
    assert_eq!(p.store().snapshot(), player("Player", 100, 2));
}

#[test]
fn action_payload_is_carried() {
    let mut a = Action::new("hit".to_string());
    assert!(a.payload.is_empty());
    a.payload.push(("amount".to_string(), PayloadValue::Int(3)));
    a.payload.push(("crit".to_string(), PayloadValue::Bool(true)));
    a.payload.push(("by".to_string(), PayloadValue::Text("orc".to_string())));
    let mut p = processor_with(vec![("hit", Rule::AddHealth(-3))]);
    assert!(p.apply(&a).accepted);
    assert_eq!(p.store().snapshot(), player("Player", 97, 0));
}

#[test]
fn json_escapes_name_and_action() {
    let s = player("Ann \"A\"\\", 5, 6);
    assert_eq!(
        state_to_json(&s),
        "{\"status\":\"ready\",\"player\":{\"name\":\"Ann \\\"A\\\"\\\\\",\"health\":5,\"score\":6}}"
    );
    let mut p = processor_with(vec![]);
    assert_eq!(
        update_game_state(&mut p, "say \"hi\"\n".to_string()),
        Ok("{\"action\":\"say \\\"hi\\\"\\n\",\"result\":\"success\"}".to_string())
    );
}

#[test]
fn json_shows_each_status() {
    let mut s = player("P", 1, 2);
    s.status = Status::Busy;
    assert_eq!(
        frame_state(&s, "\"P\""),
        "{\"status\":\"busy\",\"player\":{\"name\":\"P\",\"health\":1,\"score\":2}}"
    );
    s.status = Status::Error;
    assert_eq!(
        frame_state(&s, "\"P\""),
        "{\"status\":\"error\",\"player\":{\"name\":\"P\",\"health\":1,\"score\":2}}"
    );
}

#[test]
fn frame_outcome_both_shapes() {
    assert_eq!(frame_outcome("\"a\"", None), "{\"action\":\"a\",\"result\":\"success\"}");
    assert_eq!(
        frame_outcome("\"a\"", Some("\"why\"")),
        "{\"action\":\"a\",\"result\":\"rejected\",\"reason\":\"why\"}"
    );
}

#[test]
fn numbers_in_decimal() {
    assert_eq!(decimal_text(0), "0");
    assert_eq!(decimal_text(9), "9");
    assert_eq!(decimal_text(10), "10");
    assert_eq!(decimal_text(1234567890), "1234567890");
    assert_eq!(decimal_text(u64::MAX), "18446744073709551615");
    assert_eq!(number_text(-42), "-42");
    assert_eq!(number_text(i64::MIN), "-9223372036854775808");
    assert_eq!(number_text(i64::MAX), "9223372036854775807");
}
