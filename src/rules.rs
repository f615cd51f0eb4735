use vstd::prelude::*;
use crate::state::{Field, GameState, GameView, PlayerState, StateError};

verus! {

/// A primitive value carried in an action's payload.
#[derive(Clone, Debug, PartialEq, Eq)]
pub enum PayloadValue {
    Int(i64),
    Bool(bool),
    Text(String),
}

/// A request from the host to change the game state: a kind that selects a
/// rule, and a payload of named primitive values (often empty).
#[derive(Clone, Debug, PartialEq, Eq)]
pub struct Action {
    pub kind: String,
    pub payload: Vec<(String, PayloadValue)>,
}

impl Action {
    /// An action of the given kind with an empty payload.
    pub fn new(kind: String) -> (r: Action)
        ensures
            r.kind@ == kind@,
            r.payload@.len() == 0,
    {
        Action { kind, payload: Vec::new() }
    }
}

/// What a registered rule does to the state it is given.
#[derive(Clone, Copy, Debug, PartialEq, Eq, Structural)]
pub enum Rule {
    /// Leaves the state as it is.
    Keep,
    /// Sets the player's health.
    SetHealth(i64),
    /// Adds to the player's health (a negative amount is damage).
    AddHealth(i64),
    /// Adds to the player's score.
    AddScore(i64),
}

/// The state that `rule` proposes from `s`, with unbounded arithmetic.
pub open spec fn candidate(rule: Rule, s: GameView) -> GameView {
    match rule {
        Rule::Keep => s,
        Rule::SetHealth(h) => s.with_health(h as int),
        Rule::AddHealth(d) => s.with_health(s.player.health + d),
        Rule::AddScore(d) => s.with_score(s.player.score + d),
    }
}

/// Whether every number of the state fits the machine's integers.
pub open spec fn fits(s: GameView) -> bool {
    i64::MIN <= s.player.health <= i64::MAX && i64::MIN <= s.player.score <= i64::MAX
}

/// Computes the state that `rule` proposes from `s`. Where that state's
/// numbers do not fit an `i64` it already breaks a bound, which is reported.
pub fn propose(rule: Rule, s: &GameState) -> (r: Result<GameState, StateError>)
    requires
        s@.valid(),
    ensures
        r is Ok <==> fits(candidate(rule, s@)),
        r matches Ok(c) ==> c@ == candidate(rule, s@),
        r matches Err(e) ==> candidate(rule, s@).violation() matches Some(f) && e.reports(f),
{
    let mut c = s.duplicate();
    match rule {
        Rule::Keep => {},
        Rule::SetHealth(h) => {
            c.player.health = h;
        },
        Rule::AddHealth(d) => {
            match s.player.health.checked_add(d) {
                Some(h) => {
                    c.player.health = h;
                },
                None => {
                    return Err(StateError::violation(Field::Health));
                },
            }
        },
        Rule::AddScore(d) => {
            match s.player.score.checked_add(d) {
                Some(v) => {
                    c.player.score = v;
                },
                None => {
                    return Err(StateError::violation(Field::Score));
                },
            }
        },
    }
    Ok(c)
}

/// The rule that a registration history gives to `kind`: the one most
/// recently registered for it, or `Keep` where there is none.
pub open spec fn rule_in(entries: Seq<(Seq<char>, Rule)>, kind: Seq<char>) -> Rule
    decreases entries.len(),
{
    if entries.len() == 0 {
        Rule::Keep
    } else if entries.last().0 == kind {
        entries.last().1
    } else {
        rule_in(entries.drop_last(), kind)
    }
}

/// The table of rules, by action kind. Kinds that were never registered get
/// the rule `Keep`.
pub struct RuleRegistry {
    entries: Vec<(String, Rule)>,
}

impl View for RuleRegistry {
    type V = Seq<(Seq<char>, Rule)>;

    closed spec fn view(&self) -> Seq<(Seq<char>, Rule)> {
        self.entries@.map_values(|e: (String, Rule)| (e.0@, e.1))
    }
}

impl RuleRegistry {
    /// A table with no rule registered.
    pub fn new() -> (r: RuleRegistry)
        ensures
            r@.len() == 0,
            forall|k: Seq<char>| rule_in(r@, k) == Rule::Keep,
    {
        let r = RuleRegistry { entries: Vec::new() };
        assert(r@ =~= Seq::<(Seq<char>, Rule)>::empty());
        r
    }

    /// Registers `rule` for `kind`, in place of any rule it had.
    pub fn register(&mut self, kind: String, rule: Rule)
        ensures
            final(self)@ == old(self)@.push((kind@, rule)),
            rule_in(final(self)@, kind@) == rule,
            forall|k: Seq<char>| k != kind@ ==> rule_in(final(self)@, k) == rule_in(old(self)@, k),
    {
        let ghost k = kind@;
        self.entries.push((kind, rule));
        assert(self@ =~= old(self)@.push((k, rule)));
        assert(self@.drop_last() =~= old(self)@);
    }

    /// The rule registered for `kind`, or `Keep` where there is none.
    pub fn lookup(&self, kind: &String) -> (r: Rule)
        ensures
            r == rule_in(self@, kind@),
    {
        let mut i: usize = self.entries.len();
        assert(self@.take(i as int) =~= self@);
        while i > 0
            invariant
                i <= self.entries@.len(),
                self@.len() == self.entries@.len(),
                rule_in(self@, kind@) == rule_in(self@.take(i as int), kind@),
            decreases i,
        {
            let e = &self.entries[i - 1];
            assert(self@.take(i as int).drop_last() =~= self@.take(i - 1));
            if e.0 == *kind {
                return e.1;
            }
            i = i - 1;
        }
        assert(self@.take(0) =~= Seq::<(Seq<char>, Rule)>::empty());
        Rule::Keep
    }
}

} // verus!
