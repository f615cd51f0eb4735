use vstd::prelude::*;
use crate::rules::{candidate, propose, rule_in, Action, Rule, RuleRegistry};
use crate::state::{reason_text, GameState, GameView};
use crate::store::{committed, StateStore};

verus! {

/// The result of one action: the committed state where it was accepted,
/// the reason where it was refused.
#[derive(Clone, Debug, PartialEq, Eq)]
pub struct ActionOutcome {
    pub accepted: bool,
    pub snapshot: Option<GameState>,
    pub reason: Option<String>,
}

/// The state after one action of kind `kind` on state `s`, under the
/// registration history `rules`.
pub open spec fn step(rules: Seq<(Seq<char>, Rule)>, s: GameView, kind: Seq<char>) -> GameView {
    committed(s, candidate(rule_in(rules, kind), s))
}

/// The state after actions of the given kinds, applied one after another.
pub open spec fn run(rules: Seq<(Seq<char>, Rule)>, s: GameView, kinds: Seq<Seq<char>>) -> GameView
    decreases kinds.len(),
{
    if kinds.len() == 0 {
        s
    } else {
        step(rules, run(rules, s, kinds.drop_last()), kinds.last())
    }
}

/// Whether `o` is the outcome of proposing `c`: accepted with `c` as its
/// snapshot when `c` keeps every bound, refused with the reason for the
/// first bound broken otherwise.
pub open spec fn reports_outcome(o: ActionOutcome, c: GameView) -> bool {
    match c.violation() {
        None => o.accepted && (o.snapshot matches Some(snap) && snap@ == c) && o.reason is None,
        Some(f) => !o.accepted && o.snapshot is None && (o.reason matches Some(text) && text@
            == reason_text(f)),
    }
}

/// Turns actions into committed states: looks up the rule for the action's
/// kind, lets it propose a state, and commits that state.
pub struct ActionProcessor {
    store: StateStore,
    rules: RuleRegistry,
}

impl ActionProcessor {
    /// The state that the processor's store holds.
    pub closed spec fn state(&self) -> GameView {
        self.store@
    }

    /// The registration history of the processor's rules.
    pub closed spec fn rules(&self) -> Seq<(Seq<char>, Rule)> {
        self.rules@
    }

    /// A processor over `store` with the rules of `rules`.
    pub fn new(store: StateStore, rules: RuleRegistry) -> (r: ActionProcessor)
        ensures
            r.state() == store@,
            r.rules() == rules@,
    {
        ActionProcessor { store, rules }
    }

    /// The store that holds the game state.
    pub fn store(&self) -> (r: &StateStore)
        ensures
            r@ == self.state(),
    {
        &self.store
    }

    /// Registers `rule` for actions of kind `kind`.
    pub fn register(&mut self, kind: String, rule: Rule)
        ensures
            final(self).rules() == old(self).rules().push((kind@, rule)),
            final(self).state() == old(self).state(),
    {
        self.rules.register(kind, rule);
    }

    /// Applies one action. The state changes to the rule's proposal where
    /// that keeps every bound and stays as it was otherwise.
    pub fn apply(&mut self, action: &Action) -> (r: ActionOutcome)
        ensures
            final(self).rules() == old(self).rules(),
            final(self).state() == step(old(self).rules(), old(self).state(), action.kind@),
            final(self).state().valid(),
            reports_outcome(r, candidate(rule_in(old(self).rules(), action.kind@), old(self).state())),
    {
        let current = self.store.snapshot();
        let rule = self.rules.lookup(&action.kind);
        match propose(rule, &current) {
            Err(e) => ActionOutcome { accepted: false, snapshot: None, reason: Some(e.reason()) },
            Ok(c) => {
                let kept = c.duplicate();
                match self.store.commit(c) {
                    Ok(()) => ActionOutcome { accepted: true, snapshot: Some(kept), reason: None },
                    Err(e) => ActionOutcome { accepted: false, snapshot: None, reason: Some(e.reason()) },
                }
            },
        }
    }
}

/// Applying actions one at a time leaves no update out: a history of
/// actions, cut at any point, is the first part's run followed by the
/// second part's run from where the first one ended.
pub proof fn lemma_run_composes(
    rules: Seq<(Seq<char>, Rule)>,
    s: GameView,
    first: Seq<Seq<char>>,
    second: Seq<Seq<char>>,
)
    ensures
        run(rules, s, first + second) == run(rules, run(rules, s, first), second),
    decreases second.len(),
{
    if second.len() == 0 {
        assert(first + second =~= first);
    } else {
        assert((first + second).drop_last() =~= first + second.drop_last());
        lemma_run_composes(rules, s, first, second.drop_last());
    }
}

/// Every state that a run of actions passes through keeps every bound,
/// and each action either commits its rule's proposal or changes nothing.
pub proof fn lemma_run_keeps_valid(rules: Seq<(Seq<char>, Rule)>, s: GameView, kinds: Seq<Seq<char>>)
    requires
        s.valid(),
    ensures
        run(rules, s, kinds).valid(),
        kinds.len() > 0 ==> ({
            let before = run(rules, s, kinds.drop_last());
            let c = candidate(rule_in(rules, kinds.last()), before);
            run(rules, s, kinds) == (if c.valid() { c } else { before })
        }),
    decreases kinds.len(),
{
    if kinds.len() > 0 {
        lemma_run_keeps_valid(rules, s, kinds.drop_last());
    }
}

} // verus!
