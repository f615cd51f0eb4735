use vstd::prelude::*;

verus! {

/// Lifecycle status of the game.
#[derive(Clone, Copy, Debug, PartialEq, Eq, Structural)]
pub enum Status {
    Ready,
    Busy,
    Error,
}

/// A field of the player whose bound a state can break.
#[derive(Clone, Copy, Debug, PartialEq, Eq, Structural)]
pub enum Field {
    Name,
    Health,
    Score,
}

/// The player: a non-empty name, health in `0..=100`, a score of at least 0.
#[derive(Clone, Debug, PartialEq, Eq)]
pub struct PlayerState {
    pub name: String,
    pub health: i64,
    pub score: i64,
}

/// The whole game state: its status and its one player.
#[derive(Clone, Debug, PartialEq, Eq)]
pub struct GameState {
    pub status: Status,
    pub player: PlayerState,
}

/// Mathematical model of a player. Health and score are unbounded integers,
/// so that a rule may propose a value that no `i64` holds.
pub struct PlayerView {
    pub name: Seq<char>,
    pub health: int,
    pub score: int,
}

/// Mathematical model of a game state.
pub struct GameView {
    pub status: Status,
    pub player: PlayerView,
}

/// Why a proposed state was refused.
#[derive(Clone, Debug, PartialEq, Eq)]
pub enum StateError {
    InvariantViolation { field: Field, reason: String },
}

pub const MAX_HEALTH: i64 = 100;

impl View for PlayerState {
    type V = PlayerView;

    open spec fn view(&self) -> PlayerView {
        PlayerView { name: self.name@, health: self.health as int, score: self.score as int }
    }
}

impl View for GameState {
    type V = GameView;

    open spec fn view(&self) -> GameView {
        GameView { status: self.status, player: self.player@ }
    }
}

/// The reason text that goes with each field's bound.
pub open spec fn reason_text(f: Field) -> Seq<char> {
    match f {
        Field::Name => "name must not be empty"@,
        Field::Health => "health out of bounds"@,
        Field::Score => "score out of bounds"@,
    }
}

impl PlayerView {
    pub open spec fn name_ok(self) -> bool {
        self.name.len() > 0
    }

    pub open spec fn health_ok(self) -> bool {
        0 <= self.health <= MAX_HEALTH as int
    }

    /// The score has no upper bound of its own; `i64::MAX` is the machine's.
    pub open spec fn score_ok(self) -> bool {
        0 <= self.score <= i64::MAX as int
    }

    pub open spec fn valid(self) -> bool {
        self.name_ok() && self.health_ok() && self.score_ok()
    }

    /// The first bound, in the order name, health, score, that the player breaks.
    pub open spec fn violation(self) -> Option<Field> {
        if !self.name_ok() {
            Some(Field::Name)
        } else if !self.health_ok() {
            Some(Field::Health)
        } else if !self.score_ok() {
            Some(Field::Score)
        } else {
            None
        }
    }
}

impl GameView {
    pub open spec fn valid(self) -> bool {
        self.player.valid()
    }

    pub open spec fn violation(self) -> Option<Field> {
        self.player.violation()
    }

    /// The same state with the player's health replaced.
    pub open spec fn with_health(self, h: int) -> GameView {
        GameView { player: PlayerView { health: h, ..self.player }, ..self }
    }

    /// The same state with the player's score replaced.
    pub open spec fn with_score(self, s: int) -> GameView {
        GameView { player: PlayerView { score: s, ..self.player }, ..self }
    }
}

impl StateError {
    /// The error that reports a broken bound on `f`.
    pub open spec fn reports(self, f: Field) -> bool {
        match self {
            StateError::InvariantViolation { field, reason } => field == f && reason@
                == reason_text(f),
        }
    }

    pub fn violation(field: Field) -> (r: StateError)
        ensures
            r.reports(field),
    {
        let text = match field {
            Field::Name => "name must not be empty",
            Field::Health => "health out of bounds",
            Field::Score => "score out of bounds",
        };
        StateError::InvariantViolation { field, reason: String::from_str(text) }
    }

    /// The human-readable reason carried by the error.
    pub fn reason(&self) -> (r: String)
        ensures
            match self {
                StateError::InvariantViolation { reason, .. } => r@ == reason@,
            },
    {
        match self {
            StateError::InvariantViolation { reason, .. } => reason.clone(),
        }
    }
}

impl PlayerState {
    /// Checks the player's bounds, reporting the first one broken.
    pub fn check(&self) -> (r: Result<(), StateError>)
        ensures
            match self@.violation() {
                None => r is Ok,
                Some(f) => r is Err && r->Err_0.reports(f),
            },
    {
        if self.name.as_str().is_empty() {
            Err(StateError::violation(Field::Name))
        } else if self.health < 0 || self.health > MAX_HEALTH {
            Err(StateError::violation(Field::Health))
        } else if self.score < 0 {
            Err(StateError::violation(Field::Score))
        } else {
            Ok(())
        }
    }
}

impl GameState {
    /// The state a session starts in: ready, with a default player.
    pub fn initial() -> (r: GameState)
        ensures
            r@.status == Status::Ready,
            r@.player.name == "Player"@,
            r@.player.health == 100,
            r@.player.score == 0,
            r@.valid(),
    {
        proof {
            reveal_strlit("Player");
        }
        GameState {
            status: Status::Ready,
            player: PlayerState { name: String::from_str("Player"), health: 100, score: 0 },
        }
    }

    /// A copy of the state that is equal to it in every field.
    pub fn duplicate(&self) -> (r: GameState)
        ensures
            r@ == self@,
    {
        GameState {
            status: self.status,
            player: PlayerState {
                name: self.player.name.clone(),
                health: self.player.health,
                score: self.player.score,
            },
        }
    }
}

} // verus!
