use vstd::prelude::*;
use crate::state::{GameState, GameView, Status};

verus! {

/// The JSON string literal that serde_json writes for the text `s`.
pub uninterp spec fn json_string_of(s: Seq<char>) -> Seq<char>;

/// Relies on serde_json's `Display` for `Value::String`: the text written
/// as a quoted, escaped JSON string, which depends on the characters alone.
#[verifier::external_body]
pub(crate) fn quote(s: &str) -> (r: String)
    ensures
        r@ == json_string_of(s@),
{
    serde_json::Value::String(s.to_string()).to_string()
}

pub open spec fn digit_char(d: int) -> char {
    if d == 0 {
        '0'
    } else if d == 1 {
        '1'
    } else if d == 2 {
        '2'
    } else if d == 3 {
        '3'
    } else if d == 4 {
        '4'
    } else if d == 5 {
        '5'
    } else if d == 6 {
        '6'
    } else if d == 7 {
        '7'
    } else if d == 8 {
        '8'
    } else {
        '9'
    }
}

/// The decimal digits of `n`, most significant first, with no leading zero.
pub open spec fn decimal(n: nat) -> Seq<char>
    decreases n,
{
    if n < 10 {
        seq![digit_char(n as int)]
    } else {
        decimal(n / 10) + seq![digit_char((n % 10) as int)]
    }
}

/// An integer as a JSON number: a minus sign for a negative value, then
/// the decimal digits of its magnitude.
pub open spec fn number_json(n: int) -> Seq<char> {
    if n < 0 {
        seq!['-'] + decimal((-n) as nat)
    } else {
        decimal(n as nat)
    }
}

fn digit_text(d: u64) -> (r: &'static str)
    requires
        d < 10,
    ensures
        r@ == seq![digit_char(d as int)],
{
    proof {
        reveal_strlit("0");
        reveal_strlit("1");
        reveal_strlit("2");
        reveal_strlit("3");
        reveal_strlit("4");
        reveal_strlit("5");
        reveal_strlit("6");
        reveal_strlit("7");
        reveal_strlit("8");
        reveal_strlit("9");
    }
    let r = if d == 0 {
        "0"
    } else if d == 1 {
        "1"
    } else if d == 2 {
        "2"
    } else if d == 3 {
        "3"
    } else if d == 4 {
        "4"
    } else if d == 5 {
        "5"
    } else if d == 6 {
        "6"
    } else if d == 7 {
        "7"
    } else if d == 8 {
        "8"
    } else {
        "9"
    };
    assert(r@ =~= seq![digit_char(d as int)]);
    r
}

/// The decimal digits of `n`.
pub fn decimal_text(n: u64) -> (r: String)
    ensures
        r@ == decimal(n as nat),
    decreases n,
{
    if n < 10 {
        String::from_str(digit_text(n))
    } else {
        let mut s = decimal_text(n / 10);
        s.append(digit_text(n % 10));
        s
    }
}

/// `n` written as a JSON number.
pub fn number_text(n: i64) -> (r: String)
    ensures
        r@ == number_json(n as int),
{
    if n >= 0 {
        decimal_text(n as u64)
    } else {
        let magnitude: u64 = if n == i64::MIN {
            9223372036854775808
        } else {
            (-n) as u64
        };
        proof {
            reveal_strlit("-");
        }
        let mut s = String::from_str("-");
        s.append(decimal_text(magnitude).as_str());
        assert(s@ =~= number_json(n as int));
        s
    }
}

/// The JSON string for a status.
pub open spec fn status_json(st: Status) -> Seq<char> {
    match st {
        Status::Ready => "\"ready\""@,
        Status::Busy => "\"busy\""@,
        Status::Error => "\"error\""@,
    }
}

/// The JSON object `{status, player: {name, health, score}}` for `s`, with
/// the player's name already written as the JSON string `quoted_name`.
pub open spec fn state_frame(s: GameView, quoted_name: Seq<char>) -> Seq<char> {
    "{\"status\":"@ + status_json(s.status) + ",\"player\":{\"name\":"@ + quoted_name
        + ",\"health\":"@ + number_json(s.player.health) + ",\"score\":"@ + number_json(
        s.player.score,
    ) + "}}"@
}

/// The JSON object for a game state.
pub open spec fn state_json(s: GameView) -> Seq<char> {
    state_frame(s, json_string_of(s.player.name))
}

/// The JSON object `{action, result}` of an accepted action, or
/// `{action, result, reason}` of a refused one, with the action's kind and
/// the reason already written as JSON strings.
pub open spec fn outcome_frame(quoted_action: Seq<char>, quoted_reason: Option<Seq<char>>) -> Seq<
    char,
> {
    match quoted_reason {
        None => "{\"action\":"@ + quoted_action + ",\"result\":\"success\"}"@,
        Some(q) => "{\"action\":"@ + quoted_action + ",\"result\":\"rejected\",\"reason\":"@ + q
            + "}"@,
    }
}

fn status_text(st: Status) -> (r: &'static str)
    ensures
        r@ == status_json(st),
{
    match st {
        Status::Ready => "\"ready\"",
        Status::Busy => "\"busy\"",
        Status::Error => "\"error\"",
    }
}

/// Writes the JSON object for `s` around the quoted name `quoted_name`.
pub fn frame_state(s: &GameState, quoted_name: &str) -> (r: String)
    ensures
        r@ == state_frame(s@, quoted_name@),
{
    let mut t = String::from_str("{\"status\":");
    t.append(status_text(s.status));
    t.append(",\"player\":{\"name\":");
    t.append(quoted_name);
    t.append(",\"health\":");
    t.append(number_text(s.player.health).as_str());
    t.append(",\"score\":");
    t.append(number_text(s.player.score).as_str());
    t.append("}}");
    t
}

/// Writes the JSON object of an action's outcome around the quoted kind
/// and, for a refused action, the quoted reason.
pub fn frame_outcome(quoted_action: &str, quoted_reason: Option<&str>) -> (r: String)
    ensures
        r@ == outcome_frame(
            quoted_action@,
            match quoted_reason {
                None => None,
                Some(q) => Some(q@),
            },
        ),
{
    let mut t = String::from_str("{\"action\":");
    t.append(quoted_action);
    match quoted_reason {
        None => {
            t.append(",\"result\":\"success\"}");
        },
        Some(q) => {
            t.append(",\"result\":\"rejected\",\"reason\":");
            t.append(q);
            t.append("}");
        },
    }
    t
}

/// The JSON object for a game state.
pub fn state_to_json(s: &GameState) -> (r: String)
    ensures
        r@ == state_json(s@),
{
    let name = quote(s.player.name.as_str());
    frame_state(s, name.as_str())
}

} // verus!
