//! Score tracking and its display string.
//!
//! The scoreboard holds two counters. The display string is regenerated in
//! full from the counters, formatted as two lines:
//! `Player Score: {player_score}\nComputer Score: {opponent_score}`.

use vstd::prelude::*;
use vstd::string::StrSliceExecFns;
use vstd::string::StringExecFns;

verus! {

/// Two counters, living for the whole process; never reset, so scores
/// persist across a round trip through the main menu.
#[derive(Clone, Copy, PartialEq, Eq, Structural, Debug)]
pub struct Scoreboard {
    pub player_score: usize,
    pub opponent_score: usize,
}

impl Scoreboard {
    /// A fresh scoreboard with both counters at zero.
    pub fn new() -> (s: Scoreboard)
        ensures
            s.player_score == 0,
            s.opponent_score == 0,
    {
        Scoreboard { player_score: 0, opponent_score: 0 }
    }
}

/// The decimal digit character for a value below ten.
pub open spec fn dec_digit(d: nat) -> char {
    if d == 0 {
        '0'
    } else if d == 1 {
        '1'
    } else if d == 2 {
        '2'
    } else if d == 3 {
        '3'
    } else if d == 4 {
        '4'
    } else if d == 5 {
        '5'
    } else if d == 6 {
        '6'
    } else if d == 7 {
        '7'
    } else if d == 8 {
        '8'
    } else {
        '9'
    }
}

/// The decimal representation of a number, most significant digit first,
/// with no leading zeros (a single '0' for zero).
pub open spec fn dec_rep(n: nat) -> Seq<char>
    decreases n,
{
    if n < 10 {
        seq![dec_digit(n)]
    } else {
        dec_rep(n / 10).push(dec_digit(n % 10))
    }
}

/// The one-character string slice for a decimal digit.
fn digit_str(d: usize) -> (r: &'static str)
    requires
        d < 10,
    ensures
        r@ == seq![dec_digit(d as nat)],
{
    proof {
        reveal_strlit("0");
        reveal_strlit("1");
        reveal_strlit("2");
        reveal_strlit("3");
        reveal_strlit("4");
        reveal_strlit("5");
        reveal_strlit("6");
        reveal_strlit("7");
        reveal_strlit("8");
        reveal_strlit("9");
    }
    let r: &'static str = if d == 0 {
        "0"
    } else if d == 1 {
        "1"
    } else if d == 2 {
        "2"
    } else if d == 3 {
        "3"
    } else if d == 4 {
        "4"
    } else if d == 5 {
        "5"
    } else if d == 6 {
        "6"
    } else if d == 7 {
        "7"
    } else if d == 8 {
        "8"
    } else {
        "9"
    };
    proof {
        assert(r@ =~= seq![dec_digit(d as nat)]);
    }
    r
}

/// Format a number in decimal, matching `dec_rep` exactly.
pub fn usize_to_decimal(n: usize) -> (r: String)
    ensures
        r@ == dec_rep(n as nat),
    decreases n,
{
    if n < 10 {
        digit_str(n).to_owned()
    } else {
        let mut s = usize_to_decimal(n / 10);
        s.append(digit_str(n % 10));
        proof {
            assert(s@ =~= dec_rep(n as nat));
        }
        s
    }
}

/// The full scoreboard display string for the two counters.
pub open spec fn score_text(player_score: nat, opponent_score: nat) -> Seq<char> {
    "Player Score: "@ + dec_rep(player_score) + "\nComputer Score: "@ + dec_rep(opponent_score)
}

/// Regenerate the display string from the scoreboard:
/// `Player Score: {player_score}\nComputer Score: {opponent_score}`.
pub fn get_score_str(scoreboard: &Scoreboard) -> (r: String)
    ensures
        r@ == score_text(scoreboard.player_score as nat, scoreboard.opponent_score as nat),
{
    let mut s: String = "Player Score: ".to_owned();
    let player = usize_to_decimal(scoreboard.player_score);
    s.append(player.as_str());
    s.append("\nComputer Score: ");
    let opponent = usize_to_decimal(scoreboard.opponent_score);
    s.append(opponent.as_str());
    proof {
        assert(s@ =~= score_text(
            scoreboard.player_score as nat,
            scoreboard.opponent_score as nat,
        ));
    }
    s
}

} // verus!
