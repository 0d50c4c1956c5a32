//! What the two score displays show.

use vstd::prelude::*;
use crate::score::{Score, Scoreboard};

verus! {

/// The character for a digit below ten.
pub open spec fn digit(d: nat) -> char {
    if d == 0 {
        '0'
    } else if d == 1 {
        '1'
    } else if d == 2 {
        '2'
    } else if d == 3 {
        '3'
    } else if d == 4 {
        '4'
    } else if d == 5 {
        '5'
    } else if d == 6 {
        '6'
    } else if d == 7 {
        '7'
    } else if d == 8 {
        '8'
    } else {
        '9'
    }
}

/// A number written in decimal digits, without leading zeros.
pub open spec fn decimal(n: nat) -> Seq<char>
    decreases n,
{
    if n < 10 {
        seq![digit(n)]
    } else {
        decimal(n / 10).push(digit(n % 10))
    }
}

/// The one-character text for a digit below ten.
fn digit_text(d: u32) -> (text: &'static str)
    requires
        d < 10,
    ensures
        text@ == seq![digit(d as nat)],
{
    proof {
        reveal_strlit("0");
        reveal_strlit("1");
        reveal_strlit("2");
        reveal_strlit("3");
        reveal_strlit("4");
        reveal_strlit("5");
        reveal_strlit("6");
        reveal_strlit("7");
        reveal_strlit("8");
        reveal_strlit("9");
    }
    let text = if d == 0 {
        "0"
    } else if d == 1 {
        "1"
    } else if d == 2 {
        "2"
    } else if d == 3 {
        "3"
    } else if d == 4 {
        "4"
    } else if d == 5 {
        "5"
    } else if d == 6 {
        "6"
    } else if d == 7 {
        "7"
    } else if d == 8 {
        "8"
    } else {
        "9"
    };
    assert(text@ =~= seq![digit(d as nat)]);
    text
}

/// A counter written in decimal digits.
pub fn decimal_text(n: u32) -> (text: String)
    ensures
        text@ == decimal(n as nat),
    decreases n,
{
    let last = digit_text(n % 10);
    if n < 10 {
        String::from_str(last)
    } else {
        let mut text = decimal_text(n / 10);
        text.append(last);
        assert(text@ =~= decimal(n as nat));
        text
    }
}

impl Score {
    /// The counter that the display marked `self` shows.
    pub fn shown(&self, scoreboard: &Scoreboard) -> (n: u32)
        ensures
            n == scoreboard.counter(*self),
    {
        if self.0 {
            scoreboard.player
        } else {
            scoreboard.computer
        }
    }
}

/// The text of each score display: the counter that its mark names, in
/// decimal digits.
pub fn update_scores(scoreboard: &Scoreboard, displays: &Vec<Score>) -> (texts: Vec<String>)
    ensures
        texts.len() == displays.len(),
        forall|i: int|
            0 <= i < displays.len() ==> (#[trigger] texts[i])@ == decimal(
                scoreboard.counter(displays[i]) as nat,
            ),
{
    let mut texts: Vec<String> = Vec::new();
    let mut i: usize = 0;
    while i < displays.len()
        invariant
            i <= displays.len(),
            texts.len() == i,
            forall|j: int|
                0 <= j < i ==> (#[trigger] texts[j])@ == decimal(
                    scoreboard.counter(displays[j]) as nat,
                ),
        decreases displays.len() - i,
    {
        let n: u32 = displays[i].shown(scoreboard);
        texts.push(decimal_text(n));
        i = i + 1;
    }
    texts
}

} // verus!
