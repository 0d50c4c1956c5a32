//! The scoreboard, and the events that a frame gives off.

use vstd::prelude::*;

verus! {

/// The two counters, without a machine limit.
pub struct Scores {
    pub player: nat,
    pub computer: nat,
}

/// Points won so far by each side.
#[derive(Clone, Copy, Debug, PartialEq, Eq, Structural)]
pub struct Scoreboard {
    pub player: u32,
    pub computer: u32,
}

impl View for Scoreboard {
    type V = Scores;

    open spec fn view(&self) -> Scores {
        Scores { player: self.player as nat, computer: self.computer as nat }
    }
}

impl Default for Scoreboard {
    fn default() -> (s: Scoreboard)
        ensures
            s.player == 0,
            s.computer == 0,
    {
        Scoreboard { player: 0, computer: 0 }
    }
}

/// The ball left the court and was taken off it. `player_scored` says who
/// won the point.
#[derive(Clone, Copy, Debug, PartialEq, Eq, Structural)]
pub struct BallDestroyed {
    pub player_scored: bool,
}

/// The ball touched a wall or a paddle.
#[derive(Clone, Copy, Debug, PartialEq, Eq, Structural)]
pub struct BallCollided;

/// Marks a score display: `true` on the one that shows the player's
/// counter, `false` on the one that shows the computer's.
#[derive(Clone, Copy, Debug, PartialEq, Eq, Structural)]
pub struct Score(pub bool);

/// How many of `events` gave the point to the player (`to_player`) or to
/// the computer (`!to_player`).
pub open spec fn points(events: Seq<BallDestroyed>, to_player: bool) -> nat
    decreases events.len(),
{
    if events.len() == 0 {
        0
    } else {
        let earlier = points(events.drop_last(), to_player);
        if events.last().player_scored == to_player {
            earlier + 1
        } else {
            earlier
        }
    }
}

impl Scores {
    /// The counters once each of `events` has given its point.
    pub open spec fn awarded(self, events: Seq<BallDestroyed>) -> Scores {
        Scores {
            player: self.player + points(events, true),
            computer: self.computer + points(events, false),
        }
    }

    /// Whether both counters fit the scoreboard.
    pub open spec fn in_range(self) -> bool {
        self.player <= u32::MAX && self.computer <= u32::MAX
    }
}

impl Scoreboard {
    /// The counter that a display marked `score` shows.
    pub open spec fn counter(self, score: Score) -> u32 {
        if score.0 {
            self.player
        } else {
            self.computer
        }
    }

    /// Whether the scoreboard can take the points of `events`.
    pub fn can_award(&self, events: &Vec<BallDestroyed>) -> (fits: bool)
        ensures
            fits == self@.awarded(events@).in_range(),
    {
        let mut player: u64 = 0;
        let mut computer: u64 = 0;
        let mut i: usize = 0;
        while i < events.len()
            invariant
                i <= events.len(),
                player == points(events@.take(i as int), true),
                computer == points(events@.take(i as int), false),
                player + computer == i,
            decreases events.len() - i,
        {
            assert(events@.take(i + 1).drop_last() == events@.take(i as int));
            if events[i].player_scored {
                player = player + 1;
            } else {
                computer = computer + 1;
            }
            i = i + 1;
        }
        assert(events@.take(i as int) == events@);
        player <= (u32::MAX - self.player) as u64 && computer <= (u32::MAX - self.computer) as u64
    }

    /// Gives each event's point to the side that won it, and returns how
    /// often the score sound is due: once for each point of the player, and
    /// never for a point of the computer.
    pub fn award_points(&mut self, events: &Vec<BallDestroyed>) -> (sounds: usize)
        requires
            old(self)@.awarded(events@).in_range(),
        ensures
            final(self)@ == old(self)@.awarded(events@),
            sounds == points(events@, true),
    {
        let mut sounds: usize = 0;
        let mut i: usize = 0;
        while i < events.len()
            invariant
                i <= events.len(),
                sounds <= i,
                self@ == old(self)@.awarded(events@.take(i as int)),
                sounds == points(events@.take(i as int), true),
                old(self)@.awarded(events@).in_range(),
            decreases events.len() - i,
        {
            assert(events@.take(i + 1).drop_last() == events@.take(i as int));
            proof {
                points_grow(events@, i + 1, true);
                points_grow(events@, i + 1, false);
            }
            if events[i].player_scored {
                self.player = self.player + 1;
                sounds = sounds + 1;
            } else {
                self.computer = self.computer + 1;
            }
            i = i + 1;
        }
        assert(events@.take(i as int) == events@);
        sounds
    }
}

/// The events up to the `n`-th give no more points than all of them.
pub proof fn points_grow(events: Seq<BallDestroyed>, n: int, to_player: bool)
    requires
        0 <= n <= events.len(),
    ensures
        points(events.take(n), to_player) <= points(events, to_player),
    decreases events.len() - n,
{
    if n == events.len() {
        assert(events.take(n) == events);
    } else {
        points_grow(events, n + 1, to_player);
        assert(events.take(n + 1).drop_last() == events.take(n));
    }
}

} // verus!
