//! The chess clock as a mathematical state machine.
//!
//! A [`ClockModel`] is what a clock is worth to its callers: the per-player
//! accounts, the two timestamps and the two player markers. Every operation of
//! the clock is a function from one model to the next, given the reading of the
//! monotonic clock at which it happens, and comes with the list of players it
//! notifies the hook about. Readings are nanoseconds; accounts are
//! milliseconds.
//!
//! An account that reaches its budget is an expiry, and an expiry stops the
//! clock. Stopping charges the player on turn, which can be an expiry in its
//! turn; by then the clock counts as stopped, so that expiry is notified and
//! nothing more is stopped.

use crate::timer::TimerDirection;
use crate::timer::SUPPORTED_PLAYERS;
use vstd::prelude::*;

verus! {

/// Nanoseconds in one millisecond.
pub const NANOS_PER_MILLI: u128 = 1_000_000;

/// The `i64` nearest to `x`.
pub open spec fn saturate_i64(x: int) -> i64 {
    if x < i64::MIN {
        i64::MIN
    } else if x > i64::MAX {
        i64::MAX
    } else {
        x as i64
    }
}

/// Whole milliseconds that pass from reading `from_ns` to reading `to_ns`:
/// zero if `to_ns` is not the later one.
pub open spec fn interval_ms(from_ns: u128, to_ns: u128) -> i64 {
    if to_ns <= from_ns {
        0
    } else {
        saturate_i64((to_ns - from_ns) / (NANOS_PER_MILLI as int))
    }
}

/// The later of the last switch and the start of the run; the start where no
/// switch has been recorded.
pub open spec fn later_of(last_switch_at: Option<u128>, running_since: u128) -> u128 {
    match last_switch_at {
        Some(switched) if switched >= running_since => switched,
        _ => running_since,
    }
}

/// The player whose turn follows `player`'s: the next one in order, and the
/// first one after the last.
pub open spec fn next_player(player: usize) -> usize {
    ((player + 1) % (SUPPORTED_PLAYERS as int)) as usize
}

/// Time left of a budget of `budget_ms` once `elapsed_ms` have been charged
/// against it: the difference, kept within the range of a `u32`.
pub open spec fn remaining_ms(elapsed_ms: int, budget_ms: int) -> int {
    if elapsed_ms >= budget_ms {
        0
    } else if budget_ms - elapsed_ms >= u32::MAX {
        u32::MAX as int
    } else {
        budget_ms - elapsed_ms
    }
}

/// The state of a chess clock.
#[verifier::ext_equal]
pub ghost struct ClockModel {
    /// Counting down a budget, or counting up without one.
    pub direction: TimerDirection,
    /// Each player's budget in milliseconds. Only a countdown reads it.
    pub max_time_ms: Seq<u32>,
    /// What a player is given back, in milliseconds, when their turn ends.
    pub switch_adjustment_ms: Seq<i64>,
    /// What each player has been charged so far. Negative means banked time.
    pub elapsed_ms: Seq<i64>,
    /// When the clock was last started; `None` while it is stopped.
    pub running_since: Option<u128>,
    /// When the clock was last started, stopped or switched.
    pub last_switch_at: Option<u128>,
    /// The player whose account is open.
    pub current_player: Option<usize>,
    /// The player who had the turn before the last switch.
    pub last_player: Option<usize>,
}

impl ClockModel {
    /// The state of a clock that has just been set up and never started.
    pub open spec fn initial(
        direction: TimerDirection,
        max_time_ms: Seq<u32>,
        switch_adjustment_ms: Seq<i64>,
    ) -> ClockModel {
        ClockModel {
            direction,
            max_time_ms,
            switch_adjustment_ms,
            elapsed_ms: Seq::new(SUPPORTED_PLAYERS as nat, |p: int| 0i64),
            running_since: None,
            last_switch_at: None,
            current_player: Some(0usize),
            last_player: None,
        }
    }

    /// What holds of every clock: there is an account for each player, the
    /// markers name players, someone has the turn, and a countdown never
    /// charges a player more than their budget.
    pub open spec fn wf(self) -> bool {
        &&& self.max_time_ms.len() == SUPPORTED_PLAYERS
        &&& self.switch_adjustment_ms.len() == SUPPORTED_PLAYERS
        &&& self.elapsed_ms.len() == SUPPORTED_PLAYERS
        &&& self.within_budget()
        &&& (self.current_player matches Some(current) && current < SUPPORTED_PLAYERS)
        &&& (self.last_player matches Some(last) ==> last < SUPPORTED_PLAYERS)
    }

    /// In a countdown no player has been charged more than their budget.
    pub open spec fn within_budget(self) -> bool {
        self.direction == TimerDirection::Down ==> forall|p: int|
            0 <= p < SUPPORTED_PLAYERS ==> self.elapsed_ms[p] <= self.max_time_ms[p]
    }

    /// Whether the clock runs.
    pub open spec fn is_running(self) -> bool {
        self.running_since is Some
    }

    /// Whether `player` has used up their budget. In a count-up the budget is
    /// zero, so this holds as soon as the account is not negative.
    pub open spec fn expired(self, player: usize) -> bool {
        self.elapsed_ms[player as int] >= self.max_time_ms[player as int]
    }

    /// `player`'s account after `delta_ms` is added to it: a countdown stops at
    /// the budget, and the account stays within the range of an `i64`.
    pub open spec fn charged(self, player: usize, delta_ms: i64) -> i64 {
        let sum = self.elapsed_ms[player as int] + delta_ms;
        let budget = self.max_time_ms[player as int];
        if self.direction == TimerDirection::Down && sum >= budget {
            budget as i64
        } else {
            saturate_i64(sum)
        }
    }

    /// The clock after `delta_ms` is added to `player`'s account.
    pub open spec fn charge(self, player: usize, delta_ms: i64) -> ClockModel {
        ClockModel {
            elapsed_ms: self.elapsed_ms.update(player as int, self.charged(player, delta_ms)),
            ..self
        }
    }

    /// Starting at reading `now`: nothing if the clock runs already; else the
    /// player remembered from before the last switch, if any, gets the turn,
    /// and both timestamps are set.
    pub open spec fn start(self, now: u128) -> ClockModel {
        if self.is_running() {
            self
        } else {
            ClockModel {
                current_player: if self.last_player is Some {
                    self.last_player
                } else {
                    self.current_player
                },
                last_player: None,
                running_since: Some(now),
                last_switch_at: Some(now),
                ..self
            }
        }
    }

    /// What the current player is charged when a running clock is stopped at
    /// reading `now`.
    pub open spec fn running_interval_ms(self, now: u128) -> i64 {
        interval_ms(later_of(self.last_switch_at, self.running_since.unwrap()), now)
    }

    /// Stopping at reading `now`: nothing if the clock does not run; else the
    /// clock is marked as stopped and the current player is charged for the
    /// time since the later of the last switch and the start. The current
    /// player keeps the turn.
    pub open spec fn stop(self, now: u128) -> ClockModel {
        match (self.running_since, self.current_player) {
            (Some(_), Some(current)) => ClockModel {
                running_since: None,
                last_switch_at: Some(now),
                ..self.charge(current, self.running_interval_ms(now))
            },
            _ => self,
        }
    }

    /// Whom stopping at reading `now` notifies: the current player, if the
    /// charge leaves them without time.
    pub open spec fn stop_notices(self, now: u128) -> Seq<usize> {
        match (self.running_since, self.current_player) {
            (Some(_), Some(current)) => if self.stop(now).expired(current) {
                seq![current]
            } else {
                Seq::empty()
            },
            _ => Seq::empty(),
        }
    }

    /// Adjusting `player`'s account by `delta_ms` at reading `now`: nothing for
    /// a player the clock does not know; else the account is charged, and if
    /// that leaves the player without time the clock is stopped.
    pub open spec fn adjust(self, player: usize, delta_ms: i64, now: u128) -> ClockModel {
        if player < SUPPORTED_PLAYERS {
            let charged = self.charge(player, delta_ms);
            if charged.expired(player) {
                charged.stop(now)
            } else {
                charged
            }
        } else {
            self
        }
    }

    /// Whom that adjustment notifies: `player`, if it leaves them without
    /// time, and then whomever the stop notifies.
    pub open spec fn adjust_notices(self, player: usize, delta_ms: i64, now: u128) -> Seq<usize> {
        if player < SUPPORTED_PLAYERS && self.charge(player, delta_ms).expired(player) {
            seq![player] + self.charge(player, delta_ms).stop_notices(now)
        } else {
            Seq::empty()
        }
    }

    /// What the outgoing player is charged for a switch at reading `now`: the
    /// time since the last switch, less their switch adjustment.
    pub open spec fn switch_charge_ms(self, outgoing: usize, now: u128) -> i64 {
        saturate_i64(
            interval_ms(self.last_switch_at.unwrap(), now)
                - self.switch_adjustment_ms[outgoing as int],
        )
    }

    /// The clock after the outgoing player has paid for a switch at reading
    /// `now`. Nothing is charged before the first timestamp is recorded.
    pub open spec fn settle_outgoing(self, now: u128) -> ClockModel {
        match (self.last_switch_at, self.current_player) {
            (Some(_), Some(outgoing)) => self.adjust(
                outgoing,
                self.switch_charge_ms(outgoing, now),
                now,
            ),
            _ => self,
        }
    }

    /// Handing the turn to `player` at reading `now`: nothing for a player the
    /// clock does not know; else the outgoing player pays, is remembered as the
    /// last player, and `player` gets the turn.
    pub open spec fn switch_to(self, player: usize, now: u128) -> ClockModel {
        if player < SUPPORTED_PLAYERS {
            ClockModel {
                last_player: self.current_player,
                last_switch_at: Some(now),
                current_player: Some(player),
                ..self.settle_outgoing(now)
            }
        } else {
            self
        }
    }

    /// Whom that switch notifies.
    pub open spec fn switch_notices(self, player: usize, now: u128) -> Seq<usize> {
        match (self.last_switch_at, self.current_player) {
            (Some(_), Some(outgoing)) if player < SUPPORTED_PLAYERS => self.adjust_notices(
                outgoing,
                self.switch_charge_ms(outgoing, now),
                now,
            ),
            _ => Seq::empty(),
        }
    }

    /// Handing the turn to the next player in order at reading `now`.
    pub open spec fn switch_to_next(self, now: u128) -> ClockModel {
        match self.current_player {
            Some(current) => self.switch_to(next_player(current), now),
            None => self,
        }
    }

    /// Whom that switch notifies.
    pub open spec fn switch_to_next_notices(self, now: u128) -> Seq<usize> {
        match self.current_player {
            Some(current) => self.switch_notices(next_player(current), now),
            None => Seq::empty(),
        }
    }

    /// `player`'s account, if the clock knows the player.
    pub open spec fn elapsed_of(self, player: usize) -> Option<i64> {
        if player < SUPPORTED_PLAYERS {
            Some(self.elapsed_ms[player as int])
        } else {
            None
        }
    }

    /// What is left of `player`'s budget, if the clock knows the player.
    pub open spec fn remaining_of(self, player: usize) -> Option<u32> {
        if player < SUPPORTED_PLAYERS {
            Some(
                remaining_ms(
                    self.elapsed_ms[player as int] as int,
                    self.max_time_ms[player as int] as int,
                ) as u32,
            )
        } else {
            None
        }
    }
}

} // verus!
