//! A two-player chess clock.
//!
//! A [`ChessTimer`] keeps one account of charged milliseconds per player. It
//! charges lazily: time is added to the current player's account when the
//! clock is stopped or the turn is switched, never in the background. In a
//! countdown a player whose account reaches their budget has expired: the
//! clock notifies its hook and stops.
//!
//! Every operation that depends on the time comes in two forms. The form
//! ending in `_at` takes the reading of the monotonic clock, in nanoseconds,
//! as an argument and says exactly what it does. The form without it takes
//! the reading itself and does the same for whatever the reading was.
//!
//! The contracts speak of a clock through its view, a
//! [`model::ClockModel`], and of the notifications it has sent through
//! [`ChessTimer::notified`].

mod expiry;
pub mod laws;
pub mod model;
mod time_source;

use crate::timer::expiry::ClosureHook;
use crate::timer::expiry::ExpiryHook;
use crate::timer::expiry::SilentHook;
use crate::timer::model::interval_ms;
use crate::timer::model::next_player;
use crate::timer::model::remaining_ms;
use crate::timer::model::ClockModel;
use crate::timer::model::NANOS_PER_MILLI;
use crate::timer::time_source::nanos_since;
use std::time::Instant;
use vstd::prelude::*;

verus! {

/// Number of players a clock keeps time for.
pub const SUPPORTED_PLAYERS: usize = 2;

/// Whether a clock depletes a budget or merely accumulates time.
#[derive(Debug, PartialEq, Eq, Clone, Copy, Structural)]
pub enum TimerDirection {
    /// Each player has a budget; using it up is an expiry.
    Down,
    /// Time accumulates without a cap.
    Up,
}

/// Why a clock could not be set up.
#[derive(Debug, PartialEq, Clone)]
pub enum TimerError {
    /// The settings contradict each other; the text says how.
    SettingsConflict(String),
}

/// The budgets a clock is set up with: those given, or zero for each player.
pub open spec fn budgets_or_zero(given: Option<[u32; SUPPORTED_PLAYERS]>) -> Seq<u32> {
    match given {
        Some(budgets) => budgets@,
        None => Seq::new(SUPPORTED_PLAYERS as nat, |p: int| 0u32),
    }
}

/// The switch adjustments a clock is set up with: those given, or zero for each player.
pub open spec fn adjustments_or_zero(given: Option<[i64; SUPPORTED_PLAYERS]>) -> Seq<i64> {
    match given {
        Some(adjustments) => adjustments@,
        None => Seq::new(SUPPORTED_PLAYERS as nat, |p: int| 0i64),
    }
}

/// Whole milliseconds that pass from reading `from_ns` to reading `to_ns`.
pub fn millis_between(from_ns: u128, to_ns: u128) -> (ms: i64)
    ensures
        ms == interval_ms(from_ns, to_ns),
{
    if to_ns <= from_ns {
        0
    } else {
        let whole: u128 = (to_ns - from_ns) / NANOS_PER_MILLI;
        if whole > i64::MAX as u128 {
            i64::MAX
        } else {
            whole as i64
        }
    }
}

/// A chess clock for two players.
pub struct ChessTimer<'a> {
    origin: Instant,
    started_at: Option<u128>,
    last_player_switch_at: Option<u128>,
    direction: TimerDirection,
    curr_player_index: Option<usize>,
    last_player_index: Option<usize>,
    player_elapsed_ms: [i64; SUPPORTED_PLAYERS],
    player_maxtime_ms: [u32; SUPPORTED_PLAYERS],
    player_adjust_on_switch_ms: [i64; SUPPORTED_PLAYERS],
    callback: Box<dyn ExpiryHook + 'a>,
}

impl<'a> View for ChessTimer<'a> {
    type V = ClockModel;

    closed spec fn view(&self) -> ClockModel {
        ClockModel {
            direction: self.direction,
            max_time_ms: self.player_maxtime_ms@,
            switch_adjustment_ms: self.player_adjust_on_switch_ms@,
            elapsed_ms: self.player_elapsed_ms@,
            running_since: self.started_at,
            last_switch_at: self.last_player_switch_at,
            current_player: self.curr_player_index,
            last_player: self.last_player_index,
        }
    }
}

impl<'a> ChessTimer<'a> {
    /// What holds of every clock between calls: its state is well formed and
    /// its hook can be told about every supported player.
    pub open spec fn wf(&self) -> bool {
        self@.wf() && self.hook_ready()
    }

    /// Whether the present hook may be called with the index of any supported
    /// player.
    pub closed spec fn hook_ready(&self) -> bool {
        self.callback.accepts_players()
    }

    /// The players the present hook has been notified about, oldest first.
    pub closed spec fn notified(&self) -> Seq<usize> {
        self.callback.delivered()
    }

    /// What a notification about `player` brings about with the present
    /// hook: whatever a call of the registered closure with `player`
    /// promises, and nothing in particular while no closure is registered.
    pub closed spec fn hook_brings_about(&self, player: usize) -> bool {
        self.callback.brings_about(player)
    }

    /// Whether this clock has the hook that `before` has: a notification
    /// brings about the same with either.
    pub open spec fn same_hook_as(&self, before: &Self) -> bool {
        forall|player: usize|
            #![trigger self.hook_brings_about(player)]
            #![trigger before.hook_brings_about(player)]
            self.hook_brings_about(player) == before.hook_brings_about(player)
    }

    /// Whether the present hook has brought about what a notification about
    /// each of `notices` brings about.
    pub open spec fn brought_about(&self, notices: Seq<usize>) -> bool {
        forall|i: int| 0 <= i < notices.len() ==> self.hook_brings_about(#[trigger] notices[i])
    }

    /// Sets up a stopped clock on which player 0 has the turn and nobody has
    /// been charged anything.
    ///
    /// A countdown needs budgets: without them the settings conflict. A
    /// count-up without budgets gets zero for each player; missing switch
    /// adjustments are zero.
    pub fn new(
        direction: TimerDirection,
        player_maxtime_ms: Option<[u32; SUPPORTED_PLAYERS]>,
        player_adjust_on_switch_ms: Option<[i64; SUPPORTED_PLAYERS]>,
    ) -> (result: Result<ChessTimer<'a>, TimerError>)
        ensures
            result is Err <==> direction == TimerDirection::Down && player_maxtime_ms is None,
            result matches Err(TimerError::SettingsConflict(reason)) ==> reason@
                == "Down counting timer requires a maxtime"@,
            result matches Ok(timer) ==> timer.wf(),
            result matches Ok(timer) ==> timer@ == ClockModel::initial(
                direction,
                budgets_or_zero(player_maxtime_ms),
                adjustments_or_zero(player_adjust_on_switch_ms),
            ),
            result matches Ok(timer) ==> timer.notified() == Seq::<usize>::empty(),
            result matches Ok(timer) ==> (forall|player: usize| timer.hook_brings_about(player)),
    {
        let player_maxtime_ms = match player_maxtime_ms {
            Some(maxtime) => maxtime,
            None => {
                if direction == TimerDirection::Down {
                    let string = "Down counting timer requires a maxtime".to_string();
                    return Err(TimerError::SettingsConflict(string));
                }
                [0, 0]
            },
        };

        let player_adjust_on_switch_ms = match player_adjust_on_switch_ms {
            Some(adjust) => adjust,
            None => [0, 0],
        };

        let timer = ChessTimer {
            origin: Instant::now(),
            started_at: None,
            last_player_switch_at: None,
            direction,
            curr_player_index: Some(0),
            last_player_index: None,
            player_elapsed_ms: [0, 0],
            player_maxtime_ms,
            player_adjust_on_switch_ms,
            callback: Box::new(SilentHook::new()),
        };
        Ok(timer)
    }

    /// Replaces the hook that is told when a player's time is up: from now
    /// on every notification is a call of `c` with the player's index. The
    /// hook that was there before is dropped and never called again; `c`
    /// itself is not called here.
    pub fn set_callback(&mut self, c: impl FnMut(usize) + 'a)
        requires
            old(self).wf(),
            forall|player: usize| player < SUPPORTED_PLAYERS ==> call_requires(c, (player,)),
        ensures
            final(self).wf(),
            final(self)@ == old(self)@,
            final(self).notified() == Seq::<usize>::empty(),
            forall|player: usize|
                final(self).hook_brings_about(player) == call_ensures(c, (player,), ()),
    {
        self.callback = Box::new(ClosureHook::new(c));
    }

    /// Tells the hook that `player`'s time is up.
    fn trigger_callback(&mut self, player: usize)
        requires
            old(self).wf(),
            player < SUPPORTED_PLAYERS,
        ensures
            final(self).wf(),
            final(self)@ == old(self)@,
            final(self).notified() == old(self).notified().push(player),
            final(self).hook_brings_about(player),
            final(self).same_hook_as(old(self)),
    {
        self.callback.notify(player);
    }

    /// Whether the clock keeps an account for `player`.
    pub fn player_index_supported(player: usize) -> (supported: bool)
        ensures
            supported == (player < SUPPORTED_PLAYERS),
    {
        player < SUPPORTED_PLAYERS
    }

    /// Converts charged time into remaining time.
    ///
    /// Nothing is left once `elapsed` reaches `last_remaining`. A negative
    /// `elapsed` is banked time and adds to what is left, up to `u32::MAX`.
    pub fn elapsed_to_remaining(elapsed: i64, last_remaining: u32) -> (remaining: u32)
        ensures
            remaining == remaining_ms(elapsed as int, last_remaining as int),
    {
        if elapsed >= last_remaining as i64 {
            return 0;
        }
        if elapsed < 0 {
            let max_allowed_timelapse: u32 = u32::MAX - last_remaining;
            if elapsed <= -(max_allowed_timelapse as i64) {
                return u32::MAX;
            }
            (-elapsed) as u32 + last_remaining
        } else {
            last_remaining - elapsed as u32
        }
    }

    /// The player who has the turn.
    pub fn current_player(&self) -> (player: Option<usize>)
        ensures
            player == self@.current_player,
    {
        self.curr_player_index
    }

    /// What `player` has been charged so far, in milliseconds.
    pub fn check_elapsed_time_for_player(&self, player: usize) -> (elapsed: Option<i64>)
        ensures
            elapsed == self@.elapsed_of(player),
    {
        if !Self::player_index_supported(player) {
            return None;
        }
        Some(self.player_elapsed_ms[player])
    }

    /// What is left of `player`'s budget, in milliseconds.
    pub fn check_remaining_time_for_player(&self, player: usize) -> (remaining: Option<u32>)
        ensures
            remaining == self@.remaining_of(player),
    {
        if let Some(elapsed) = self.check_elapsed_time_for_player(player) {
            Some(Self::elapsed_to_remaining(elapsed, self.player_maxtime_ms[player]))
        } else {
            None
        }
    }

    /// Adds `delta_ms` to `player`'s account and says whether that leaves the
    /// player without time.
    fn charge(&mut self, player: usize, delta_ms: i64) -> (expired: bool)
        requires
            old(self).wf(),
            player < SUPPORTED_PLAYERS,
        ensures
            final(self).wf(),
            final(self)@ == old(self)@.charge(player, delta_ms),
            expired == final(self)@.expired(player),
            final(self).notified() == old(self).notified(),
            final(self).same_hook_as(old(self)),
    {
        let sum: i128 = self.player_elapsed_ms[player] as i128 + delta_ms as i128;
        let budget: i64 = self.player_maxtime_ms[player] as i64;
        let charged: i64 = if self.direction == TimerDirection::Down && sum >= budget as i128 {
            budget
        } else if sum < i64::MIN as i128 {
            i64::MIN
        } else if sum > i64::MAX as i128 {
            i64::MAX
        } else {
            sum as i64
        };
        self.player_elapsed_ms[player] = charged;
        charged >= budget
    }

    /// Starts the clock: [`Self::start_at`] at the present reading of the
    /// monotonic clock.
    ///
    /// A clock that runs already is left as it is; no notice is sent either way.
    pub fn start(&mut self)
        requires
            old(self).wf(),
        ensures
            final(self).wf(),
            (exists|now: u128| final(self)@ == old(self)@.start(now)),
            old(self)@.is_running() ==> final(self)@ == old(self)@,
            final(self)@.is_running(),
            final(self)@.elapsed_ms == old(self)@.elapsed_ms,
            final(self)@.current_player == (if old(self)@.is_running() || old(self)@.last_player
                is None {
                old(self)@.current_player
            } else {
                old(self)@.last_player
            }),
            final(self).notified() == old(self).notified(),
            final(self).same_hook_as(old(self)),
    {
        let now: u128 = nanos_since(&self.origin);
        self.start_at(now);
    }

    /// Starts the clock at reading `now`.
    ///
    /// A clock that runs already is left as it is. Else the player remembered
    /// from before the last switch, if there is one, gets the turn.
    pub fn start_at(&mut self, now: u128)
        requires
            old(self).wf(),
        ensures
            final(self).wf(),
            final(self)@ == old(self)@.start(now),
            final(self).notified() == old(self).notified(),
            final(self).same_hook_as(old(self)),
    {
        if self.started_at.is_some() {
            return;
        }
        if let Some(last_player) = self.last_player_index {
            self.curr_player_index = Some(last_player);
            self.last_player_index = None;
        }
        self.started_at = Some(now);
        self.last_player_switch_at = Some(now);
    }

    /// Stops the clock: [`Self::stop_at`] at the present reading of the
    /// monotonic clock.
    ///
    /// A clock that does not run is left as it is and sends no notice.
    pub fn stop(&mut self)
        requires
            old(self).wf(),
        ensures
            final(self).wf(),
            (exists|now: u128|
                final(self)@ == old(self)@.stop(now) && final(self).notified() == old(
                    self
                ).notified() + old(self)@.stop_notices(now) && final(self).brought_about(
                    old(self)@.stop_notices(now),
                )),
            final(self).same_hook_as(old(self)),
            !old(self)@.is_running() ==> final(self)@ == old(self)@ && final(self).notified()
                == old(self).notified(),
            !final(self)@.is_running(),
            final(self)@.current_player == old(self)@.current_player,
            final(self)@.last_player == old(self)@.last_player,
    {
        let now: u128 = nanos_since(&self.origin);
        self.stop_at(now);
    }

    /// Stops the clock at reading `now`.
    ///
    /// The player on turn is charged for the run and notified about if that
    /// uses up their time. The clock counts as stopped before the charge is
    /// made, so an expiry found while stopping stops nothing a second time.
    pub fn stop_at(&mut self, now: u128)
        requires
            old(self).wf(),
        ensures
            final(self).wf(),
            final(self)@ == old(self)@.stop(now),
            final(self).notified() == old(self).notified() + old(self)@.stop_notices(now),
            final(self).brought_about(old(self)@.stop_notices(now)),
            final(self).same_hook_as(old(self)),
    {
        let started_at: u128 = match self.started_at {
            Some(started_at) => started_at,
            None => {
                return;
            },
        };
        if let Some(current_player) = self.curr_player_index {
            let benchmark: u128 = match self.last_player_switch_at {
                Some(switched_at) => if switched_at >= started_at {
                    switched_at
                } else {
                    started_at
                },
                None => started_at,
            };
            self.started_at = None;
            assert(self.same_hook_as(old(self)));
            let expired: bool = self.charge(current_player, millis_between(benchmark, now));
            self.last_player_switch_at = Some(now);
            if expired {
                self.trigger_callback(current_player);
            }
        }
    }

    /// Adjusts `player`'s account by `adjustment_ms`:
    /// [`Self::adjust_elapsed_time_for_player_at`] at the present reading of
    /// the monotonic clock.
    ///
    /// The reading matters only where the adjustment leaves the player
    /// without time while the clock runs. In every other case the outcome is
    /// the plain charge, with a notice if the player is left without time.
    ///
    /// An adjustment that leaves the player without time sends one notice,
    /// for that player, and stops the clock. If the clock was running, the
    /// stop charges the player on turn for the run, and if that leaves them
    /// without time it sends a notice for them as well. So an adjustment that
    /// uses up the time of the player on turn of a running clock notifies the
    /// hook about that player twice.
    pub fn adjust_elapsed_time_for_player(&mut self, player: usize, adjustment_ms: i64)
        requires
            old(self).wf(),
        ensures
            final(self).wf(),
            (exists|now: u128|
                final(self)@ == old(self)@.adjust(player, adjustment_ms, now) && final(
                    self
                ).notified() == old(self).notified() + old(self)@.adjust_notices(
                    player,
                    adjustment_ms,
                    now,
                ) && final(self).brought_about(
                    old(self)@.adjust_notices(player, adjustment_ms, now),
                )),
            final(self).same_hook_as(old(self)),
            player >= SUPPORTED_PLAYERS ==> final(self)@ == old(self)@ && final(self).notified()
                == old(self).notified(),
            player < SUPPORTED_PLAYERS && !(old(self)@.is_running() && old(self)@.charge(
                player,
                adjustment_ms,
            ).expired(player)) ==> final(self)@ == old(self)@.charge(player, adjustment_ms),
            player < SUPPORTED_PLAYERS && !old(self)@.is_running() ==> final(self).notified() == (
            if final(self)@.expired(player) {
                old(self).notified().push(player)
            } else {
                old(self).notified()
            }),
            player < SUPPORTED_PLAYERS && !old(self)@.charge(player, adjustment_ms).expired(
                player,
            ) ==> final(self).notified() == old(self).notified(),
            player < SUPPORTED_PLAYERS && old(self)@.charge(player, adjustment_ms).expired(
                player,
            ) ==> final(self).hook_brings_about(player),
    {
        let now: u128 = nanos_since(&self.origin);
        self.adjust_elapsed_time_for_player_at(player, adjustment_ms, now);
    }

    /// Adjusts `player`'s account by `adjustment_ms` at reading `now`.
    ///
    /// A countdown stops counting at the budget; a count-up has no cap. If the
    /// adjustment leaves the player without time, the hook is notified and the
    /// clock is stopped at `now`. A player the clock does not know changes
    /// nothing.
    ///
    /// Stopping a running clock charges the player on turn, and a charge that
    /// leaves them without time is notified like any other. So there are two
    /// notices where both the adjusted player and the player on turn end up
    /// without time, and both are for the same player where the adjustment
    /// uses up the time of the player on turn of a running clock.
    pub fn adjust_elapsed_time_for_player_at(&mut self, player: usize, adjustment_ms: i64, now: u128)
        requires
            old(self).wf(),
        ensures
            final(self).wf(),
            final(self)@ == old(self)@.adjust(player, adjustment_ms, now),
            final(self).notified() == old(self).notified() + old(self)@.adjust_notices(
                player,
                adjustment_ms,
                now,
            ),
            final(self).brought_about(old(self)@.adjust_notices(player, adjustment_ms, now)),
            player < SUPPORTED_PLAYERS && old(self)@.charge(player, adjustment_ms).expired(
                player,
            ) ==> final(self).hook_brings_about(player),
            final(self).same_hook_as(old(self)),
    {
        if !Self::player_index_supported(player) {
            return;
        }
        let expired: bool = self.charge(player, adjustment_ms);
        if expired {
            self.trigger_callback(player);
            self.stop_at(now);
        }
    }

    /// Hands the turn to `player`: [`Self::switch_to_player_at`] at the
    /// present reading of the monotonic clock.
    ///
    /// A player the clock does not know changes nothing.
    pub fn switch_to_player(&mut self, player: usize)
        requires
            old(self).wf(),
        ensures
            final(self).wf(),
            (exists|now: u128|
                final(self)@ == old(self)@.switch_to(player, now) && final(self).notified()
                    == old(self).notified() + old(self)@.switch_notices(player, now) && final(
                    self
                ).brought_about(old(self)@.switch_notices(player, now))),
            final(self).same_hook_as(old(self)),
            player >= SUPPORTED_PLAYERS ==> final(self)@ == old(self)@ && final(self).notified()
                == old(self).notified(),
            player < SUPPORTED_PLAYERS ==> final(self)@.current_player == Some(player),
            player < SUPPORTED_PLAYERS ==> final(self)@.last_player == old(self)@.current_player,
    {
        let now: u128 = nanos_since(&self.origin);
        self.switch_to_player_at(player, now);
    }

    /// Hands the turn to `player` at reading `now`.
    ///
    /// Once a timestamp has been recorded, the outgoing player is first
    /// charged the time since the last switch less their switch adjustment,
    /// as an adjustment of their account. Then the outgoing player is
    /// remembered as the last one and `player` gets the turn. A player the
    /// clock does not know changes nothing.
    pub fn switch_to_player_at(&mut self, player: usize, now: u128)
        requires
            old(self).wf(),
        ensures
            final(self).wf(),
            final(self)@ == old(self)@.switch_to(player, now),
            final(self).notified() == old(self).notified() + old(self)@.switch_notices(player, now),
            final(self).brought_about(old(self)@.switch_notices(player, now)),
            final(self).same_hook_as(old(self)),
    {
        if !Self::player_index_supported(player) {
            return;
        }
        if let Some(last_player_switch_at) = self.last_player_switch_at {
            if let Some(current_player) = self.curr_player_index {
                let last_switch: i128 = millis_between(last_player_switch_at, now) as i128;
                let adjust_on_switch: i128 = self.player_adjust_on_switch_ms[current_player] as i128;
                let net: i128 = last_switch - adjust_on_switch;
                let net_charge: i64 = if net > i64::MAX as i128 {
                    i64::MAX
                } else {
                    net as i64
                };
                self.adjust_elapsed_time_for_player_at(current_player, net_charge, now);
            }
        }
        self.last_player_index = self.curr_player_index;
        self.last_player_switch_at = Some(now);
        self.curr_player_index = Some(player);
    }

    /// Hands the turn to the next player in order:
    /// [`Self::switch_to_next_player_at`] at the present reading of the
    /// monotonic clock.
    pub fn switch_to_next_player(&mut self)
        requires
            old(self).wf(),
        ensures
            final(self).wf(),
            (exists|now: u128|
                final(self)@ == old(self)@.switch_to_next(now) && final(self).notified() == old(
                    self
                ).notified() + old(self)@.switch_to_next_notices(now) && final(
                    self
                ).brought_about(old(self)@.switch_to_next_notices(now))),
            final(self).same_hook_as(old(self)),
            old(self)@.current_player matches Some(current) ==> final(self)@.current_player
                == Some(next_player(current)),
            final(self)@.last_player == old(self)@.current_player,
    {
        let now: u128 = nanos_since(&self.origin);
        self.switch_to_next_player_at(now);
    }

    /// Hands the turn to the next player in order at reading `now`.
    pub fn switch_to_next_player_at(&mut self, now: u128)
        requires
            old(self).wf(),
        ensures
            final(self).wf(),
            final(self)@ == old(self)@.switch_to_next(now),
            final(self).notified() == old(self).notified() + old(self)@.switch_to_next_notices(now),
            final(self).brought_about(old(self)@.switch_to_next_notices(now)),
            final(self).same_hook_as(old(self)),
    {
        if let Some(current_player) = self.curr_player_index {
            let provisional: usize = current_player + 1;
            let next: usize = if provisional >= SUPPORTED_PLAYERS {
                0
            } else {
                provisional
            };
            self.switch_to_player_at(next, now);
        }
    }
}

} // verus!
