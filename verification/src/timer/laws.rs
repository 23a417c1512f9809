//! What holds of the clock whatever is done with it.
//!
//! The laws are stated over [`ClockModel`], the state that the contracts of
//! [`crate::timer::ChessTimer`] speak of, so each of them holds of every clock
//! and of every reading of the monotonic clock.

use crate::timer::model::interval_ms;
use crate::timer::model::remaining_ms;
use crate::timer::model::saturate_i64;
use crate::timer::model::ClockModel;
use crate::timer::TimerDirection;
use crate::timer::SUPPORTED_PLAYERS;
use vstd::prelude::*;

verus! {

/// One thing that can be done with a clock, with the reading at which it is done.
pub ghost enum ClockOp {
    Start { now: u128 },
    Stop { now: u128 },
    Adjust { player: usize, delta_ms: i64, now: u128 },
    SwitchTo { player: usize, now: u128 },
    SwitchToNext { now: u128 },
}

impl ClockModel {
    /// The clock after `op`.
    pub open spec fn apply(self, op: ClockOp) -> ClockModel {
        match op {
            ClockOp::Start { now } => self.start(now),
            ClockOp::Stop { now } => self.stop(now),
            ClockOp::Adjust { player, delta_ms, now } => self.adjust(player, delta_ms, now),
            ClockOp::SwitchTo { player, now } => self.switch_to(player, now),
            ClockOp::SwitchToNext { now } => self.switch_to_next(now),
        }
    }

    /// The clock after all of `ops`, first to last.
    pub open spec fn run(self, ops: Seq<ClockOp>) -> ClockModel
        decreases ops.len(),
    {
        if ops.len() == 0 {
            self
        } else {
            self.run(ops.drop_last()).apply(ops.last())
        }
    }
}

/// A charge keeps a clock well formed and touches nothing but the one account.
pub proof fn lemma_charge_keeps_wf(clock: ClockModel, player: usize, delta_ms: i64)
    requires
        clock.wf(),
        player < SUPPORTED_PLAYERS,
    ensures
        clock.charge(player, delta_ms).wf(),
        clock.direction == TimerDirection::Down ==> clock.charged(player, delta_ms)
            <= clock.max_time_ms[player as int],
        forall|other: int|
            0 <= other < SUPPORTED_PLAYERS && other != player ==> clock.charge(
                player,
                delta_ms,
            ).elapsed_ms[other] == clock.elapsed_ms[other],
{
}

/// Every operation keeps a clock well formed, and none of them changes the
/// direction, the budgets or the switch adjustments.
pub proof fn lemma_apply_keeps_wf(clock: ClockModel, op: ClockOp)
    requires
        clock.wf(),
    ensures
        clock.apply(op).wf(),
        clock.apply(op).direction == clock.direction,
        clock.apply(op).max_time_ms == clock.max_time_ms,
        clock.apply(op).switch_adjustment_ms == clock.switch_adjustment_ms,
{
}

/// Whatever is done to a countdown, in whatever order and at whatever
/// readings, no player is ever charged more than their budget.
pub proof fn lemma_countdown_never_exceeds_budget(clock: ClockModel, ops: Seq<ClockOp>)
    requires
        clock.wf(),
        clock.direction == TimerDirection::Down,
    ensures
        clock.run(ops).wf(),
        clock.run(ops).max_time_ms == clock.max_time_ms,
        forall|player: int|
            0 <= player < SUPPORTED_PLAYERS ==> clock.run(ops).elapsed_ms[player]
                <= clock.max_time_ms[player],
{
    lemma_run_keeps_wf(clock, ops);
}

/// Any sequence of operations keeps a clock well formed and leaves its
/// settings as they were.
pub proof fn lemma_run_keeps_wf(clock: ClockModel, ops: Seq<ClockOp>)
    requires
        clock.wf(),
    ensures
        clock.run(ops).wf(),
        clock.run(ops).direction == clock.direction,
        clock.run(ops).max_time_ms == clock.max_time_ms,
        clock.run(ops).switch_adjustment_ms == clock.switch_adjustment_ms,
    decreases ops.len(),
{
    if ops.len() > 0 {
        lemma_run_keeps_wf(clock, ops.drop_last());
        lemma_apply_keeps_wf(clock.run(ops.drop_last()), ops.last());
    }
}

/// A start on a running clock changes nothing, so two starts in a row leave
/// `running_since` where the first one set it.
pub proof fn lemma_start_is_idempotent(clock: ClockModel, first: u128, second: u128)
    ensures
        clock.is_running() ==> clock.start(first) == clock,
        clock.start(first).start(second) == clock.start(first),
        clock.start(first).start(second).running_since == clock.start(first).running_since,
{
}

/// A stop on a stopped clock changes nothing and notifies nobody, so a second
/// stop in a row charges nothing.
pub proof fn lemma_stop_is_idempotent(clock: ClockModel, first: u128, second: u128)
    requires
        clock.wf(),
    ensures
        !clock.is_running() ==> clock.stop(first) == clock && clock.stop_notices(first)
            == Seq::<usize>::empty(),
        clock.stop(first).stop(second) == clock.stop(first),
        clock.stop(first).stop_notices(second) == Seq::<usize>::empty(),
{
}

/// Stop a countdown, start it again, let at least a millisecond pass and stop
/// it once more: the player who had the turn during the second run has been
/// charged strictly more than after the first stop. This needs that player to
/// have had time left, for an account that has reached its budget stays there.
pub proof fn lemma_successive_stops_charge_more(
    clock: ClockModel,
    first_stop: u128,
    restart: u128,
    second_stop: u128,
)
    requires
        clock.wf(),
        clock.direction == TimerDirection::Down,
        interval_ms(restart, second_stop) > 0,
        !clock.stop(first_stop).expired(
            clock.stop(first_stop).start(restart).current_player.unwrap(),
        ),
    ensures
        ({
            let stopped = clock.stop(first_stop);
            let active = stopped.start(restart).current_player.unwrap();
            stopped.start(restart).stop(second_stop).elapsed_ms[active as int]
                > stopped.elapsed_ms[active as int]
        }),
{
}

/// Stopping a running clock charges the player on turn
/// for the time since the later of the last switch and the start, and nobody
/// else; a countdown stops counting at the budget.
pub proof fn lemma_stop_charges_current_player(clock: ClockModel, now: u128)
    requires
        clock.wf(),
        clock.is_running(),
    ensures
        ({
            let current = clock.current_player.unwrap();
            let stopped = clock.stop(now);
            &&& stopped.elapsed_ms[current as int] == clock.charged(
                current,
                clock.running_interval_ms(now),
            )
            &&& stopped.elapsed_ms[current as int] >= clock.elapsed_ms[current as int]
            &&& forall|other: int|
                0 <= other < SUPPORTED_PLAYERS && other != current ==> stopped.elapsed_ms[other]
                    == clock.elapsed_ms[other]
        }),
{
}

/// Stopping a running clock at reading `now` adds to the account of the
/// player on turn exactly the whole milliseconds since the later of the last
/// switch and the start, as long as that leaves the player short of their
/// budget. Nobody is notified, and if any time has passed the account is
/// strictly larger than before. Where the last switch is not earlier than the
/// start, as it is on a clock whose readings never run backwards, the time
/// counts from the last switch.
pub proof fn lemma_stop_charges_the_run(clock: ClockModel, now: u128)
    requires
        clock.wf(),
        clock.is_running(),
        clock.elapsed_ms[clock.current_player.unwrap() as int] + clock.running_interval_ms(now)
            < clock.max_time_ms[clock.current_player.unwrap() as int],
    ensures
        ({
            let current = clock.current_player.unwrap();
            let run = clock.running_interval_ms(now);
            &&& clock.stop(now).elapsed_ms[current as int] == clock.elapsed_ms[current as int]
                + run
            &&& run > 0 ==> clock.stop(now).elapsed_ms[current as int]
                > clock.elapsed_ms[current as int]
            &&& (clock.last_switch_at matches Some(switched) && switched
                >= clock.running_since.unwrap()) ==> run == interval_ms(
                clock.last_switch_at.unwrap(),
                now,
            )
            &&& clock.last_switch_at is None ==> run == interval_ms(
                clock.running_since.unwrap(),
                now,
            )
            &&& clock.stop_notices(now) == Seq::<usize>::empty()
        }),
{
}

/// On a stopped clock an adjustment is the plain charge, whatever the reading:
/// the stop that follows an expiry finds nothing to stop, and the only notice
/// is the one for the adjusted player.
pub proof fn lemma_adjust_while_stopped(clock: ClockModel, player: usize, delta_ms: i64, now: u128)
    requires
        clock.wf(),
        !clock.is_running(),
        player < SUPPORTED_PLAYERS,
    ensures
        clock.adjust(player, delta_ms, now) == clock.charge(player, delta_ms),
        clock.adjust_notices(player, delta_ms, now) == if clock.charge(player, delta_ms).expired(
            player,
        ) {
            seq![player]
        } else {
            Seq::<usize>::empty()
        },
{
}

/// An adjustment that leaves the player without time notifies the hook about
/// that player, exactly once, and leaves the clock stopped, with the turn where
/// it was.
///
/// The one notice is all there is unless the clock was running and the stop
/// finds the player on turn without time as well: the stop charges them for
/// the time since the last switch, and an account at its budget after that
/// charge is an expiry like any other.
pub proof fn lemma_expiry_notifies_once_and_stops(
    clock: ClockModel,
    player: usize,
    delta_ms: i64,
    now: u128,
)
    requires
        clock.wf(),
        player < SUPPORTED_PLAYERS,
        clock.charge(player, delta_ms).expired(player),
        !(clock.is_running() && clock.charge(player, delta_ms).stop(now).expired(
            clock.current_player.unwrap(),
        )),
    ensures
        clock.adjust_notices(player, delta_ms, now) == seq![player],
        !clock.adjust(player, delta_ms, now).is_running(),
        clock.adjust(player, delta_ms, now).current_player == clock.current_player,
        clock.adjust(player, delta_ms, now).expired(player),
{
}

/// What an adjustment comes to, in every case.
///
/// The turn stays where it is. If the charge leaves the player with time,
/// nothing else happens. If it leaves them without, the first notice is for
/// them and the clock ends up stopped; a second notice follows only where a
/// running clock was stopped and the stop left the player on turn without
/// time, and it is for that player.
pub proof fn lemma_adjust_outcome(clock: ClockModel, player: usize, delta_ms: i64, now: u128)
    requires
        clock.wf(),
        player < SUPPORTED_PLAYERS,
    ensures
        ({
            let charged = clock.charge(player, delta_ms);
            let after = clock.adjust(player, delta_ms, now);
            let notices = clock.adjust_notices(player, delta_ms, now);
            &&& after.current_player == clock.current_player
            &&& charged.expired(player) ==> {
                &&& !after.is_running()
                &&& after.expired(player)
                &&& notices == seq![player] + charged.stop_notices(now)
                &&& charged.stop_notices(now) == if clock.is_running() && after.expired(
                    clock.current_player.unwrap(),
                ) {
                    seq![clock.current_player.unwrap()]
                } else {
                    Seq::<usize>::empty()
                }
            }
            &&& !charged.expired(player) ==> {
                &&& after == charged
                &&& after.is_running() == clock.is_running()
                &&& notices == Seq::<usize>::empty()
            }
        }),
{
}

/// Whether a switch at reading `now` would charge the outgoing player a
/// second time: the clock runs, the charge for the switch leaves the outgoing
/// player without time, and the stop that follows finds something to add.
///
/// A countdown never does (see [`lemma_countdown_switch_charges_once`]): an
/// account that has reached its budget stays there. A count-up does whenever
/// the charge leaves the account at zero or more while time has passed.
pub open spec fn switch_charges_twice(clock: ClockModel, now: u128) -> bool {
    let outgoing = clock.current_player.unwrap();
    let charged = clock.charge(outgoing, clock.switch_charge_ms(outgoing, now));
    &&& clock.is_running()
    &&& charged.expired(outgoing)
    &&& charged.charged(outgoing, charged.running_interval_ms(now))
        != charged.elapsed_ms[outgoing as int]
}

/// In a countdown a switch charges the outgoing player once.
pub proof fn lemma_countdown_switch_charges_once(clock: ClockModel, now: u128)
    requires
        clock.wf(),
        clock.direction == TimerDirection::Down,
    ensures
        !switch_charges_twice(clock, now),
{
}

/// Once a timestamp has been recorded, handing the turn on charges the
/// outgoing player the time since the last switch less their switch
/// adjustment, and nobody else. An adjustment larger than that time and all
/// the player had been charged before leaves the account negative: banked
/// time, which shows as remaining time above the budget.
pub proof fn lemma_switch_charges_outgoing_player(clock: ClockModel, player: usize, now: u128)
    requires
        clock.wf(),
        player < SUPPORTED_PLAYERS,
        clock.last_switch_at is Some,
        !switch_charges_twice(clock, now),
    ensures
        ({
            let outgoing = clock.current_player.unwrap();
            let net = interval_ms(clock.last_switch_at.unwrap(), now)
                - clock.switch_adjustment_ms[outgoing as int];
            let after = clock.switch_to(player, now);
            &&& clock.switch_charge_ms(outgoing, now) == saturate_i64(net)
            &&& after.elapsed_ms[outgoing as int] == clock.charged(outgoing, saturate_i64(net))
            &&& forall|other: int|
                0 <= other < SUPPORTED_PLAYERS && other != outgoing ==> after.elapsed_ms[other]
                    == clock.elapsed_ms[other]
            &&& after.current_player == Some(player)
            &&& after.last_player == Some(outgoing)
            &&& after.last_switch_at == Some(now)
            &&& clock.elapsed_ms[outgoing as int] + net < 0 ==> {
                &&& after.elapsed_ms[outgoing as int] < 0
                &&& after.remaining_of(outgoing).unwrap() >= clock.max_time_ms[outgoing as int]
                &&& clock.max_time_ms[outgoing as int] < u32::MAX ==> after.remaining_of(
                    outgoing,
                ).unwrap() > clock.max_time_ms[outgoing as int]
            }
        }),
{
}

/// Once a timestamp has been recorded, handing the turn on at reading `now`
/// adds to the outgoing player's account exactly the whole milliseconds since
/// the last switch less their switch adjustment, as long as that leaves them
/// short of their budget and both the charge and the new account fit an
/// `i64`. The charge may be negative, and so may the account. No other
/// account changes, nobody is notified, a running clock goes on running, the
/// outgoing player is remembered, and `player` has the turn from `now`.
pub proof fn lemma_switch_charges_exactly(clock: ClockModel, player: usize, now: u128)
    requires
        clock.wf(),
        player < SUPPORTED_PLAYERS,
        clock.last_switch_at is Some,
        interval_ms(clock.last_switch_at.unwrap(), now)
            - clock.switch_adjustment_ms[clock.current_player.unwrap() as int] <= i64::MAX,
        i64::MIN <= clock.elapsed_ms[clock.current_player.unwrap() as int] + interval_ms(
            clock.last_switch_at.unwrap(),
            now,
        ) - clock.switch_adjustment_ms[clock.current_player.unwrap() as int]
            < clock.max_time_ms[clock.current_player.unwrap() as int],
    ensures
        ({
            let outgoing = clock.current_player.unwrap();
            let charge = interval_ms(clock.last_switch_at.unwrap(), now)
                - clock.switch_adjustment_ms[outgoing as int];
            let after = clock.switch_to(player, now);
            &&& after.elapsed_ms[outgoing as int] == clock.elapsed_ms[outgoing as int] + charge
            &&& forall|other: int|
                0 <= other < SUPPORTED_PLAYERS && other != outgoing ==> after.elapsed_ms[other]
                    == clock.elapsed_ms[other]
            &&& after.current_player == Some(player)
            &&& after.last_player == Some(outgoing)
            &&& after.last_switch_at == Some(now)
            &&& after.running_since == clock.running_since
            &&& clock.switch_notices(player, now) == Seq::<usize>::empty()
        }),
{
}

/// Stopping a clock and starting it again leaves the turn with the player who
/// had it, provided no other player is remembered from before a switch: a
/// start hands the turn to the remembered player.
pub proof fn lemma_restart_keeps_player(clock: ClockModel, stop: u128, restart: u128)
    requires
        clock.wf(),
        clock.last_player is None || clock.last_player == clock.current_player,
    ensures
        clock.stop(stop).start(restart).current_player == clock.current_player,
        clock.stop(stop).start(restart).is_running(),
{
}

/// Remaining time is what is left of the budget, never below zero and never
/// above `u32::MAX`, so it always fits the type it is reported in.
pub proof fn lemma_remaining_saturates(elapsed: i64, budget: u32)
    ensures
        0 <= remaining_ms(elapsed as int, budget as int) <= u32::MAX,
        elapsed >= budget ==> remaining_ms(elapsed as int, budget as int) == 0,
        0 <= elapsed < budget ==> remaining_ms(elapsed as int, budget as int) == budget - elapsed,
        elapsed < 0 && budget - elapsed < u32::MAX ==> remaining_ms(elapsed as int, budget as int)
            == budget - elapsed,
        elapsed < 0 && budget - elapsed >= u32::MAX ==> remaining_ms(elapsed as int, budget as int)
            == u32::MAX,
{
}

} // verus!
