//! The match clock: on a tick at which at least one second has passed since
//! the last counted one, the side to move loses one second, never going
//! below zero.
use vstd::prelude::*;
use crate::types::BoardColor;

verus! {

/// Milliseconds in the second that a tick counts.
pub const TICK_MS: u64 = 1000;

/// Both clocks, in seconds, and the time of the last counted tick, in
/// milliseconds.
#[derive(Debug, Clone, Copy, PartialEq, Eq, Structural)]
pub struct ClockState {
    pub white: u64,
    pub black: u64,
    pub last_tick_ms: u64,
}

/// Whether a whole second has passed from `last` to `now`.
pub open spec fn second_elapsed(last: u64, now: u64) -> bool {
    now >= last + TICK_MS
}

/// One second off `clock`, stopping at zero.
pub open spec fn count_down(clock: u64) -> u64 {
    if clock > 0 {
        (clock - 1) as u64
    } else {
        0
    }
}

/// The clocks after a tick at time `now` with `to_move` on move.
pub open spec fn tick_spec(s: ClockState, now: u64, to_move: BoardColor) -> ClockState {
    if second_elapsed(s.last_tick_ms, now) {
        ClockState {
            white: if to_move == BoardColor::White { count_down(s.white) } else { s.white },
            black: if to_move == BoardColor::Black { count_down(s.black) } else { s.black },
            last_tick_ms: now,
        }
    } else {
        s
    }
}

/// The clocks after the ticks of `events` in order, each a time and the side
/// on move at that time.
pub open spec fn run_ticks(s: ClockState, events: Seq<(u64, BoardColor)>) -> ClockState
    decreases events.len(),
{
    if events.len() == 0 {
        s
    } else {
        run_ticks(tick_spec(s, events[0].0, events[0].1), events.drop_first())
    }
}

/// One tick at time `now` with `to_move` on move.
pub fn tick_clocks(s: ClockState, now: u64, to_move: BoardColor) -> (r: ClockState)
    ensures
        r == tick_spec(s, now, to_move),
{
    if now >= s.last_tick_ms && now - s.last_tick_ms >= TICK_MS {
        let white = if to_move == BoardColor::White && s.white > 0 {
            s.white - 1
        } else {
            s.white
        };
        let black = if to_move == BoardColor::Black && s.black > 0 {
            s.black - 1
        } else {
            s.black
        };
        ClockState { white, black, last_tick_ms: now }
    } else {
        s
    }
}

/// Over any sequence of ticks neither clock ever goes up, and neither goes
/// below zero.
pub proof fn lemma_clocks_never_rise(s: ClockState, events: Seq<(u64, BoardColor)>)
    ensures
        run_ticks(s, events).white <= s.white,
        run_ticks(s, events).black <= s.black,
        run_ticks(s, events).white >= 0,
        run_ticks(s, events).black >= 0,
    decreases events.len(),
{
    if events.len() > 0 {
        lemma_clocks_never_rise(tick_spec(s, events[0].0, events[0].1), events.drop_first());
    }
}

/// On a tick at which a second has passed, the clock of the side to move
/// loses exactly one second if it has any left, and the other clock stays as
/// it was; on any other tick both stay.
pub proof fn lemma_one_clock_per_second(s: ClockState, now: u64, to_move: BoardColor)
    ensures
        second_elapsed(s.last_tick_ms, now) && to_move == BoardColor::White && s.white > 0 ==> (
        tick_spec(s, now, to_move).white == s.white - 1 && tick_spec(s, now, to_move).black
            == s.black),
        second_elapsed(s.last_tick_ms, now) && to_move == BoardColor::Black && s.black > 0 ==> (
        tick_spec(s, now, to_move).black == s.black - 1 && tick_spec(s, now, to_move).white
            == s.white),
        !second_elapsed(s.last_tick_ms, now) ==> (tick_spec(s, now, to_move).white == s.white
            && tick_spec(s, now, to_move).black == s.black),
{
}

} // verus!
