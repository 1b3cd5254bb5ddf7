use vstd::prelude::*;

use crate::crop::Crop;
use crate::engine::{advanced, day_outcome, fields_after_day, GameEngine};
use crate::player::Player;
use crate::types::{GameCommand, GameEvent, GameResult, TimeConfig};

verus! {

/// Milliseconds in one minute.
pub const MILLIS_PER_MINUTE: i64 = 60000;

/// Whole intervals of automatic day change that have passed at time `now`
/// since the last day change; none where no change time is recorded or the
/// interval is not positive.
pub open spec fn days_due_at(config: TimeConfig, now: i64) -> int {
    match config.last_day_change {
        None => 0,
        Some(last) => {
            let minutes = config.auto_day_change_minutes as int;
            let elapsed = now as int - last as int;
            if minutes <= 0 || elapsed < minutes * (MILLIS_PER_MINUTE as int) {
                0
            } else {
                (elapsed / (MILLIS_PER_MINUTE as int)) / minutes
            }
        },
    }
}

/// The fields after the `k` nights that follow `day`.
pub open spec fn fields_after_days(fields: Seq<Crop>, day: u32, k: nat) -> Seq<Crop>
    decreases k,
{
    if k == 0 {
        fields
    } else {
        fields_after_days(fields_after_day(fields, day), (day + 1) as u32, (k - 1) as nat)
    }
}

pub fn days_due(config: &TimeConfig, now: i64) -> (r: u64)
    ensures
        r == days_due_at(*config, now),
{
    match config.last_day_change {
        None => 0,
        Some(last) => {
            let minutes = config.auto_day_change_minutes;
            let elapsed: i128 = now as i128 - last as i128;
            if minutes <= 0 {
                return 0;
            }
            assert(0 < minutes as i128 * 60000 <= 0x7fff_ffff_ffff_ffff * 60000) by (nonlinear_arith)
                requires
                    0 < minutes,
            ;
            if elapsed < minutes as i128 * MILLIS_PER_MINUTE as i128 {
                0
            } else {
                let whole_minutes: i128 = elapsed / MILLIS_PER_MINUTE as i128;
                assert(0 <= whole_minutes / (minutes as i128) <= whole_minutes) by {
                    vstd::arithmetic::div_mod::lemma_div_is_ordered_by_denominator(whole_minutes as int, 1, minutes as int);
                }
                assert(whole_minutes <= u64::MAX);
                (whole_minutes / minutes as i128) as u64
            }
        },
    }
}

impl GameEngine {
    /// Replays, at time `now`, one day advance for each automatic day change
    /// that is due, in order, and returns what each of them reported. Stops
    /// early only where the day counter is at its largest value.
    pub fn catch_up(&mut self, now: i64) -> (events: Vec<GameEvent>)
        requires
            old(self).wf(),
        ensures
            final(self).wf(),
            ({
                let due = days_due_at(old(self).time_view(), now);
                let count = events@.len();
                &&& count <= due
                &&& count == due || final(self).day_view() == u32::MAX
                &&& final(self).day_view() == old(self).day_view() + count
                &&& final(self).player_view().fields@ == fields_after_days(
                    old(self).player_view().fields@,
                    old(self).day_view(),
                    count,
                )
                &&& final(self).player_view().money == old(self).player_view().money
                &&& final(self).player_view().inventory == old(self).player_view().inventory
                &&& count == 0 ==> *final(self) == *old(self)
                &&& count > 0 ==> final(self).player_view().energy == Player::MAX_ENERGY
                &&& count > 0 ==> final(self).time_view() == (TimeConfig {
                    last_day_change: Some(now),
                    ..old(self).time_view()
                })
                &&& forall|j: int|
                    0 <= j < count ==> match #[trigger] events@[j] {
                        GameEvent::DayAdvanced { new_day, .. } => new_day == old(self).day_view() + j + 1,
                        _ => false,
                    }
            }),
    {
        let due = days_due(self.get_time_config(), now);
        let mut events: Vec<GameEvent> = Vec::new();
        let mut i: u64 = 0;
        while i < due && self.get_day() < u32::MAX
            invariant
                self.wf(),
                old(self).wf(),
                due == days_due_at(old(self).time_view(), now),
                i <= due,
                events@.len() == i,
                self.day_view() == old(self).day_view() + i,
                self.player_view().fields@ == fields_after_days(
                    old(self).player_view().fields@,
                    old(self).day_view(),
                    i as nat,
                ),
                self.player_view().money == old(self).player_view().money,
                self.player_view().inventory == old(self).player_view().inventory,
                i == 0 ==> *self == *old(self),
                i > 0 ==> self.player_view().energy == Player::MAX_ENERGY,
                i > 0 ==> self.time_view() == (TimeConfig { last_day_change: Some(now), ..old(self).time_view() }),
                forall|j: int|
                    0 <= j < i ==> match #[trigger] events@[j] {
                        GameEvent::DayAdvanced { new_day, .. } => new_day == old(self).day_view() + j + 1,
                        _ => false,
                    },
            decreases due - i,
        {
            let ghost before = *self;
            let r = self.execute_at(GameCommand::AdvanceDay, now);
            proof {
                assert(day_outcome(before, *self, r, now, false));
                assert(advanced(before, *self, now));
                lemma_fields_after_days_step(
                    old(self).player_view().fields@,
                    old(self).day_view(),
                    i as nat,
                );
            }
            match r {
                GameResult::Success(ev) => {
                    events.push(ev);
                },
                GameResult::Error(_) => {},
            }
            i += 1;
        }
        events
    }
}

proof fn lemma_fields_after_days_step(fields: Seq<Crop>, day: u32, k: nat)
    requires
        day as int + k < u32::MAX,
    ensures
        fields_after_days(fields, day, k + 1) == fields_after_day(
            fields_after_days(fields, day, k),
            (day + k) as u32,
        ),
    decreases k,
{
    reveal_with_fuel(fields_after_days, 2);
    if k > 0 {
        lemma_fields_after_days_step(fields_after_day(fields, day), (day + 1) as u32, (k - 1) as nat);
    }
}

} // verus!
