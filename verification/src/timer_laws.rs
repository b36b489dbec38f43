//! What holds of the battery timer over any run of samples.

use crate::battery::BatteryStatus;
use crate::timer::{
    BatteryTimer, ChargeSession, DURATION_MAX, EFFECTIVE_FULL_HOLD, FULL_CHARGE, StableHold,
    can_hold, is_limit, session_scaling,
};
use vstd::prelude::*;

verus! {

/// A sample, with everything that `update` is handed along with it.
pub struct Step {
    pub sample: Option<BatteryStatus>,
    pub now: u128,
    pub configured: Option<u8>,
    pub scaled: u128,
}

impl BatteryTimer {
    /// What is true of every timer that only `update` has changed.
    pub open spec fn well_formed(self) -> bool {
        &&& self.elapsed <= DURATION_MAX
        &&& self.learned_target is Some ==> can_hold(self.learned_target->0)
        &&& self.hold is Some ==> can_hold(self.hold->0.capacity) && self.hold->0.elapsed
            <= DURATION_MAX
        &&& self.charge is Some ==> {
            let charge = self.charge->0;
            &&& is_limit(charge.target)
            &&& charge.learned_target ==> can_hold(charge.target)
            &&& charge.elapsed <= DURATION_MAX
        }
        &&& self.sample is Some ==> self.sampled_at is Some && self.on_ac_power == Some(
            self.sample->0.on_ac_power,
        )
        &&& self.on_battery() ==> self.charge is None && self.hold is None
    }

    /// The timer after one step.
    pub open spec fn stepped(self, step: Step) -> BatteryTimer {
        self.after_update(step.sample, step.now, step.configured, step.scaled)
    }

    /// The timer after a run of steps.
    pub open spec fn run(self, steps: Seq<Step>) -> BatteryTimer
        decreases steps.len(),
    {
        if steps.len() == 0 {
            self
        } else {
            self.run(steps.drop_last()).stepped(steps.last())
        }
    }

    /// Whether no duration grows past the longest one during a run of steps.
    pub open spec fn run_in_range(self, steps: Seq<Step>) -> bool
        decreases steps.len(),
    {
        steps.len() == 0 || {
            &&& self.run_in_range(steps.drop_last())
            &&& self.run(steps.drop_last()).in_range(steps.last().sample, steps.last().now)
        }
    }
}

/// The timer is well-formed before the first sample, and each sample keeps it so.
pub proof fn law_update_keeps_well_formed(
    timer: BatteryTimer,
    sample: Option<BatteryStatus>,
    now: u128,
    configured: Option<u8>,
    scaled: u128,
)
    requires
        timer.well_formed(),
        timer.in_range(sample, now),
    ensures
        BatteryTimer::initial().well_formed(),
        timer.after_update(sample, now, configured, scaled).well_formed(),
{
}

/// Every timer that a run of samples leads to is well-formed.
pub proof fn law_runs_keep_well_formed(timer: BatteryTimer, steps: Seq<Step>)
    requires
        timer.well_formed(),
        timer.run_in_range(steps),
    ensures
        timer.run(steps).well_formed(),
    decreases steps.len(),
{
    if steps.len() > 0 {
        let last = steps.last();
        law_runs_keep_well_formed(timer, steps.drop_last());
        law_update_keeps_well_formed(
            timer.run(steps.drop_last()),
            last.sample,
            last.now,
            last.configured,
            last.scaled,
        );
    }
}

/// Time on battery passes no faster than the clock: a sample leaves at most the time that had
/// been counted when it came in, and on external power that time does not grow.
pub proof fn law_update_adds_no_time(
    timer: BatteryTimer,
    sample: Option<BatteryStatus>,
    now: u128,
    configured: Option<u8>,
    scaled: u128,
)
    requires
        timer.in_range(sample, now),
    ensures
        timer.after_update(sample, now, configured, scaled).elapsed <= timer.total(now),
        !timer.on_battery() ==> timer.after_update(sample, now, configured, scaled).elapsed
            <= timer.elapsed,
{
}

/// A sample on battery after a sample on battery leaves the time that is shown as it is.
pub proof fn law_battery_time_is_continuous(
    timer: BatteryTimer,
    status: BatteryStatus,
    now: u128,
    configured: Option<u8>,
    scaled: u128,
)
    requires
        timer.well_formed(),
        timer.on_battery(),
        timer.in_range(Some(status), now),
        !status.on_ac_power,
    ensures
        timer.after_update(Some(status), now, configured, scaled).on_battery(),
        timer.after_update(Some(status), now, configured, scaled).total(now) == timer.total(now),
{
}

/// A missing sample hides the time and freezes it: the time counted when it came in stays the
/// same however much later the next sample comes, and a sample on battery shows it again where
/// no charge session was under way.
pub proof fn law_missing_samples_freeze_and_hide_time(
    timer: BatteryTimer,
    missing_at: u128,
    configured: Option<u8>,
    scaled: u128,
    status: BatteryStatus,
    back_at: u128,
    configured_later: Option<u8>,
    scaled_later: u128,
)
    requires
        timer.in_range(None, missing_at),
        !status.on_ac_power,
        timer.charge is None,
    ensures
        ({
            let missing = timer.after_update(None, missing_at, configured, scaled);
            let back = missing.after_update(Some(status), back_at, configured_later, scaled_later);
            &&& !missing.on_battery()
            &&& missing.total(back_at) == timer.total(missing_at)
            &&& back.on_battery()
            &&& back.total(back_at) == timer.total(missing_at)
        }),
{
}

/// A session that reaches its target, or begins at it, leaves no time on battery.
pub proof fn law_full_charge_leaves_no_time(
    timer: BatteryTimer,
    status: BatteryStatus,
    now: u128,
    configured: Option<u8>,
    scaled: u128,
)
    requires
        timer.session(status, now, configured) is Some,
        timer.session(status, now, configured)->0.revised(status).complete_at(status),
    ensures
        timer.after_update(Some(status), now, configured, scaled).elapsed == 0,
{
}

/// A configured limit from 80 to 100 is the target of the session that it is read for, whatever
/// was learned before: below it the session asks for the share that is left up to the limit, and
/// at or past it no time on battery is left.
pub proof fn law_configured_limit_is_the_target(
    timer: BatteryTimer,
    status: BatteryStatus,
    now: u128,
    limit: u8,
    scaled: u128,
)
    requires
        timer.in_range(Some(status), now),
        timer.enters_ac(Some(status)),
        is_limit(limit),
    ensures
        timer.session(status, now, Some(limit))->0.target == limit,
        status.capacity < limit ==> {
            let scaling = timer.scaling_for(Some(status), now, Some(limit));
            &&& scaling is Some
            &&& scaling->0.elapsed == timer.total(now)
            &&& scaling->0.part == limit - status.capacity
            &&& scaling->0.whole == limit - status.capacity
        },
        status.capacity >= limit ==> timer.after_update(
            Some(status),
            now,
            Some(limit),
            scaled,
        ).elapsed == 0,
{
}

/// A scaling is by a positive share, of a way that is positive too and at most a full charge;
/// once the charge is where the session began or above, the share is at most the whole.
pub proof fn law_scaling_is_a_share(
    timer: BatteryTimer,
    status: BatteryStatus,
    now: u128,
    configured: Option<u8>,
)
    requires
        timer.well_formed(),
        timer.in_range(Some(status), now),
        timer.scaling_for(Some(status), now, configured) is Some,
    ensures
        ({
            let scaling = timer.scaling_for(Some(status), now, configured)->0;
            &&& 0 < scaling.part <= FULL_CHARGE
            &&& 0 < scaling.whole <= FULL_CHARGE
            &&& scaling.elapsed <= DURATION_MAX
            &&& timer.session(status, now, configured)->0.capacity <= status.capacity
                ==> scaling.part <= scaling.whole
        }),
{
}

/// Where there is a scaling, a sample leaves the smaller of the time counted and what the scaling
/// comes to, unless the sample shows that a held charge counts as full.
pub proof fn law_partial_charge_scales_time(
    timer: BatteryTimer,
    status: BatteryStatus,
    now: u128,
    configured: Option<u8>,
    scaled: u128,
)
    requires
        timer.in_range(Some(status), now),
        timer.scaling_for(Some(status), now, configured) is Some,
        timer.held(status, timer.sample, timer.delta(now)) < EFFECTIVE_FULL_HOLD,
    ensures
        timer.after_update(Some(status), now, configured, scaled).elapsed == if scaled
            < timer.total(now) {
            scaled as int
        } else {
            timer.total(now)
        },
{
}

/// A target is learned only from a charge from 80 to 99 that the system has paused, on external
/// power, and that has been held for five minutes; then no time on battery is left.
pub proof fn law_only_stable_holds_are_learned(
    timer: BatteryTimer,
    sample: Option<BatteryStatus>,
    now: u128,
    configured: Option<u8>,
    scaled: u128,
)
    requires
        timer.in_range(sample, now),
        timer.after_update(sample, now, configured, scaled).learned_target != timer.learned_target,
    ensures
        sample is Some,
        sample->0.on_ac_power,
        sample->0.charging_paused,
        can_hold(sample->0.capacity),
        timer.held(sample->0, timer.sample, timer.delta(now)) >= EFFECTIVE_FULL_HOLD,
        timer.after_update(sample, now, configured, scaled).learned_target == Some(
            sample->0.capacity,
        ),
        timer.after_update(sample, now, configured, scaled).elapsed == 0,
{
}

/// Whether all steps show the charge paused at `capacity` on external power, in the order of time.
pub open spec fn is_pause(steps: Seq<Step>, capacity: u8) -> bool {
    &&& forall|i: int|
        0 <= i < steps.len() ==> {
            let sample = (#[trigger] steps[i]).sample;
            &&& sample is Some
            &&& sample->0.on_ac_power
            &&& sample->0.charging_paused
            &&& sample->0.capacity == capacity
        }
    &&& forall|i: int, j: int|
        0 <= i <= j < steps.len() ==> (#[trigger] steps[i]).now <= (#[trigger] steps[j]).now
}

/// A pause is measured from its first sample to its last, however many there are in between; the
/// charge is learned once the pause has lasted for five minutes, and not before.
pub proof fn law_pause_is_learned_after_five_minutes(
    timer: BatteryTimer,
    steps: Seq<Step>,
    capacity: u8,
)
    requires
        steps.len() > 0,
        can_hold(capacity),
        is_pause(steps, capacity),
        timer.hold is None || timer.hold->0.capacity != capacity,
        steps.last().now - steps[0].now <= DURATION_MAX,
    ensures
        ({
            let held = steps.last().now - steps[0].now;
            let after = timer.run(steps);
            &&& after.hold == Some(StableHold { capacity, elapsed: held as u128 })
            &&& held >= EFFECTIVE_FULL_HOLD ==> after.learned_target == Some(capacity)
                && after.elapsed == 0
            &&& held < EFFECTIVE_FULL_HOLD ==> after.learned_target == timer.learned_target
        }),
    decreases steps.len(),
{
    let last = steps.last();
    let before = steps.drop_last();
    assert(steps[steps.len() - 1] == last);
    if before.len() > 0 {
        assert(forall|i: int| 0 <= i < before.len() ==> before[i] == steps[i]);
        assert(before.last() == steps[steps.len() - 2]);
        law_pause_is_learned_after_five_minutes(timer, before, capacity);
        assert(timer.run(before) == timer.run(before.drop_last()).stepped(before.last()));
    } else {
        assert(timer.run(before) == timer);
        assert(steps[0] == last);
    }
}

/// A reading past the learned target of the session, or at it while the charge goes on, makes a
/// full charge the target of the session, unless the charge is paused.
pub proof fn law_charging_past_a_learned_target_uses_full_capacity(
    timer: BatteryTimer,
    status: BatteryStatus,
    now: u128,
    configured: Option<u8>,
    scaled: u128,
)
    requires
        timer.in_range(Some(status), now),
        status.on_ac_power,
        !status.charging_paused,
        timer.session(status, now, configured) is Some,
        timer.session(status, now, configured)->0.learned_target,
        status.capacity > timer.session(status, now, configured)->0.target || (status.capacity
            == timer.session(status, now, configured)->0.target && status.is_charging),
    ensures
        ({
            let after = timer.after_update(Some(status), now, configured, scaled);
            &&& after.charge is Some
            &&& after.charge->0.target == FULL_CHARGE
            &&& !after.charge->0.learned_target
        }),
{
}

/// A session keeps the charge and the time that it began with for as long as the machine stays
/// on external power, also across missing samples.
pub proof fn law_session_keeps_its_start(
    timer: BatteryTimer,
    sample: Option<BatteryStatus>,
    now: u128,
    configured: Option<u8>,
    scaled: u128,
)
    requires
        timer.in_range(sample, now),
        timer.on_ac_power == Some(true),
        timer.charge is Some,
        sample is None || sample->0.on_ac_power,
    ensures
        ({
            let after = timer.after_update(sample, now, configured, scaled);
            &&& after.on_ac_power == Some(true)
            &&& after.charge is Some
            &&& after.charge->0.capacity == timer.charge->0.capacity
            &&& after.charge->0.elapsed == timer.charge->0.elapsed
        }),
{
}

/// On battery the time that is shown follows the clock; else it stands still.
pub proof fn law_time_follows_the_clock(timer: BatteryTimer, earlier: u128, later: u128)
    requires
        earlier <= later,
        timer.sampled_at is Some ==> timer.sampled_at->0 <= earlier,
    ensures
        timer.on_battery() && timer.sampled_at is Some ==> timer.total(later) - timer.total(earlier)
            == later - earlier,
        !timer.on_battery() ==> timer.total(later) == timer.total(earlier),
{
}

/// To pull the plug takes nothing back: a sample on battery, not charging, at the charge of the
/// sample before it leaves the time that the charge session had left. Where it needs a scaling
/// that is the one of the sample before, so that what it comes to is the same too.
pub proof fn law_unplugging_keeps_the_time_left(
    timer: BatteryTimer,
    plugged: BatteryStatus,
    plugged_at: u128,
    configured: Option<u8>,
    scaled: u128,
    unplugged: BatteryStatus,
    unplugged_at: u128,
    configured_later: Option<u8>,
)
    requires
        timer.in_range(Some(plugged), plugged_at),
        plugged.on_ac_power,
        !unplugged.on_ac_power,
        !unplugged.is_charging,
        plugged.capacity == unplugged.capacity,
        timer.session(plugged, plugged_at, configured) is Some,
    ensures
        ({
            let charged = timer.after_update(Some(plugged), plugged_at, configured, scaled);
            let away = charged.after_update(
                Some(unplugged),
                unplugged_at,
                configured_later,
                scaled,
            );
            &&& away.on_battery()
            &&& away.total(unplugged_at) == charged.elapsed
            &&& charged.scaling_for(Some(unplugged), unplugged_at, configured_later) is Some
                ==> charged.scaling_for(Some(unplugged), unplugged_at, configured_later)
                == timer.scaling_for(Some(plugged), plugged_at, configured)
        }),
{
}

/// Within a session whose target was not learned, a higher charge leaves no larger a share, of
/// the same time and the same way.
pub proof fn law_more_charge_leaves_less(
    charge: ChargeSession,
    lower: BatteryStatus,
    higher: BatteryStatus,
)
    requires
        !charge.learned_target,
        lower.capacity <= higher.capacity,
        session_scaling(Some(charge), higher) is Some,
    ensures
        session_scaling(Some(charge), lower) is Some,
        ({
            let before = session_scaling(Some(charge), lower)->0;
            let after = session_scaling(Some(charge), higher)->0;
            &&& after.part <= before.part
            &&& after.whole == before.whole
            &&& after.elapsed == before.elapsed
        }),
{
}

/// The charge at which a session leaves no time, seen at a reading: its target, or a full charge
/// where the target was learned and the reading is past it, or at it and still charging.
pub open spec fn target_at(charge: ChargeSession, status: BatteryStatus) -> int {
    if charge.learned_target && status.capacity > charge.target {
        100
    } else if charge.learned_target && status.capacity == charge.target && status.is_charging {
        100
    } else {
        charge.target as int
    }
}

/// In every session, learned target or not, the scaling is by the way from the reading to the
/// target over the way from the first charge to the target, of the time that the session began
/// with; there is one exactly where both lie below the target.
pub proof fn law_scaling_is_by_the_way_to_the_target(charge: ChargeSession, status: BatteryStatus)
    ensures
        session_scaling(None, status) is None,
        session_scaling(Some(charge), status) is Some <==> {
            &&& status.capacity < target_at(charge, status)
            &&& charge.capacity < target_at(charge, status)
        },
        session_scaling(Some(charge), status) is Some ==> {
            let scaling = session_scaling(Some(charge), status)->0;
            &&& scaling.part == target_at(charge, status) - status.capacity
            &&& scaling.whole == target_at(charge, status) - charge.capacity
            &&& scaling.elapsed == charge.elapsed
        },
{
}

/// The same of a sample in a session that is under way: what is left of the way to the target,
/// over the whole way, of the time that the session began with.
pub proof fn law_later_samples_scale_by_the_way_to_the_target(
    timer: BatteryTimer,
    status: BatteryStatus,
    now: u128,
    configured: Option<u8>,
)
    requires
        timer.charge is Some,
        timer.on_ac_power == Some(true),
    ensures
        ({
            let charge = timer.charge->0;
            let target = target_at(charge, status);
            match timer.scaling_for(Some(status), now, configured) {
                Some(scaling) => {
                    &&& status.capacity < target
                    &&& charge.capacity < target
                    &&& scaling.part == target - status.capacity
                    &&& scaling.whole == target - charge.capacity
                    &&& scaling.elapsed == charge.elapsed
                },
                None => status.capacity >= target || charge.capacity >= target,
            }
        }),
{
}

/// Two samples in a session whose target stands: the shares that they leave differ by the charge
/// that was gained in between.
pub proof fn law_shares_differ_by_the_charge_gained(
    charge: ChargeSession,
    earlier: BatteryStatus,
    later: BatteryStatus,
)
    requires
        earlier.capacity < charge.target,
        later.capacity < charge.target,
        charge.capacity < charge.target,
    ensures
        ({
            let before = session_scaling(Some(charge), earlier);
            let after = session_scaling(Some(charge), later);
            &&& before is Some
            &&& after is Some
            &&& before->0.part - after->0.part == later.capacity - earlier.capacity
            &&& before->0.whole == after->0.whole
            &&& before->0.part - before->0.whole == charge.capacity - earlier.capacity
        }),
{
}

/// The first sample on external power begins a session at its charge and with the time counted
/// so far. Its target is a configured limit from 80 to 100; else a learned one that the charge is
/// not past; else a full charge. No other sample begins one.
pub proof fn law_sessions_begin_with_their_target(
    timer: BatteryTimer,
    status: BatteryStatus,
    now: u128,
    configured: Option<u8>,
)
    requires
        timer.total(now) <= DURATION_MAX,
    ensures
        ({
            let session = timer.session(status, now, configured);
            let limited = configured is Some && 80 <= configured->0 <= 100;
            let learned = timer.learned_target is Some && status.capacity
                <= timer.learned_target->0;
            if status.on_ac_power && timer.on_ac_power != Some(true) {
                &&& session is Some
                &&& session->0.capacity == status.capacity
                &&& session->0.elapsed == timer.total(now)
                &&& limited ==> session->0.target == configured->0 && !session->0.learned_target
                &&& !limited && learned ==> session->0.target == timer.learned_target->0
                    && session->0.learned_target
                &&& !limited && !learned ==> session->0.target == 100 && !session->0.learned_target
            } else {
                session == timer.charge
            }
        }),
{
}

/// A session begins with the first sample on external power: the first of all, or the first since
/// a sample on battery. Missing samples in between make no difference.
pub proof fn law_external_power_is_entered_once(
    timer: BatteryTimer,
    first: BatteryStatus,
    gap: Seq<Step>,
    next: BatteryStatus,
    now: u128,
    configured: Option<u8>,
    scaled: u128,
)
    requires
        forall|i: int| 0 <= i < gap.len() ==> (#[trigger] gap[i]).sample is None,
    ensures
        ({
            let after = timer.after_update(Some(first), now, configured, scaled).run(gap);
            after.enters_ac(Some(next)) == (next.on_ac_power && !first.on_ac_power)
        }),
        !timer.enters_ac(None),
        BatteryTimer::initial().enters_ac(Some(next)) == next.on_ac_power,
{
    let start = timer.after_update(Some(first), now, configured, scaled);
    lemma_missing_samples_keep_the_power(start, gap);
}

/// Missing samples leave it open whether the power has changed.
proof fn lemma_missing_samples_keep_the_power(timer: BatteryTimer, gap: Seq<Step>)
    requires
        forall|i: int| 0 <= i < gap.len() ==> (#[trigger] gap[i]).sample is None,
    ensures
        timer.run(gap).on_ac_power == timer.on_ac_power,
    decreases gap.len(),
{
    if gap.len() > 0 {
        let before = gap.drop_last();
        assert(forall|i: int| 0 <= i < before.len() ==> before[i] == gap[i]);
        assert(gap.last() == gap[gap.len() - 1]);
        lemma_missing_samples_keep_the_power(timer, before);
    }
}

/// After a sample the timer holds that sample and its time; one on battery ends the session and
/// the hold; a missing one changes nothing else, but that the time up to it is counted.
pub proof fn law_samples_are_remembered(
    timer: BatteryTimer,
    sample: Option<BatteryStatus>,
    now: u128,
    configured: Option<u8>,
    scaled: u128,
)
    requires
        timer.in_range(sample, now),
    ensures
        ({
            let after = timer.after_update(sample, now, configured, scaled);
            &&& after.sample == sample
            &&& after.sampled_at == Some(now)
            &&& match sample {
                Some(status) => {
                    &&& after.on_ac_power == Some(status.on_ac_power)
                    &&& !status.on_ac_power ==> after.charge is None && after.hold is None
                        && after.learned_target == timer.learned_target
                },
                None => {
                    &&& after.elapsed == timer.total(now)
                    &&& after.on_ac_power == timer.on_ac_power
                    &&& after.charge == timer.charge
                    &&& after.hold == timer.hold
                    &&& after.learned_target == timer.learned_target
                },
            }
        }),
{
}

/// The time on battery up to a moment: what was counted, and where the latest sample was on
/// battery what has passed since; a clock that goes back adds nothing.
pub proof fn law_time_passes_on_battery_only(timer: BatteryTimer, now: u128)
    ensures
        timer.sample is None ==> timer.total(now) == timer.elapsed,
        timer.sample is Some && timer.sample->0.on_ac_power ==> timer.total(now) == timer.elapsed,
        timer.sampled_at is None ==> timer.total(now) == timer.elapsed,
        timer.sample is Some && !timer.sample->0.on_ac_power && timer.sampled_at is Some ==> {
            &&& now >= timer.sampled_at->0 ==> timer.total(now) == timer.elapsed + now
                - timer.sampled_at->0
            &&& now <= timer.sampled_at->0 ==> timer.total(now) == timer.elapsed
        },
        timer.on_battery() <==> timer.sample is Some && !timer.sample->0.on_ac_power,
{
}

/// Without a session a sample takes nothing back, unless it shows that a held charge counts as
/// full.
pub proof fn law_no_time_is_lost_without_a_session(
    timer: BatteryTimer,
    status: BatteryStatus,
    now: u128,
    configured: Option<u8>,
    scaled: u128,
)
    requires
        timer.in_range(Some(status), now),
        timer.session(status, now, configured) is None,
        timer.held(status, timer.sample, timer.delta(now)) < 300_000_000_000
            || !status.charging_paused || !status.on_ac_power,
    ensures
        timer.after_update(Some(status), now, configured, scaled).elapsed == timer.total(now),
{
}

/// A reading of a full charge leaves no time on battery in any session.
pub proof fn law_hundred_percent_leaves_no_time(
    timer: BatteryTimer,
    status: BatteryStatus,
    now: u128,
    configured: Option<u8>,
    scaled: u128,
)
    requires
        timer.well_formed(),
        timer.in_range(Some(status), now),
        status.capacity >= 100,
        timer.charge is Some || (status.on_ac_power && timer.on_ac_power != Some(true)),
    ensures
        timer.after_update(Some(status), now, configured, scaled).elapsed == 0,
{
}

/// For how long a charge has been held: not at all where it was not held at this charge before;
/// else for as long as it had been, and for the time since the reading before it where that one
/// showed the charge paused here too.
pub proof fn law_hold_grows_between_equal_readings(
    timer: BatteryTimer,
    status: BatteryStatus,
    previous: Option<BatteryStatus>,
    delta: int,
)
    ensures
        timer.hold is None ==> timer.held(status, previous, delta) == 0,
        timer.hold is Some && timer.hold->0.capacity != status.capacity ==> timer.held(
            status,
            previous,
            delta,
        ) == 0,
        timer.hold is Some && timer.hold->0.capacity == status.capacity ==> timer.held(
            status,
            previous,
            delta,
        ) - timer.hold->0.elapsed == if previous is Some && previous->0.charging_paused
            && previous->0.capacity == status.capacity {
            delta
        } else {
            0
        },
{
}

/// On external power a charge from 80 to 99 that is paused is watched, and any other reading
/// forgets what was watched. Once it has been held for five minutes the charge becomes the
/// learned target, of the session too, and no time is left. Else the session goes on, towards a
/// full charge where the reading shows that a learned target does not bind.
#[verifier::rlimit(30)]
pub proof fn law_held_charges_become_targets(
    timer: BatteryTimer,
    status: BatteryStatus,
    now: u128,
    configured: Option<u8>,
    scaled: u128,
)
    requires
        timer.in_range(Some(status), now),
        status.on_ac_power,
    ensures
        ({
            let after = timer.after_update(Some(status), now, configured, scaled);
            let session = timer.session(status, now, configured);
            let watched = status.charging_paused && 80 <= status.capacity <= 99;
            let held = timer.held(status, timer.sample, timer.delta(now));
            let full = watched && held >= 300_000_000_000;
            &&& watched ==> after.hold is Some && after.hold->0.capacity == status.capacity
                && after.hold->0.elapsed == held
            &&& !watched ==> after.hold is None
            &&& full ==> after.elapsed == 0 && after.learned_target == Some(status.capacity)
            &&& !full ==> after.learned_target == timer.learned_target
            &&& session is None ==> after.charge is None
            &&& session is Some ==> {
                let (before, charge) = (session->0, after.charge->0);
                &&& after.charge is Some
                &&& charge.capacity == before.capacity
                &&& charge.elapsed == before.elapsed
                &&& full ==> charge.target == status.capacity && charge.learned_target
                &&& !full ==> charge.target == target_at(before, status)
                &&& !full && charge.target == before.target && before.target != 100
                    ==> charge.learned_target == before.learned_target
                &&& !full && charge.target != before.target ==> !charge.learned_target
            }
        }),
{
}

/// Time without a sample does not count as held: a pause with a gap is as long as its two parts.
pub proof fn law_gaps_do_not_count_as_held(
    timer: BatteryTimer,
    missing: Step,
    back: Step,
    capacity: u8,
)
    requires
        missing.sample is None,
        back.sample is Some,
        back.sample->0.on_ac_power,
        back.sample->0.charging_paused,
        back.sample->0.capacity == capacity,
        80 <= capacity <= 99,
        timer.hold is Some,
        timer.hold->0.capacity == capacity,
    ensures
        timer.stepped(missing).stepped(back).hold == timer.hold,
{
}

/// Times of any common size are within range: no sum that is made of them is longer than the
/// longest duration.
pub proof fn law_common_times_are_in_range(
    timer: BatteryTimer,
    sample: Option<BatteryStatus>,
    now: u128,
)
    requires
        timer.elapsed + now < 18_446_744_073_709_551_616 * 1_000_000_000,
        timer.hold is Some ==> timer.hold->0.elapsed + now < 18_446_744_073_709_551_616
            * 1_000_000_000,
    ensures
        timer.in_range(sample, now),
{
}

/// What a sample leaves of the time in a session: nothing where the reading has reached the
/// target, or the session began at it or past it; else the time counted, or what the scaling
/// comes to where that is less.
pub proof fn law_sessions_take_time_back(
    timer: BatteryTimer,
    status: BatteryStatus,
    now: u128,
    configured: Option<u8>,
    scaled: u128,
)
    requires
        timer.in_range(Some(status), now),
        timer.session(status, now, configured) is Some,
    ensures
        ({
            let charge = timer.session(status, now, configured)->0;
            let target = target_at(charge, status);
            let left = timer.after_update(Some(status), now, configured, scaled).elapsed;
            let full = status.on_ac_power && status.charging_paused && 80 <= status.capacity <= 99
                && timer.held(status, timer.sample, timer.delta(now)) >= 300_000_000_000;
            &&& status.capacity >= target || charge.capacity >= target ==> left == 0
            &&& status.capacity < target && charge.capacity < target && !full ==> {
                &&& left <= scaled
                &&& left <= timer.total(now)
                &&& left == scaled || left == timer.total(now)
            }
        }),
{
}

/// Before the first sample nothing is counted, known or learned.
pub proof fn law_new_timer_knows_nothing(now: u128)
    ensures
        ({
            let timer = BatteryTimer::initial();
            &&& timer.total(now) == 0
            &&& timer.sample is None && timer.sampled_at is None && timer.on_ac_power is None
            &&& timer.charge is None && timer.hold is None && timer.learned_target is None
        }),
{
}

} // verus!
