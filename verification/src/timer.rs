//! How long the machine has been running on its battery.
//!
//! Times and durations are counted in nanoseconds; a time is counted from any fixed moment
//! before the first sample.

use crate::battery::BatteryStatus;
use vstd::prelude::*;

verus! {

/// The longest duration that is counted: 2^64 seconds, less one nanosecond.
pub const DURATION_MAX: u128 = 18_446_744_073_709_551_615_999_999_999;

/// How long a paused charge must hold before it counts as full: five minutes.
pub const EFFECTIVE_FULL_HOLD: u128 = 300_000_000_000;

/// The charge at which a session is full where nothing else is known.
pub const FULL_CHARGE: u8 = 100;

/// A stay on external power.
#[derive(Clone, Copy, Debug, PartialEq, Eq, Structural)]
pub struct ChargeSession {
    /// Charge when the session began.
    pub capacity: u8,
    /// Time on battery when the session began.
    pub elapsed: u128,
    /// Charge at which no time on battery is left.
    pub target: u8,
    /// Whether the target was learned from a held charge.
    pub learned_target: bool,
}

/// A paused charge, and for how long it has been the same.
#[derive(Clone, Copy, Debug, PartialEq, Eq, Structural)]
pub struct StableHold {
    pub capacity: u8,
    pub elapsed: u128,
}

/// A duration to be scaled by `part / whole`.
#[derive(Clone, Copy, Debug, PartialEq, Eq, Structural)]
pub struct Scaling {
    pub elapsed: u128,
    pub part: u8,
    pub whole: u8,
}

/// The time on battery since the last full charge.
#[derive(Clone, Copy, Debug)]
pub struct BatteryTimer {
    pub elapsed: u128,
    pub sample: Option<BatteryStatus>,
    pub sampled_at: Option<u128>,
    pub on_ac_power: Option<bool>,
    pub charge: Option<ChargeSession>,
    pub hold: Option<StableHold>,
    pub learned_target: Option<u8>,
}

impl Default for BatteryTimer {
    fn default() -> (timer: Self)
        ensures
            timer == BatteryTimer::initial(),
    {
        BatteryTimer {
            elapsed: 0,
            sample: None,
            sampled_at: None,
            on_ac_power: None,
            charge: None,
            hold: None,
            learned_target: None,
        }
    }
}

impl ChargeSession {
    /// Whether a reading shows that the learned target does not bind: the charge has passed it,
    /// or goes on at it.
    pub open spec fn outgrown_by(self, status: BatteryStatus) -> bool {
        &&& self.learned_target
        &&& status.capacity > self.target || (status.capacity == self.target && status.is_charging)
    }

    /// The session, with a learned target that does not bind given up for a full charge.
    pub open spec fn revised(self, status: BatteryStatus) -> ChargeSession {
        if self.outgrown_by(status) {
            ChargeSession { target: FULL_CHARGE, learned_target: false, ..self }
        } else {
            self
        }
    }

    /// Whether a reading leaves no time on battery: the target is reached, or was from the start.
    pub open spec fn complete_at(self, status: BatteryStatus) -> bool {
        status.capacity >= self.target || self.capacity >= self.target
    }

    /// What is left of the time on battery before the target is reached: the share of the way
    /// from the first charge to the target that is still to go.
    pub open spec fn scaling(self, status: BatteryStatus) -> Scaling
        recommends
            !self.complete_at(status),
    {
        Scaling {
            elapsed: self.elapsed,
            part: (self.target - status.capacity) as u8,
            whole: (self.target - self.capacity) as u8,
        }
    }
}

/// The time from `earlier` to `later`, or nothing where it would be negative.
pub open spec fn time_since(later: u128, earlier: u128) -> int {
    if later >= earlier {
        later - earlier
    } else {
        0
    }
}

/// Whether a charge can be held short of full.
pub open spec fn can_hold(capacity: u8) -> bool {
    80 <= capacity < 100
}

/// Whether a configured charge limit can be one.
pub open spec fn is_limit(limit: u8) -> bool {
    80 <= limit <= 100
}

/// The target of a session that begins at `capacity`, and whether it is a learned one: the
/// configured limit first, then the learned target where the charge is not past it.
pub open spec fn session_target(configured: Option<u8>, learned: Option<u8>, capacity: u8) -> (
    u8,
    bool,
) {
    match (configured, learned) {
        (Some(limit), _) if is_limit(limit) => (limit, false),
        (_, Some(target)) if capacity <= target => (target, true),
        _ => (FULL_CHARGE, false),
    }
}

/// A session, if any, with a learned target that does not bind given up.
pub open spec fn revised_session(
    session: Option<ChargeSession>,
    status: BatteryStatus,
) -> Option<ChargeSession> {
    match session {
        Some(charge) => Some(charge.revised(status)),
        None => None,
    }
}

/// The scaling that a reading in a session needs: none without a session, and none where the
/// session is complete.
pub open spec fn session_scaling(
    session: Option<ChargeSession>,
    status: BatteryStatus,
) -> Option<Scaling> {
    match session {
        Some(charge) if !charge.revised(status).complete_at(status) => Some(
            charge.revised(status).scaling(status),
        ),
        _ => None,
    }
}

impl ChargeSession {
    /// Gives up a learned target that a reading shows not to bind.
    fn revise(self, status: BatteryStatus) -> (charge: ChargeSession)
        ensures
            charge == self.revised(status),
    {
        if self.learned_target && (status.capacity > self.target || status.capacity == self.target
            && status.is_charging) {
            ChargeSession { target: FULL_CHARGE, learned_target: false, ..self }
        } else {
            self
        }
    }
}

impl BatteryTimer {
    /// The timer before the first sample.
    pub open spec fn initial() -> BatteryTimer {
        BatteryTimer {
            elapsed: 0,
            sample: None,
            sampled_at: None,
            on_ac_power: None,
            charge: None,
            hold: None,
            learned_target: None,
        }
    }

    /// Whether the latest reading says that the machine runs on its battery.
    pub open spec fn on_battery(self) -> bool {
        self.sample is Some && !self.sample->0.on_ac_power
    }

    /// The time since the latest sample.
    pub open spec fn delta(self, now: u128) -> int {
        match self.sampled_at {
            Some(at) => time_since(now, at),
            None => 0,
        }
    }

    /// The time on battery up to `now`.
    pub open spec fn total(self, now: u128) -> int {
        if self.on_battery() {
            self.elapsed + self.delta(now)
        } else {
            self.elapsed as int
        }
    }

    /// Whether a sample is the first on external power.
    pub open spec fn enters_ac(self, sample: Option<BatteryStatus>) -> bool {
        sample is Some && sample->0.on_ac_power && self.on_ac_power != Some(true)
    }

    /// The charge session in which a reading is judged.
    pub open spec fn session(
        self,
        status: BatteryStatus,
        now: u128,
        configured: Option<u8>,
    ) -> Option<ChargeSession> {
        if self.enters_ac(Some(status)) {
            let (target, learned_target) = session_target(
                configured,
                self.learned_target,
                status.capacity,
            );
            Some(
                ChargeSession {
                    capacity: status.capacity,
                    elapsed: self.total(now) as u128,
                    target,
                    learned_target,
                },
            )
        } else {
            self.charge
        }
    }

    /// The time on battery that a reading leaves of `elapsed` in a session; `scaled` is what the
    /// session's scaling comes to.
    pub open spec fn remaining(
        elapsed: int,
        session: Option<ChargeSession>,
        status: BatteryStatus,
        scaled: u128,
    ) -> int {
        match session {
            None => elapsed,
            Some(charge) => if charge.revised(status).complete_at(status) {
                0
            } else if scaled < elapsed {
                scaled as int
            } else {
                elapsed
            },
        }
    }

    /// For how long the charge has been held at a reading, `delta` after the `previous` one. The
    /// time in between counts where the charge was paused at the same value then too.
    pub open spec fn held(
        self,
        status: BatteryStatus,
        previous: Option<BatteryStatus>,
        delta: int,
    ) -> int {
        match self.hold {
            Some(hold) if hold.capacity == status.capacity => {
                let stable = previous is Some && previous->0.charging_paused
                    && previous->0.capacity == status.capacity;
                if stable {
                    hold.elapsed + delta
                } else {
                    hold.elapsed as int
                }
            },
            _ => 0,
        }
    }

    /// Whether a reading shows a charge that is held short of full.
    pub open spec fn holds(status: BatteryStatus) -> bool {
        status.charging_paused && can_hold(status.capacity)
    }

    /// The timer once a held charge counts as full.
    pub open spec fn filled(self, capacity: u8) -> BatteryTimer {
        BatteryTimer {
            elapsed: 0,
            learned_target: Some(capacity),
            charge: match self.charge {
                Some(charge) => Some(
                    ChargeSession { target: capacity, learned_target: true, ..charge },
                ),
                None => None,
            },
            ..self
        }
    }

    /// The timer after a reading on external power has been looked at for a held charge.
    pub open spec fn after_hold(
        self,
        status: BatteryStatus,
        previous: Option<BatteryStatus>,
        delta: int,
    ) -> BatteryTimer {
        if Self::holds(status) {
            let held = self.held(status, previous, delta);
            let watched = BatteryTimer {
                hold: Some(StableHold { capacity: status.capacity, elapsed: held as u128 }),
                ..self
            };
            if held >= EFFECTIVE_FULL_HOLD {
                watched.filled(status.capacity)
            } else {
                watched
            }
        } else {
            BatteryTimer { hold: None, ..self }
        }
    }

    /// The timer after a sample; `scaled` is what the session's scaling comes to.
    pub open spec fn after_update(
        self,
        sample: Option<BatteryStatus>,
        now: u128,
        configured: Option<u8>,
        scaled: u128,
    ) -> BatteryTimer {
        let counted = BatteryTimer {
            elapsed: self.total(now) as u128,
            sample,
            sampled_at: Some(now),
            ..self
        };
        match sample {
            None => counted,
            Some(status) => {
                let session = self.session(status, now, configured);
                let judged = BatteryTimer {
                    elapsed: Self::remaining(self.total(now), session, status, scaled) as u128,
                    charge: revised_session(session, status),
                    on_ac_power: Some(status.on_ac_power),
                    ..counted
                };
                if status.on_ac_power {
                    judged.after_hold(status, self.sample, self.delta(now))
                } else {
                    BatteryTimer { charge: None, hold: None, ..judged }
                }
            },
        }
    }

    /// The scaling that a sample needs, if any.
    pub open spec fn scaling_for(
        self,
        sample: Option<BatteryStatus>,
        now: u128,
        configured: Option<u8>,
    ) -> Option<Scaling> {
        match sample {
            Some(status) => session_scaling(self.session(status, now, configured), status),
            None => None,
        }
    }

    /// Whether no duration grows past the longest one when a sample comes in.
    pub open spec fn in_range(self, sample: Option<BatteryStatus>, now: u128) -> bool {
        &&& self.total(now) <= DURATION_MAX
        &&& sample is Some && sample->0.on_ac_power && Self::holds(sample->0) ==> self.held(
            sample->0,
            self.sample,
            self.delta(now),
        ) <= DURATION_MAX
    }

    /// Whether a sample is the first on external power, so that the charge limit is to be read.
    pub fn entering_ac(&self, sample: Option<BatteryStatus>) -> (entering: bool)
        ensures
            entering == self.enters_ac(sample),
    {
        match sample {
            Some(status) => status.on_ac_power && match self.on_ac_power {
                Some(on_ac_power) => !on_ac_power,
                None => true,
            },
            None => false,
        }
    }

    /// The time since the latest sample.
    fn since_sample(&self, now: u128) -> (delta: u128)
        ensures
            delta == self.delta(now),
    {
        match self.sampled_at {
            Some(at) => if now >= at {
                now - at
            } else {
                0
            },
            None => 0,
        }
    }

    /// Whether the time on battery up to `now` can be counted.
    pub fn can_show(&self, now: u128) -> (can: bool)
        ensures
            can == (self.total(now) <= DURATION_MAX),
    {
        let delta: u128 = match self.sample {
            Some(status) => if !status.on_ac_power {
                self.since_sample(now)
            } else {
                0
            },
            None => 0,
        };
        self.elapsed <= DURATION_MAX && delta <= DURATION_MAX - self.elapsed
    }

    /// Whether a sample can be taken in without a duration that grows past the longest one.
    pub fn can_update(&self, sample: Option<BatteryStatus>, now: u128) -> (can: bool)
        ensures
            can == self.in_range(sample, now),
    {
        if !self.can_show(now) {
            return false;
        }
        match (sample, self.hold) {
            (Some(status), Some(hold)) => {
                let holds: bool = status.on_ac_power && status.charging_paused && 80
                    <= status.capacity && status.capacity < 100;
                let stable: bool = match self.sample {
                    Some(previous) => previous.charging_paused && previous.capacity
                        == status.capacity,
                    None => false,
                };
                let delta: u128 = if stable {
                    self.since_sample(now)
                } else {
                    0
                };
                !holds || hold.capacity != status.capacity || hold.elapsed <= DURATION_MAX && delta
                    <= DURATION_MAX - hold.elapsed
            },
            _ => true,
        }
    }

    /// The time on battery at `now`; none is shown on external power or without a reading.
    pub fn elapsed_at(&self, now: u128) -> (elapsed: Option<u128>)
        requires
            self.total(now) <= DURATION_MAX,
        ensures
            elapsed == if self.on_battery() {
                Some(self.total(now) as u128)
            } else {
                None
            },
    {
        match self.sample {
            Some(status) => if !status.on_ac_power {
                Some(self.elapsed + self.since_sample(now))
            } else {
                None
            },
            None => None,
        }
    }

    /// The scaling that `apply_charge` needs for a reading, if any.
    pub fn charge_scaling(&self, status: BatteryStatus) -> (scaling: Option<Scaling>)
        ensures
            scaling == session_scaling(self.charge, status),
    {
        match self.charge {
            Some(charge) => {
                let charge = charge.revise(status);
                if status.capacity >= charge.target || charge.capacity >= charge.target {
                    None
                } else {
                    Some(
                        Scaling {
                            elapsed: charge.elapsed,
                            part: charge.target - status.capacity,
                            whole: charge.target - charge.capacity,
                        },
                    )
                }
            },
            None => None,
        }
    }

    /// Takes off the time on battery what the charge session has won back. `scaled` is what the
    /// scaling of `charge_scaling` comes to; it counts only where there is one.
    pub fn apply_charge(&mut self, status: BatteryStatus, scaled: u128)
        ensures
            *final(self) == (BatteryTimer {
                elapsed: Self::remaining(
                    old(self).elapsed as int,
                    old(self).charge,
                    status,
                    scaled,
                ) as u128,
                charge: revised_session(old(self).charge, status),
                ..*old(self)
            }),
    {
        if let Some(charge) = self.charge {
            let charge = charge.revise(status);
            self.charge = Some(charge);
            let remaining: u128 = if status.capacity >= charge.target || charge.capacity
                >= charge.target {
                0
            } else {
                scaled
            };
            if remaining < self.elapsed {
                self.elapsed = remaining;
            }
        }
    }

    /// Watches a charge that the system holds short of full. Once it has been held for long
    /// enough it counts as full: no time on battery is left, and the charge is learned as the
    /// target of this session and the next ones.
    pub fn update_hold(
        &mut self,
        status: BatteryStatus,
        previous: Option<BatteryStatus>,
        delta: u128,
    )
        requires
            Self::holds(status) ==> old(self).held(status, previous, delta as int) <= DURATION_MAX,
        ensures
            *final(self) == old(self).after_hold(status, previous, delta as int),
    {
        if !status.charging_paused || !(80 <= status.capacity && status.capacity < 100) {
            self.hold = None;
            return;
        }
        let stable_delta: u128 = match previous {
            Some(previous) => if previous.charging_paused && previous.capacity == status.capacity {
                delta
            } else {
                0
            },
            None => 0,
        };
        let elapsed: u128 = match self.hold {
            Some(hold) => if hold.capacity == status.capacity {
                hold.elapsed + stable_delta
            } else {
                0
            },
            None => 0,
        };
        self.hold = Some(StableHold { capacity: status.capacity, elapsed });

        if elapsed >= EFFECTIVE_FULL_HOLD {
            self.elapsed = 0;
            self.learned_target = Some(status.capacity);
            if let Some(charge) = self.charge {
                self.charge = Some(
                    ChargeSession { target: status.capacity, learned_target: true, ..charge },
                );
            }
        }
    }

    /// Counts the time up to a sample, and begins a charge session where the sample is the first
    /// on external power.
    fn open_session(&mut self, sample: Option<BatteryStatus>, now: u128, configured: Option<u8>)
        requires
            old(self).total(now) <= DURATION_MAX,
        ensures
            *final(self) == (BatteryTimer {
                elapsed: old(self).total(now) as u128,
                sampled_at: Some(now),
                charge: match sample {
                    Some(status) => old(self).session(status, now, configured),
                    None => old(self).charge,
                },
                ..*old(self)
            }),
    {
        let delta: u128 = self.since_sample(now);
        if let Some(previous) = self.sample {
            if !previous.on_ac_power {
                self.elapsed = self.elapsed + delta;
            }
        }
        self.sampled_at = Some(now);

        if let Some(status) = sample {
            if self.entering_ac(sample) {
                let (target, learned_target) = choose_target(
                    configured,
                    self.learned_target,
                    status.capacity,
                );
                self.charge = Some(
                    ChargeSession {
                        capacity: status.capacity,
                        elapsed: self.elapsed,
                        target,
                        learned_target,
                    },
                );
            }
        }
    }

    /// The scaling that `update` needs for a sample, if any.
    pub fn update_scaling(
        &self,
        sample: Option<BatteryStatus>,
        now: u128,
        configured_target: Option<u8>,
    ) -> (scaling: Option<Scaling>)
        requires
            self.total(now) <= DURATION_MAX,
        ensures
            scaling == self.scaling_for(sample, now, configured_target),
    {
        match sample {
            Some(status) => {
                let mut opened = *self;
                opened.open_session(sample, now, configured_target);
                opened.charge_scaling(status)
            },
            None => None,
        }
    }

    /// Takes in a sample. `scaled` is what the scaling of `update_scaling` comes to; it counts
    /// only where there is one.
    pub fn update(
        &mut self,
        sample: Option<BatteryStatus>,
        now: u128,
        configured_target: Option<u8>,
        scaled: u128,
    )
        requires
            old(self).in_range(sample, now),
        ensures
            *final(self) == old(self).after_update(sample, now, configured_target, scaled),
    {
        let previous = self.sample;
        let delta: u128 = self.since_sample(now);
        self.open_session(sample, now, configured_target);

        let status = match sample {
            Some(status) => status,
            None => {
                self.sample = None;
                return;
            },
        };
        self.apply_charge(status, scaled);

        if status.on_ac_power {
            self.update_hold(status, previous, delta);
        } else {
            self.charge = None;
            self.hold = None;
        }
        self.on_ac_power = Some(status.on_ac_power);
        self.sample = Some(status);
    }
}

/// The target of a session that begins at `capacity`, and whether it is a learned one.
fn choose_target(configured: Option<u8>, learned: Option<u8>, capacity: u8) -> (target: (u8, bool))
    ensures
        target == session_target(configured, learned, capacity),
{
    if let Some(limit) = configured {
        if 80 <= limit && limit <= 100 {
            return (limit, false);
        }
    }
    if let Some(target) = learned {
        if capacity <= target {
            return (target, true);
        }
    }
    (FULL_CHARGE, false)
}

} // verus!
