//! What the user and the clock ask for.

use crate::battery::BatteryStatus;
use crate::metrics::Metrics;
use crate::timer::time_since;
use vstd::prelude::*;
use vstd::string::*;

verus! {

/// How long the first measurement takes, in milliseconds.
pub const FIRST_SAMPLE_MS: u32 = 100;

/// A key that was pressed.
#[derive(Clone, Copy, Debug, PartialEq, Eq, Structural)]
pub struct Key {
    /// The character of the key, if it has one.
    pub character: Option<char>,
    /// Whether the control key was held with it, and no other.
    pub control: bool,
}

/// What happened.
#[derive(Debug)]
pub enum Event {
    Update(Box<Metrics>, Option<BatteryStatus>),
    ChangeColor,
    ChangeView,
    TogglePerCore,
    ToggleRatioMode,
    ToggleHelp,
    IncInterval,
    DecInterval,
    Tick,
    Quit,
}

/// What a key asks for.
pub open spec fn key_event(key: Key) -> Option<Event> {
    match key.character {
        Some('q') => Some(Event::Quit),
        Some('c') => if key.control {
            Some(Event::Quit)
        } else {
            Some(Event::ChangeColor)
        },
        Some('v') => Some(Event::ChangeView),
        Some('d') => Some(Event::TogglePerCore),
        Some('r') => Some(Event::ToggleRatioMode),
        Some('?') => Some(Event::ToggleHelp),
        Some('+') => Some(Event::IncInterval),
        Some('=') => Some(Event::IncInterval),
        Some('-') => Some(Event::DecInterval),
        _ => None,
    }
}

/// What a key asks for, if anything. The equals sign stands for a plus without shift.
pub fn handle_key_event(key: Key) -> (event: Option<Event>)
    ensures
        event == key_event(key),
{
    match key.character {
        Some('q') => Some(Event::Quit),
        Some('c') => if key.control {
            Some(Event::Quit)
        } else {
            Some(Event::ChangeColor)
        },
        Some('v') => Some(Event::ChangeView),
        Some('d') => Some(Event::TogglePerCore),
        Some('r') => Some(Event::ToggleRatioMode),
        Some('?') => Some(Event::ToggleHelp),
        Some('+') => Some(Event::IncInterval),
        Some('=') => Some(Event::IncInterval),
        Some('-') => Some(Event::DecInterval),
        _ => None,
    }
}

/// When the next tick is due. Times are in nanoseconds.
#[derive(Clone, Copy, Debug, PartialEq, Eq, Structural)]
pub struct TickClock {
    pub last_tick: u128,
    pub tick_rate: u128,
}

impl TickClock {
    /// Whether a tick is due: as much time has passed since the latest as lies between two.
    pub open spec fn is_due(self, now: u128) -> bool {
        time_since(now, self.last_tick) >= self.tick_rate
    }

    /// Whether a tick is due.
    pub fn due(&self, now: u128) -> (due: bool)
        ensures
            due == self.is_due(now),
            due == (time_since(now, self.last_tick) >= self.tick_rate),
    {
        let elapsed: u128 = if now >= self.last_tick {
            now - self.last_tick
        } else {
            0
        };
        elapsed >= self.tick_rate
    }

    /// Counts on from a tick.
    pub fn ticked(&mut self, now: u128)
        ensures
            *final(self) == (TickClock { last_tick: now, ..*old(self) }),
    {
        self.last_tick = now;
    }
}

/// How long a measurement takes: as long as is set, but no less than the least time.
pub open spec fn measuring_time(interval: u32, least: u32) -> u32 {
    if interval >= least {
        interval
    } else {
        least
    }
}

/// How long a measurement takes: as long as is set, but no less than the least time.
pub fn sample_interval(interval: u32, least: u32) -> (msec: u32)
    ensures
        msec == measuring_time(interval, least),
        msec == if interval >= least {
            interval
        } else {
            least
        },
{
    if interval >= least {
        interval
    } else {
        least
    }
}

/// The symbols that charts are drawn with.
#[derive(Clone, Copy, Debug, PartialEq, Eq, Structural)]
pub enum BarSet {
    ThreeLevels,
    NineLevels,
}

/// The symbols that a terminal can draw, by its name: the system's own one has only a few.
pub open spec fn bars_for(name: Option<Seq<char>>) -> BarSet {
    if name == Some("Apple_Terminal"@) {
        BarSet::ThreeLevels
    } else {
        BarSet::NineLevels
    }
}

/// The symbols that a terminal can draw: the system's own one has only a few.
pub fn bar_set(term_program: Option<&str>) -> (set: BarSet)
    ensures
        set == bars_for(
            match term_program {
                Some(name) => Some(name@),
                None => None,
            },
        ),
        set == if term_program is Some && term_program->0@ == "Apple_Terminal"@ {
            BarSet::ThreeLevels
        } else {
            BarSet::NineLevels
        },
{
    match term_program {
        Some(name) => if name.to_owned() == "Apple_Terminal".to_owned() {
            BarSet::ThreeLevels
        } else {
            BarSet::NineLevels
        },
        None => BarSet::NineLevels,
    }
}

/// A tick is due from the moment on at which the time between two ticks has passed, and after a
/// tick not again before.
pub proof fn law_ticks_come_at_their_rate(clock: TickClock, now: u128, later: u128)
    requires
        clock.tick_rate > 0,
    ensures
        clock.is_due(now) <==> now >= clock.last_tick + clock.tick_rate,
        clock.is_due(now) && now <= later ==> clock.is_due(later),
        (TickClock { last_tick: now, ..clock }).is_due(later) ==> later - now >= clock.tick_rate,
{
}

/// A measurement takes the time that is set or the least time, whichever is longer.
pub proof fn law_measurements_take_the_longer_time(interval: u32, least: u32)
    ensures
        measuring_time(interval, least) >= interval,
        measuring_time(interval, least) >= least,
        measuring_time(interval, least) == interval || measuring_time(interval, least) == least,
{
}

/// Only the terminal of the system draws with three levels.
pub proof fn law_other_terminals_draw_nine_levels(name: Seq<char>)
    ensures
        bars_for(Some("Apple_Terminal"@)) == BarSet::ThreeLevels,
        name != "Apple_Terminal"@ ==> bars_for(Some(name)) == BarSet::NineLevels,
        bars_for(None) == BarSet::NineLevels,
{
}

/// Only the letter q, and the letter c with the control key, end the program.
pub proof fn law_keys_that_quit(key: Key)
    ensures
        key_event(key) == Some(Event::Quit) <==> key.character == Some('q') || (key.character
            == Some('c') && key.control),
{
}

} // verus!
