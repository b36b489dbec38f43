//! The state of the monitor, and what changes it.

use crate::battery::{
    BatteryStatus, battery_runtime, battery_runtime_key, runtime_key, runtime_text,
};
use crate::config::Config;
use crate::cores::{CpuFreqStore, after_measurement, by_core};
use crate::event::Event;
use crate::history::recorded;
use crate::metrics::{Metrics, RatioView, SocInfo};
use crate::stores::{
    FanStore, FreqSample, FreqSampleView, FreqStore, FreqStoreView, MAX_SPARKLINE, MAX_TEMPS,
    MemoryStore, PowerStore, TempStore,
};
use crate::timer::BatteryTimer;
use vstd::prelude::*;
use vstd::string::*;

verus! {

/// Everything that the screen is drawn from.
#[derive(Debug)]
pub struct App {
    pub cfg: Config,
    pub soc: SocInfo,
    pub mem: MemoryStore,
    pub cpu_power: PowerStore,
    pub gpu_power: PowerStore,
    pub all_power: PowerStore,
    pub sys_power: PowerStore,
    pub cpu_temp: TempStore,
    pub gpu_temp: TempStore,
    pub fans: FanStore,
    pub battery: Option<BatteryStatus>,
    pub battery_timer: BatteryTimer,
    pub battery_runtime_key: Option<(usize, Option<u8>)>,
    pub battery_runtime: String,
    pub show_help: bool,
    pub ecpu_freq: CpuFreqStore,
    pub pcpu_freq: CpuFreqStore,
    pub igpu_freq: FreqStore,
}

/// A change of the settings.
#[derive(Clone, Copy, Debug, PartialEq, Eq, Structural)]
pub enum Setting {
    NextColor,
    NextViewType,
    TogglePerCoreView,
    ToggleRatioMode,
    IncInterval,
    DecInterval,
}

/// What is to be done after an event, before the screen is drawn again.
#[derive(Clone, Copy, Debug, PartialEq, Eq, Structural)]
pub enum Action {
    /// To leave the program.
    Quit,
    /// Nothing.
    Continue,
    /// To take in a reading of the battery.
    TakeBattery(Option<BatteryStatus>),
    /// To change the settings.
    Change(Setting),
}

/// What an event leaves to be done.
pub open spec fn action_of(event: Event) -> Action {
    match event {
        Event::Quit => Action::Quit,
        Event::Update(_, battery) => Action::TakeBattery(battery),
        Event::ChangeColor => Action::Change(Setting::NextColor),
        Event::ChangeView => Action::Change(Setting::NextViewType),
        Event::TogglePerCore => Action::Change(Setting::TogglePerCoreView),
        Event::ToggleRatioMode => Action::Change(Setting::ToggleRatioMode),
        Event::IncInterval => Action::Change(Setting::IncInterval),
        Event::DecInterval => Action::Change(Setting::DecInterval),
        Event::ToggleHelp => Action::Continue,
        Event::Tick => Action::Continue,
    }
}

/// Whether the help is shown after an event.
pub open spec fn help_after(shown: bool, event: Event) -> bool {
    match event {
        Event::ToggleHelp => !shown,
        _ => shown,
    }
}

/// What the screen shows of a reading of the charge on battery, if there is one.
pub open spec fn shown_key(battery: Option<BatteryStatus>) -> Option<(usize, Option<u8>)> {
    match battery {
        Some(status) => runtime_key(status),
        None => None,
    }
}

/// The runtime that a reading promises; none on external power, or where the energy is not known.
pub open spec fn promised_runtime(battery: Option<BatteryStatus>) -> Seq<char> {
    match battery {
        Some(status) if !status.on_ac_power && status.remaining_energy_mwh is Some => runtime_text(
            status.remaining_energy_mwh->0,
        ),
        _ => Seq::empty(),
    }
}

impl App {
    /// Whether the histories of the cores are in order.
    pub open spec fn well_formed(self) -> bool {
        self.ecpu_freq@.well_formed() && self.pcpu_freq@.well_formed()
    }

    /// Whether the runtime is that of a charge which the screen shows: it was worked out for the
    /// latest reading or one that looks like it, and there is none without a charge to show.
    pub open spec fn runtime_is_current(self) -> bool {
        &&& self.battery_runtime_key == shown_key(self.battery)
        &&& self.battery_runtime_key is None ==> self.battery_runtime@.len() == 0
    }

    /// Whether the histories of all powers are those of `old` with one more value.
    pub open spec fn powers_recorded(self, old: App, data: Metrics) -> bool {
        let limit = MAX_SPARKLINE as nat;
        &&& self.cpu_power.items@ == recorded(old.cpu_power.items@, data.cpu_power, limit)
        &&& self.gpu_power.items@ == recorded(old.gpu_power.items@, data.gpu_power, limit)
        &&& self.all_power.items@ == recorded(old.all_power.items@, data.all_power, limit)
        &&& self.sys_power.items@ == recorded(old.sys_power.items@, data.sys_power, limit)
        &&& same_figures(self.cpu_power, old.cpu_power)
        &&& same_figures(self.gpu_power, old.gpu_power)
        &&& same_figures(self.all_power, old.all_power)
        &&& same_figures(self.sys_power, old.sys_power)
    }

    /// Whether the histories of all processors are those of `old` with one more measurement.
    pub open spec fn processors_recorded(self, old: App, data: Metrics) -> bool {
        &&& self.ecpu_freq@.aggregate == old.ecpu_freq@.aggregate.pushed(
            measured(data.ecpu_freq_mhz, data.ecpu_scaled_ratio@, data.ecpu_active_ratio@),
        )
        &&& by_core(self.ecpu_freq@.cores) == after_measurement(
            by_core(old.ecpu_freq@.cores),
            data.ecpu_cores@,
        )
        &&& self.pcpu_freq@.aggregate == old.pcpu_freq@.aggregate.pushed(
            measured(data.pcpu_freq_mhz, data.pcpu_scaled_ratio@, data.pcpu_active_ratio@),
        )
        &&& by_core(self.pcpu_freq@.cores) == after_measurement(
            by_core(old.pcpu_freq@.cores),
            data.pcpu_cores@,
        )
        &&& self.igpu_freq@ == old.igpu_freq@.pushed(
            measured(data.gpu_freq_mhz, data.gpu_scaled_ratio@, data.gpu_active_ratio@),
        )
    }

    /// Whether the histories of the temperatures, the fans and the memory are those of `old`
    /// after one more measurement.
    pub open spec fn sensors_recorded(self, old: App, data: Metrics) -> bool {
        let limit = MAX_SPARKLINE as nat;
        &&& self.cpu_temp.items@ == match TempStore::value_of(old.cpu_temp.items@, data.cpu_temp) {
            Some(value) => recorded(old.cpu_temp.items@, value, MAX_TEMPS as nat),
            None => old.cpu_temp.items@,
        }
        &&& self.gpu_temp.items@ == match TempStore::value_of(old.gpu_temp.items@, data.gpu_temp) {
            Some(value) => recorded(old.gpu_temp.items@, value, MAX_TEMPS as nat),
            None => old.gpu_temp.items@,
        }
        &&& self.fans.items == data.fans
        &&& self.mem.recorded_from(old.mem, data.memory)
    }

    /// The runtime once a reading has come in: that of the reading where it shows another charge
    /// than the reading before, else the one there was.
    pub open spec fn runtime_after(self, battery: Option<BatteryStatus>) -> Seq<char> {
        if shown_key(battery) != self.battery_runtime_key {
            promised_runtime(battery)
        } else {
            self.battery_runtime@
        }
    }

    /// The time between two measurements with which the program starts.
    pub open spec fn first_interval(self, interval: Option<u32>, least: u32, most: u32) -> u32 {
        clamped(
            match interval {
                Some(interval) => interval,
                None => self.cfg.interval,
            },
            least,
            most,
        )
    }

    /// The state before the first event.
    pub fn new(cfg: Config, soc: SocInfo) -> (app: App)
        ensures
            app.well_formed(),
            app.cfg == cfg,
            app.soc == soc,
            app.mem.is_empty(),
            app.cpu_power.is_empty(),
            app.gpu_power.is_empty(),
            app.all_power.is_empty(),
            app.sys_power.is_empty(),
            app.cpu_temp.items@.len() == 0,
            app.gpu_temp.items@.len() == 0,
            app.fans.items@.len() == 0,
            app.battery is None,
            app.battery_timer == BatteryTimer::initial(),
            app.battery_runtime_key is None,
            app.battery_runtime@.len() == 0,
            app.runtime_is_current(),
            !app.show_help,
            app.ecpu_freq@.is_empty(),
            app.pcpu_freq@.is_empty(),
            app.igpu_freq@ == FreqStoreView::empty(),
    {
        App {
            cfg,
            soc,
            mem: MemoryStore::empty(),
            cpu_power: PowerStore::empty(),
            gpu_power: PowerStore::empty(),
            all_power: PowerStore::empty(),
            sys_power: PowerStore::empty(),
            cpu_temp: TempStore::empty(),
            gpu_temp: TempStore::empty(),
            fans: FanStore::empty(),
            battery: None,
            battery_timer: BatteryTimer::default(),
            battery_runtime_key: None,
            battery_runtime: String::new(),
            show_help: false,
            ecpu_freq: CpuFreqStore::empty(),
            pcpu_freq: CpuFreqStore::empty(),
            igpu_freq: FreqStore::empty(),
        }
    }

    /// Sets the time between two measurements: the given one, else that of the settings, within
    /// the bounds.
    pub fn start(&mut self, interval: Option<u32>, least: u32, most: u32) -> (msec: u32)
        requires
            least <= most,
        ensures
            msec == old(self).first_interval(interval, least, most),
            msec == clamped(
                match interval {
                    Some(interval) => interval,
                    None => old(self).cfg.interval,
                },
                least,
                most,
            ),
            *final(self) == (App {
                cfg: Config { interval: msec, ..old(self).cfg },
                ..*old(self)
            }),
    {
        let wanted: u32 = match interval {
            Some(interval) => interval,
            None => self.cfg.interval,
        };
        let msec: u32 = if wanted < least {
            least
        } else if wanted > most {
            most
        } else {
            wanted
        };
        self.cfg.interval = msec;
        msec
    }

    /// Takes in a measurement. The figures of the powers stay as they are until they are worked
    /// out from the new histories.
    pub fn update_metrics(&mut self, data: Metrics)
        requires
            old(self).well_formed(),
        ensures
            final(self).well_formed(),
            final(self).powers_recorded(*old(self), data),
            final(self).processors_recorded(*old(self), data),
            final(self).sensors_recorded(*old(self), data),
            final(self).cfg == old(self).cfg,
            final(self).soc == old(self).soc,
            final(self).battery == old(self).battery,
            final(self).battery_timer == old(self).battery_timer,
            final(self).battery_runtime_key == old(self).battery_runtime_key,
            final(self).battery_runtime == old(self).battery_runtime,
            final(self).show_help == old(self).show_help,
    {
        self.cpu_power.push(data.cpu_power);
        self.gpu_power.push(data.gpu_power);
        self.all_power.push(data.all_power);
        self.sys_power.push(data.sys_power);

        let ecpu = FreqSample::new(
            data.ecpu_freq_mhz,
            data.ecpu_scaled_ratio,
            data.ecpu_active_ratio,
        );
        let pcpu = FreqSample::new(
            data.pcpu_freq_mhz,
            data.pcpu_scaled_ratio,
            data.pcpu_active_ratio,
        );
        let igpu = FreqSample::new(
            data.gpu_freq_mhz,
            data.gpu_scaled_ratio,
            data.gpu_active_ratio,
        );
        self.ecpu_freq.push(ecpu, &data.ecpu_cores);
        self.pcpu_freq.push(pcpu, &data.pcpu_cores);
        self.igpu_freq.push(igpu);

        self.cpu_temp.push(data.cpu_temp);
        self.gpu_temp.push(data.gpu_temp);
        self.fans.push(data.fans);
        self.mem.push(data.memory);
    }

    /// Takes in a reading of the battery. `charge_limit` is the configured limit, where
    /// `BatteryTimer::entering_ac` asks for it, and `scaled` what the scaling of
    /// `BatteryTimer::update_scaling` comes to, where there is one. The runtime is worked out
    /// anew only when what the screen shows of the charge has changed.
    pub fn update_battery(
        &mut self,
        battery: Option<BatteryStatus>,
        now: u128,
        charge_limit: Option<u8>,
        scaled: u128,
    )
        requires
            old(self).battery_timer.in_range(battery, now),
        ensures
            final(self).battery_runtime@ == old(self).runtime_after(battery),
            final(self).battery_runtime@ == if shown_key(battery) != old(self).battery_runtime_key {
                promised_runtime(battery)
            } else {
                old(self).battery_runtime@
            },
            *final(self) == (App {
                battery,
                battery_timer: old(self).battery_timer.after_update(
                    battery,
                    now,
                    charge_limit,
                    scaled,
                ),
                battery_runtime_key: shown_key(battery),
                battery_runtime: final(self).battery_runtime,
                ..*old(self)
            }),
            old(self).runtime_is_current() ==> final(self).runtime_is_current(),
    {
        self.battery_timer.update(battery, now, charge_limit, scaled);

        let key = match battery {
            Some(status) => battery_runtime_key(status),
            None => None,
        };
        if !same_key(key, self.battery_runtime_key) {
            self.battery_runtime = promise_runtime(battery);
            self.battery_runtime_key = key;
        }
        self.battery = battery;
    }

    /// Takes in an event.
    pub fn handle_event(&mut self, event: Event) -> (action: Action)
        requires
            old(self).well_formed(),
        ensures
            action == action_of(event),
            final(self).well_formed(),
            final(self).show_help == help_after(old(self).show_help, event),
            match event {
                Event::Update(data, _) => {
                    &&& final(self).powers_recorded(*old(self), *data)
                    &&& final(self).processors_recorded(*old(self), *data)
                    &&& final(self).sensors_recorded(*old(self), *data)
                    &&& final(self).cfg == old(self).cfg
                    &&& final(self).soc == old(self).soc
                    &&& final(self).battery == old(self).battery
                    &&& final(self).battery_timer == old(self).battery_timer
                    &&& final(self).battery_runtime_key == old(self).battery_runtime_key
                    &&& final(self).battery_runtime == old(self).battery_runtime
                    &&& final(self).show_help == old(self).show_help
                },
                Event::ToggleHelp => *final(self) == (App {
                    show_help: !old(self).show_help,
                    ..*old(self)
                }),
                _ => *final(self) == *old(self),
            },
    {
        match event {
            Event::Quit => Action::Quit,
            Event::Update(data, battery) => {
                self.update_metrics(*data);
                Action::TakeBattery(battery)
            },
            Event::ChangeColor => Action::Change(Setting::NextColor),
            Event::ChangeView => Action::Change(Setting::NextViewType),
            Event::TogglePerCore => Action::Change(Setting::TogglePerCoreView),
            Event::ToggleRatioMode => Action::Change(Setting::ToggleRatioMode),
            Event::ToggleHelp => {
                self.show_help = !self.show_help;
                Action::Continue
            },
            Event::IncInterval => Action::Change(Setting::IncInterval),
            Event::DecInterval => Action::Change(Setting::DecInterval),
            Event::Tick => Action::Continue,
        }
    }

    /// Takes in changed settings. Where the time between two measurements was to change, it is
    /// handed back, for whoever measures.
    pub fn apply_config(&mut self, setting: Setting, cfg: Config) -> (interval: Option<u32>)
        ensures
            *final(self) == (App { cfg, ..*old(self) }),
            interval == handed_on(setting, cfg),
            interval == match setting {
                Setting::IncInterval => Some(cfg.interval),
                Setting::DecInterval => Some(cfg.interval),
                _ => None,
            },
    {
        self.cfg = cfg;
        match setting {
            Setting::IncInterval => Some(cfg.interval),
            Setting::DecInterval => Some(cfg.interval),
            _ => None,
        }
    }
}

/// The time between two measurements that a change of the settings hands on, if any.
pub open spec fn handed_on(setting: Setting, cfg: Config) -> Option<u32> {
    match setting {
        Setting::IncInterval => Some(cfg.interval),
        Setting::DecInterval => Some(cfg.interval),
        _ => None,
    }
}

/// Whether two powers show the same figures.
pub open spec fn same_figures(a: PowerStore, b: PowerStore) -> bool {
    a.top_value == b.top_value && a.avg_value == b.avg_value && a.max_value == b.max_value
}

/// What a measurement of a processor stands for.
pub open spec fn measured(
    freq_mhz: u32,
    scaled_ratio: RatioView,
    active_ratio: RatioView,
) -> FreqSampleView {
    FreqSampleView { freq_mhz: freq_mhz as u64, scaled_ratio, active_ratio }
}

/// A number, or the bound that it lies past.
pub open spec fn clamped(value: u32, least: u32, most: u32) -> u32 {
    if value < least {
        least
    } else if value > most {
        most
    } else {
        value
    }
}

/// Whether two keys are the same.
fn same_key(a: Option<(usize, Option<u8>)>, b: Option<(usize, Option<u8>)>) -> (same: bool)
    ensures
        same == (a == b),
{
    match (a, b) {
        (Some((steps_a, low_a)), Some((steps_b, low_b))) => steps_a == steps_b && match (
            low_a,
            low_b,
        ) {
            (Some(x), Some(y)) => x == y,
            (None, None) => true,
            _ => false,
        },
        (None, None) => true,
        _ => false,
    }
}

/// The runtime that a reading promises.
fn promise_runtime(battery: Option<BatteryStatus>) -> (text: String)
    ensures
        text@ == promised_runtime(battery),
{
    match battery {
        Some(status) => match status.remaining_energy_mwh {
            Some(energy_mwh) => if !status.on_ac_power {
                battery_runtime(energy_mwh)
            } else {
                String::new()
            },
            None => String::new(),
        },
        None => String::new(),
    }
}

} // verus!
