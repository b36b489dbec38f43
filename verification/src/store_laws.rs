//! What holds of the histories, and of the state that is made of them.

use crate::app::{
    Action, App, Setting, action_of, clamped, handed_on, help_after, promised_runtime,
    shown_key,
};
use crate::battery::{BatteryStatus, runtime_key, runtime_text};
use crate::config::{Config, RatioMode};
use crate::cores::{
    CoreId, CpuFreqStoreView, after_measurement, by_core, in_order, is_measured,
    law_cores_are_kept, law_measured_cores_get_their_sample, law_missing_cores_are_idle,
    lemma_by_core, with_sample, with_samples,
};
use crate::event::{Event, Key, key_event};
use crate::history::{law_largest_is_a_bound, law_recorded_history_begins_with_the_value};
use crate::metrics::{CpuCoreMetrics, FanMetric, MemMetrics, Metrics, RatioView, Temp, TempSample};
use crate::stores::{
    FreqSampleView, FreqStoreView, MemoryStore, PowerStore, SeriesView, TempStore, fans_text,
    speeds_text,
};
use crate::text::decimal;
use vstd::prelude::*;

verus! {

/// Whether a history is another one with a value added at its front, and cut off behind its first
/// `limit` values.
pub open spec fn grown<T>(after: Seq<T>, before: Seq<T>, value: T, limit: nat) -> bool {
    &&& after.len() == if before.len() < limit {
        before.len() + 1
    } else {
        limit
    }
    &&& after[0] == value
    &&& forall|i: int| 0 < i < after.len() ==> #[trigger] after[i] == before[i - 1]
}

/// Whether the history of a share is another one with a share added: the share is its latest, and
/// its percentage stands before those of up to 127 earlier ones.
pub open spec fn series_grown(after: SeriesView, before: SeriesView, ratio: RatioView) -> bool {
    &&& after.ratio == ratio
    &&& grown(after.items, before.items, ratio.percent, 128)
}

/// Whether the history of a processor is another one with a sample added: its frequency is the
/// latest, and each of its shares is added to the history of that share.
pub open spec fn store_grown(
    after: FreqStoreView,
    before: FreqStoreView,
    freq_mhz: int,
    scaled_ratio: RatioView,
    active_ratio: RatioView,
) -> bool {
    &&& after.freq_mhz == freq_mhz
    &&& series_grown(after.scaled, before.scaled, scaled_ratio)
    &&& series_grown(after.active, before.active, active_ratio)
}

/// A share that comes in is the latest of its history.
pub proof fn law_shares_are_added_at_the_front(series: SeriesView, ratio: RatioView)
    ensures
        series_grown(series.pushed(ratio), series, ratio),
{
    law_recorded_history_begins_with_the_value(series.items, ratio.percent, 128);
}

/// A sample of a processor is added to both of its histories, each share to its own.
pub proof fn law_samples_are_added_to_both_histories(store: FreqStoreView, sample: FreqSampleView)
    ensures
        store_grown(
            store.pushed(sample),
            store,
            sample.freq_mhz as int,
            sample.scaled_ratio,
            sample.active_ratio,
        ),
{
    law_shares_are_added_at_the_front(store.scaled, sample.scaled_ratio);
    law_shares_are_added_at_the_front(store.active, sample.active_ratio);
}

/// The mode decides which history is shown.
pub proof fn law_mode_decides_the_history(store: FreqStoreView)
    ensures
        store.ratio(RatioMode::Scaled) == store.scaled,
        store.ratio(RatioMode::Active) == store.active,
{
}

/// A history before the first sample has no values, and its latest are zero.
pub proof fn law_new_histories_are_empty()
    ensures
        ({
            let empty = FreqStoreView::empty();
            &&& empty.freq_mhz == 0
            &&& empty.scaled.items.len() == 0 && empty.active.items.len() == 0
            &&& empty.scaled.ratio == FreqSampleView::idle().scaled_ratio
            &&& empty.active.ratio == FreqSampleView::idle().active_ratio
        }),
        ({
            let idle = FreqSampleView::idle();
            &&& idle.freq_mhz == 0
            &&& idle.scaled_ratio.bits == 0 && idle.scaled_ratio.percent == 0
            &&& idle.scaled_ratio.text == "  0"@
            &&& idle.active_ratio == idle.scaled_ratio
        }),
{
}

/// A core is before another on a later die, and on the same die before one with a higher number;
/// of two different cores exactly one is before the other.
pub proof fn law_cores_are_ordered_by_die(a: CoreId, b: CoreId)
    ensures
        a.die_id < b.die_id ==> a.before(b),
        a.die_id == b.die_id && a.core_id < b.core_id ==> a.before(b),
        !(a.before(b) && b.before(a)),
        a.before(b) || b.before(a) <==> a != b,
{
}

/// In order, the cores of a die stand together, those of the lowest die first and in each die
/// that with the lowest number first.
pub proof fn law_order_is_by_die_and_number(view: CpuFreqStoreView, i: int, j: int)
    requires
        view.well_formed(),
        0 <= i < j < view.cores.len(),
    ensures
        view.cores[i].id.die_id <= view.cores[j].id.die_id,
        view.cores[i].id.die_id == view.cores[j].id.die_id ==> view.cores[i].id.core_id
            < view.cores[j].id.core_id,
{
    assert(in_order(view.cores));
    assert(view.cores[i].id.before(view.cores[j].id));
}

/// There are several dies unless all cores are on one.
pub proof fn law_one_die_is_not_several(view: CpuFreqStoreView, die_id: usize)
    ensures
        (forall|i: int|
            0 <= i < view.cores.len() ==> (#[trigger] view.cores[i]).id.die_id == die_id)
            ==> !view.multiple_dies(),
        !view.multiple_dies() && view.cores.len() > 0 ==> forall|i: int|
            0 <= i < view.cores.len() ==> (#[trigger] view.cores[i]).id.die_id
                == view.cores[0].id.die_id,
{
}

/// A core that is measured gets the sample that was measured of it, on top of the history it had;
/// one that is not measured gets that of a core that is off, at no frequency and with no share.
#[verifier::rlimit(30)]
pub proof fn law_every_core_gets_a_sample(
    histories: Map<CoreId, FreqStoreView>,
    cores: Seq<CpuCoreMetrics>,
    at: int,
    missing: CoreId,
)
    requires
        0 <= at < cores.len(),
        forall|i: int|
            0 <= i < cores.len() && i != at ==> {
                ||| (#[trigger] cores[i]).die_id != cores[at].die_id
                ||| cores[i].core_id != cores[at].core_id
            },
        histories.contains_key(missing),
        forall|i: int|
            0 <= i < cores.len() ==> {
                ||| (#[trigger] cores[i]).die_id != missing.die_id
                ||| cores[i].core_id != missing.core_id
            },
    ensures
        ({
            let id = CoreId { die_id: cores[at].die_id, core_id: cores[at].core_id };
            let after = after_measurement(histories, cores);
            let before = if histories.contains_key(id) {
                histories[id]
            } else {
                FreqStoreView::empty()
            };
            let zero = FreqSampleView::idle().active_ratio;
            &&& after.contains_key(id)
            &&& store_grown(
                after[id],
                before,
                cores[at].freq_mhz as int,
                cores[at].scaled_ratio@,
                cores[at].active_ratio@,
            )
            &&& after.contains_key(missing)
            &&& store_grown(after[missing], histories[missing], 0, zero, zero)
        }),
{
    let id = CoreId::of(cores[at]);
    assert forall|i: int| 0 <= i < cores.len() && i != at implies CoreId::of(#[trigger] cores[i])
        != id by {}
    law_measured_cores_get_their_sample(histories, cores, at);
    assert(!is_measured(cores, missing)) by {
        if is_measured(cores, missing) {
            let i = choose|i: int|
                0 <= i < cores.len() && CoreId::of(#[trigger] cores[i]) == missing;
            assert(cores[i].die_id == missing.die_id);
        }
    }
    law_missing_cores_are_idle(histories, cores, missing);
    let before = if histories.contains_key(id) {
        histories[id]
    } else {
        FreqStoreView::empty()
    };
    law_samples_are_added_to_both_histories(before, FreqSampleView::of_core(cores[at]));
    law_samples_are_added_to_both_histories(histories[missing], FreqSampleView::idle());
}

/// A core that stands twice in a measurement gets both samples, one after the other: the samples
/// of two measurements in a row are those of both lists.
pub proof fn law_samples_come_in_one_after_the_other(
    histories: Map<CoreId, FreqStoreView>,
    first: Seq<CpuCoreMetrics>,
    second: Seq<CpuCoreMetrics>,
    single: CpuCoreMetrics,
)
    ensures
        with_samples(histories, first + second) == with_samples(
            with_samples(histories, first),
            second,
        ),
        with_samples(histories, seq![single]) == with_sample(
            histories,
            CoreId { die_id: single.die_id, core_id: single.core_id },
            FreqSampleView::of_core(single),
        ),
    decreases second.len(),
{
    reveal_with_fuel(with_samples, 2);
    assert(seq![single].drop_last() =~= Seq::<CpuCoreMetrics>::empty());
    if second.len() == 0 {
        assert(first + second =~= first);
    } else {
        law_samples_come_in_one_after_the_other(histories, first, second.drop_last(), single);
        assert((first + second).drop_last() =~= first + second.drop_last());
        assert((first + second).last() == second.last());
    }
}

/// Of a temperature, what the sensor says comes in; where it says nothing, what the trend of at
/// least two earlier values suggests; and where that is nothing either, nothing.
pub proof fn law_sensor_comes_before_the_trend(items: Seq<Temp>, sample: TempSample)
    ensures
        sample.measured is Some ==> TempStore::value_of(items, sample) == sample.measured,
        sample.measured is None && items.len() >= 2 ==> TempStore::value_of(items, sample)
            == sample.trend,
        sample.measured is None && items.len() <= 1 ==> TempStore::value_of(items, sample) is None,
{
}

/// The fans are listed with their speeds: none, one by itself, or several with a stroke before
/// each further one.
#[verifier::rlimit(30)]
pub proof fn law_fans_are_listed(fans: Seq<FanMetric>, next: FanMetric)
    ensures
        fans_text(Seq::empty()).len() == 0,
        fans_text(seq![next]) == "Fan "@ + decimal(next.rpm as nat) + " RPM"@,
        fans_text(seq![fans[0], next]) == "Fans "@ + decimal(fans[0].rpm as nat) + "/"@ + decimal(
            next.rpm as nat,
        ) + " RPM"@,
        fans.len() >= 2 ==> exists|list: Seq<char>|
            {
                &&& fans_text(fans) == #[trigger] ("Fans "@ + list + " RPM"@)
                &&& fans_text(fans.push(next)) == "Fans "@ + (list + "/"@ + decimal(
                    next.rpm as nat,
                )) + " RPM"@
            },
{
    reveal_with_fuel(speeds_text, 3);
    let pair = seq![fans[0], next];
    assert(pair.drop_last() =~= seq![fans[0]]);
    assert(speeds_text(pair) =~= decimal(fans[0].rpm as nat) + "/"@ + decimal(next.rpm as nat));
    assert(fans_text(pair) =~= "Fans "@ + decimal(fans[0].rpm as nat) + "/"@ + decimal(
        next.rpm as nat,
    ) + " RPM"@);
    if fans.len() >= 2 {
        assert(fans.push(next).drop_last() =~= fans);
        let list = speeds_text(fans);
        assert(fans_text(fans) == "Fans "@ + list + " RPM"@);
    }
}

/// Memory in use and swap in use each come in at the front of their own history, of up to 128
/// values; the rest is what was measured last, and the largest values are those of the histories.
pub proof fn law_memory_is_added_to_its_history(
    after: MemoryStore,
    before: MemoryStore,
    value: MemMetrics,
)
    requires
        after.recorded_from(before, value),
    ensures
        grown(after.items@, before.items@, value.ram_usage, 128),
        grown(after.swap_items@, before.swap_items@, value.swap_usage, 128),
        after.ram_usage == value.ram_usage,
        after.ram_total == value.ram_total,
        after.swap_usage == value.swap_usage,
        after.swap_total == value.swap_total,
        forall|i: int| 0 <= i < after.items@.len() ==> #[trigger] after.items@[i] <= after.max_ram,
        after.items@.contains(after.max_ram),
        forall|i: int|
            0 <= i < after.swap_items@.len() ==> #[trigger] after.swap_items@[i] <= after.max_swap,
        after.swap_items@.contains(after.max_swap),
        after.readout == value.readout,
{
    law_recorded_history_begins_with_the_value(before.items@, value.ram_usage, 128);
    law_recorded_history_begins_with_the_value(before.swap_items@, value.swap_usage, 128);
    law_largest_is_a_bound(after.items@);
    law_largest_is_a_bound(after.swap_items@);
}

/// Each power comes in at the front of its own history, of up to 128 values.
pub proof fn law_powers_are_kept_apart(after: App, before: App, data: Metrics)
    requires
        after.powers_recorded(before, data),
    ensures
        grown(after.cpu_power.items@, before.cpu_power.items@, data.cpu_power, 128),
        grown(after.gpu_power.items@, before.gpu_power.items@, data.gpu_power, 128),
        grown(after.all_power.items@, before.all_power.items@, data.all_power, 128),
        grown(after.sys_power.items@, before.sys_power.items@, data.sys_power, 128),
{
    law_recorded_history_begins_with_the_value(before.cpu_power.items@, data.cpu_power, 128);
    law_recorded_history_begins_with_the_value(before.gpu_power.items@, data.gpu_power, 128);
    law_recorded_history_begins_with_the_value(before.all_power.items@, data.all_power, 128);
    law_recorded_history_begins_with_the_value(before.sys_power.items@, data.sys_power, 128);
}

/// Each processor gets its own measurement: the efficiency cores, the performance cores and the
/// graphics processor.
pub proof fn law_processors_are_kept_apart(after: App, before: App, data: Metrics)
    requires
        after.processors_recorded(before, data),
    ensures
        store_grown(
            after.ecpu_freq@.aggregate,
            before.ecpu_freq@.aggregate,
            data.ecpu_freq_mhz as int,
            data.ecpu_scaled_ratio@,
            data.ecpu_active_ratio@,
        ),
        store_grown(
            after.pcpu_freq@.aggregate,
            before.pcpu_freq@.aggregate,
            data.pcpu_freq_mhz as int,
            data.pcpu_scaled_ratio@,
            data.pcpu_active_ratio@,
        ),
        store_grown(
            after.igpu_freq@,
            before.igpu_freq@,
            data.gpu_freq_mhz as int,
            data.gpu_scaled_ratio@,
            data.gpu_active_ratio@,
        ),
        by_core(after.ecpu_freq@.cores) == after_measurement(
            by_core(before.ecpu_freq@.cores),
            data.ecpu_cores@,
        ),
        by_core(after.pcpu_freq@.cores) == after_measurement(
            by_core(before.pcpu_freq@.cores),
            data.pcpu_cores@,
        ),
{
    law_samples_are_added_to_both_histories(
        before.ecpu_freq@.aggregate,
        FreqSampleView {
            freq_mhz: data.ecpu_freq_mhz as u64,
            scaled_ratio: data.ecpu_scaled_ratio@,
            active_ratio: data.ecpu_active_ratio@,
        },
    );
    law_samples_are_added_to_both_histories(
        before.pcpu_freq@.aggregate,
        FreqSampleView {
            freq_mhz: data.pcpu_freq_mhz as u64,
            scaled_ratio: data.pcpu_scaled_ratio@,
            active_ratio: data.pcpu_active_ratio@,
        },
    );
    law_samples_are_added_to_both_histories(
        before.igpu_freq@,
        FreqSampleView {
            freq_mhz: data.gpu_freq_mhz as u64,
            scaled_ratio: data.gpu_scaled_ratio@,
            active_ratio: data.gpu_active_ratio@,
        },
    );
}

/// Each temperature that a sensor gives comes in at the front of its own history, of up to eight
/// values; the fans are those that were measured last, and so is the memory.
pub proof fn law_sensors_are_kept_apart(after: App, before: App, data: Metrics)
    requires
        after.sensors_recorded(before, data),
    ensures
        data.cpu_temp.measured is Some ==> grown(
            after.cpu_temp.items@,
            before.cpu_temp.items@,
            data.cpu_temp.measured->0,
            8,
        ),
        data.gpu_temp.measured is Some ==> grown(
            after.gpu_temp.items@,
            before.gpu_temp.items@,
            data.gpu_temp.measured->0,
            8,
        ),
        data.cpu_temp.measured is None && data.cpu_temp.trend is None ==> after.cpu_temp.items@
            == before.cpu_temp.items@,
        data.gpu_temp.measured is None && data.gpu_temp.trend is None ==> after.gpu_temp.items@
            == before.gpu_temp.items@,
        after.fans.items@ == data.fans@,
        after.mem.recorded_from(before.mem, data.memory),
{
    if data.cpu_temp.measured is Some {
        law_recorded_history_begins_with_the_value(
            before.cpu_temp.items@,
            data.cpu_temp.measured->0,
            8,
        );
    }
    if data.gpu_temp.measured is Some {
        law_recorded_history_begins_with_the_value(
            before.gpu_temp.items@,
            data.gpu_temp.measured->0,
            8,
        );
    }
}

/// A time within the bounds stays as it is, and one past a bound becomes that bound: no other
/// time within the bounds is nearer.
pub proof fn law_clamped_time_is_the_nearest(value: u32, least: u32, most: u32, other: u32)
    requires
        least <= other <= most,
    ensures
        least <= clamped(value, least, most) <= most,
        value <= other ==> value <= clamped(value, least, most) <= other,
        value >= other ==> other <= clamped(value, least, most) <= value,
        least <= value <= most ==> clamped(value, least, most) == value,
        value < least ==> clamped(value, least, most) == least,
        value > most ==> clamped(value, least, most) == most,
{
}

/// What a character key leads to.
pub open spec fn action_of_key(character: char, control: bool) -> Option<Action> {
    match key_event(Key { character: Some(character), control }) {
        Some(event) => Some(action_of(event)),
        None => None,
    }
}

/// The keys do what the help says of them: q quits, and so does c with the control key; c alone
/// changes the colour, v the chart, d the detail, r the share that is shown; plus and equals make
/// the interval longer, and minus shorter. No other key changes anything, but that the question
/// mark shows or hides the help.
pub proof fn law_keys_do_what_the_help_says(character: char, control: bool)
    ensures
        action_of_key('q', control) == Some(Action::Quit),
        action_of_key('c', true) == Some(Action::Quit),
        action_of_key('c', false) == Some(Action::Change(Setting::NextColor)),
        action_of_key('v', control) == Some(Action::Change(Setting::NextViewType)),
        action_of_key('d', control) == Some(Action::Change(Setting::TogglePerCoreView)),
        action_of_key('r', control) == Some(Action::Change(Setting::ToggleRatioMode)),
        action_of_key('+', control) == Some(Action::Change(Setting::IncInterval)),
        action_of_key('=', control) == action_of_key('+', control),
        action_of_key('-', control) == Some(Action::Change(Setting::DecInterval)),
        key_event(Key { character: Some('?'), control }) == Some(Event::ToggleHelp),
        action_of(Event::ToggleHelp) == Action::Continue,
        action_of(Event::Tick) == Action::Continue,
        character != 'q' && character != 'c' && character != 'v' && character != 'd' && character
            != 'r' && character != '+' && character != '=' && character != '-' && character != '?'
            ==> key_event(Key { character: Some(character), control }) is None,
        key_event(Key { character: None, control }) is None,
{
}

/// A measurement hands on the reading of the battery that came with it.
pub proof fn law_measurements_hand_on_the_battery(
    data: Box<Metrics>,
    battery: Option<BatteryStatus>,
)
    ensures
        action_of(Event::Update(data, battery)) == Action::TakeBattery(battery),
{
}

/// A runtime is promised exactly on battery and where the energy is known, and it is that of the
/// energy; the key that goes with a reading is there exactly on battery.
pub proof fn law_runtime_is_promised_on_battery(status: BatteryStatus)
    ensures
        promised_runtime(None).len() == 0,
        shown_key(None) is None,
        status.on_ac_power ==> promised_runtime(Some(status)).len() == 0 && shown_key(
            Some(status),
        ) is None,
        status.remaining_energy_mwh is None ==> promised_runtime(Some(status)).len() == 0,
        !status.on_ac_power ==> shown_key(Some(status)) is Some,
        !status.on_ac_power && status.remaining_energy_mwh is Some ==> promised_runtime(
            Some(status),
        ) == runtime_text(status.remaining_energy_mwh->0),
        shown_key(Some(status)) == runtime_key(status),
{
}

/// While what the screen shows of the charge stays the same the runtime stays the same, and with
/// every change it becomes that of the latest reading.
pub proof fn law_runtime_changes_with_what_is_shown(app: App, battery: Option<BatteryStatus>)
    ensures
        shown_key(battery) == app.battery_runtime_key ==> app.runtime_after(battery)
            == app.battery_runtime@,
        shown_key(battery) != app.battery_runtime_key ==> app.runtime_after(battery)
            == promised_runtime(battery),
{
}

/// The program starts with the interval that it is given, else with that of the settings, as far
/// as the bounds allow.
pub proof fn law_given_interval_comes_first(app: App, given: u32, least: u32, most: u32)
    requires
        least <= most,
    ensures
        least <= given <= most ==> app.first_interval(Some(given), least, most) == given,
        least <= app.cfg.interval <= most ==> app.first_interval(None, least, most)
            == app.cfg.interval,
        least <= app.first_interval(Some(given), least, most) <= most,
        least <= app.first_interval(None, least, most) <= most,
{
}

/// Only a change of the interval is handed on to whoever measures.
pub proof fn law_only_intervals_are_handed_on(cfg: Config, setting: Setting)
    ensures
        handed_on(Setting::IncInterval, cfg) == Some(cfg.interval),
        handed_on(Setting::DecInterval, cfg) == Some(cfg.interval),
        setting != Setting::IncInterval && setting != Setting::DecInterval ==> handed_on(
            setting,
            cfg,
        ) is None,
{
}

/// The history of a core is the one that stands with its name, and there is none of any other.
pub proof fn law_histories_are_found_by_core(view: CpuFreqStoreView, i: int, id: CoreId)
    requires
        view.well_formed(),
        0 <= i < view.cores.len(),
    ensures
        by_core(view.cores).contains_key(view.cores[i].id),
        by_core(view.cores)[view.cores[i].id] == view.cores[i].store,
        (forall|j: int| 0 <= j < view.cores.len() ==> (#[trigger] view.cores[j]).id != id)
            ==> !by_core(view.cores).contains_key(id),
{
    lemma_by_core(view.cores);
}

/// A measured core has the samples of the measurement and nothing on top of them.
pub proof fn law_measured_cores_are_not_idle(
    histories: Map<CoreId, FreqStoreView>,
    cores: Seq<CpuCoreMetrics>,
    at: int,
)
    requires
        0 <= at < cores.len(),
    ensures
        ({
            let id = CoreId { die_id: cores[at].die_id, core_id: cores[at].core_id };
            &&& after_measurement(histories, cores).contains_key(id)
            &&& after_measurement(histories, cores)[id] == with_samples(histories, cores)[id]
        }),
{
    let id = CoreId::of(cores[at]);
    assert(is_measured(cores, id));
    law_cores_are_kept(histories, cores);
    let after = after_measurement(histories, cores);
    assert(after.contains_key(id) == (histories.contains_key(id) || is_measured(cores, id)));
    assert(after.dom().contains(id));
    assert(with_samples(histories, cores).contains_key(id));
}

/// A store that nothing has come into shows zeros.
pub proof fn law_new_stores_show_zeros(power: PowerStore, memory: MemoryStore)
    requires
        power.is_empty(),
        memory.is_empty(),
    ensures
        power.items@.len() == 0,
        power.top_value@ == "0.00"@ && power.avg_value@ == "0.00"@ && power.max_value@ == "0.00"@,
        memory.items@.len() == 0 && memory.swap_items@.len() == 0,
        memory.ram_usage == 0 && memory.ram_total == 0 && memory.max_ram == 0,
        memory.swap_usage == 0 && memory.swap_total == 0 && memory.max_swap == 0,
        memory.readout.ram_percent@ == "0.0"@,
        memory.readout.ram_ratio == 0 && memory.readout.swap_ratio == 0,
{
}

/// Asking for the help twice changes nothing, and nothing else shows or hides it.
pub proof fn law_help_is_shown_until_asked_again(shown: bool, event: Event)
    ensures
        help_after(shown, Event::ToggleHelp) != shown,
        help_after(help_after(shown, event), event) == shown,
        event != Event::ToggleHelp ==> help_after(shown, event) == shown,
{
}

} // verus!
