//! The whole configuration: global settings, and settings per md device that
//! override them field by field.
use vstd::prelude::*;
use crate::cron::local_wall_clock;
use crate::device::{
    lemma_merge_prefers_device, lemma_merged_runs, merge, runs_at, DeviceConfig, DeviceConfigView,
};

verus! {

/// The configuration, as values: the global settings and, in order, the
/// devices that have settings of their own.
pub struct ConfigView {
    pub schedule: DeviceConfigView,
    pub devices: Seq<(Seq<char>, DeviceConfigView)>,
}

/// The settings of the device called `name`, where it has its own.
pub open spec fn lookup(devices: Seq<(Seq<char>, DeviceConfigView)>, name: Seq<char>) -> Option<
    DeviceConfigView,
>
    decreases devices.len(),
{
    if devices.len() == 0 {
        None
    } else if devices[0].0 == name {
        Some(devices[0].1)
    } else {
        lookup(devices.drop_first(), name)
    }
}

/// The settings that apply to the device called `name`: its own merged over
/// the global ones, or the global ones merged over themselves.
pub open spec fn settings_for(c: ConfigView, name: Seq<char>) -> DeviceConfigView {
    match lookup(c.devices, name) {
        Some(d) => merge(d, c.schedule),
        None => merge(c.schedule, c.schedule),
    }
}

/// Scrubbing is allowed at `now` by the global settings or by the settings of
/// some device.
pub open spec fn config_runs_at(c: ConfigView, now: i64) -> bool {
    runs_at(c.schedule, now) || exists|i: int|
        0 <= i < c.devices.len() && #[trigger] runs_at(c.devices[i].1, now)
}

pub open spec fn names_unique(devices: Seq<(Seq<char>, DeviceConfigView)>) -> bool {
    forall|i: int, j: int|
        0 <= i < devices.len() && 0 <= j < devices.len() && i != j ==> devices[i].0
            != devices[j].0
}

/// The settings of one device, under its name.
#[derive(Debug)]
pub struct DeviceEntry {
    pub name: String,
    pub config: DeviceConfig,
}

pub open spec fn entry_view(e: DeviceEntry) -> (Seq<char>, DeviceConfigView) {
    (e.name@, e.config@)
}

/// The configuration: global settings and per-device overrides.
#[derive(Debug)]
pub struct Config {
    schedule: DeviceConfig,
    devices: Vec<DeviceEntry>,
}

impl View for Config {
    type V = ConfigView;

    closed spec fn view(&self) -> ConfigView {
        ConfigView { schedule: self.schedule@, devices: self.devices@.map_values(|e| entry_view(e)) }
    }
}

proof fn lemma_lookup_at(devices: Seq<(Seq<char>, DeviceConfigView)>, name: Seq<char>, k: int)
    requires
        0 <= k <= devices.len(),
        forall|j: int| 0 <= j < k ==> devices[j].0 != name,
        k < devices.len() ==> devices[k].0 == name,
    ensures
        lookup(devices, name) == if k < devices.len() {
            Some(devices[k].1)
        } else {
            None
        },
    decreases devices.len(),
{
    if devices.len() > 0 && devices[0].0 != name {
        lemma_lookup_at(devices.drop_first(), name, k - 1);
    }
}

proof fn lemma_lookup_some(devices: Seq<(Seq<char>, DeviceConfigView)>, name: Seq<char>)
    requires
        lookup(devices, name) is Some,
    ensures
        exists|i: int|
            0 <= i < devices.len() && devices[i].0 == name && devices[i].1 == lookup(
                devices,
                name,
            )->0,
    decreases devices.len(),
{
    if devices[0].0 != name {
        lemma_lookup_some(devices.drop_first(), name);
        let i = choose|i: int|
            0 <= i < devices.drop_first().len() && devices.drop_first()[i].0 == name
                && devices.drop_first()[i].1 == lookup(devices.drop_first(), name)->0;
        assert(devices[i + 1] == devices.drop_first()[i]);
    } else {
        assert(devices[0].0 == name);
    }
}

impl Config {
    #[verifier::type_invariant]
    spec fn inv(self) -> bool {
        names_unique(self.devices@.map_values(|e| entry_view(e)))
    }

    /// A configuration with the given global settings and no device of its own.
    pub fn new(schedule: DeviceConfig) -> (r: Config)
        ensures
            r@.schedule == schedule@,
            r@.devices == Seq::<(Seq<char>, DeviceConfigView)>::empty(),
    {
        let r = Config { schedule, devices: Vec::new() };
        assert(r@.devices =~= Seq::<(Seq<char>, DeviceConfigView)>::empty());
        r
    }

    /// The index of the first device called `name`, or the number of devices.
    fn position(&self, name: &String) -> (k: usize)
        ensures
            k <= self@.devices.len(),
            forall|j: int| 0 <= j < k ==> self@.devices[j].0 != name@,
            k < self@.devices.len() ==> self@.devices[k as int].0 == name@,
    {
        let mut k: usize = 0;
        while k < self.devices.len() && !(self.devices[k].name == *name)
            invariant
                k <= self.devices.len(),
                forall|j: int| 0 <= j < k ==> self@.devices[j].0 != name@,
            decreases self.devices.len() - k,
        {
            k += 1;
        }
        k
    }

    /// Gives the device called `name` its own settings, in place of those it
    /// had, if any.
    pub fn insert_device(&mut self, name: String, config: DeviceConfig)
        ensures
            final(self)@.schedule == old(self)@.schedule,
            lookup(final(self)@.devices, name@) == Some(config@),
            forall|k: Seq<char>|
                k != name@ ==> lookup(final(self)@.devices, k) == lookup(old(self)@.devices, k),
    {
        proof {
            use_type_invariant(&*self);
        }
        let ghost d = self@.devices;
        let k = self.position(&name);
        let entry = DeviceEntry { name, config };
        let ghost e = entry_view(entry);
        let mut devices: Vec<DeviceEntry> = Vec::new();
        std::mem::swap(&mut devices, &mut self.devices);
        assert(devices@.map_values(|e| entry_view(e)) == d);
        if k < devices.len() {
            devices.set(k, entry);
            proof {
                assert(devices@.map_values(|e| entry_view(e)) =~= d.update(k as int, e));
                lemma_lookup_at(d.update(k as int, e), e.0, k as int);
                assert forall|n: Seq<char>| n != e.0 implies lookup(d.update(k as int, e), n)
                    == #[trigger] lookup(d, n) by {
                    lemma_lookup_update_other(d, k as int, e.1, n);
                }
            }
        } else {
            devices.push(entry);
            proof {
                assert(devices@.map_values(|e| entry_view(e)) =~= d.push(e));
                lemma_lookup_at(d.push(e), e.0, k as int);
                assert forall|n: Seq<char>| n != e.0 implies lookup(d.push(e), n) == #[trigger] lookup(
                    d,
                    n,
                ) by {
                    lemma_lookup_push(d, e, n);
                }
            }
        }
        self.devices = devices;
    }
}

impl Config {
    /// The settings that apply to the device called `name`: its own settings
    /// merged over the global ones, or, where it has none, the global ones.
    pub fn get(&self, name: &str) -> (r: DeviceConfig)
        ensures
            r@ == settings_for(self@, name@),
    {
        let key = name.to_owned();
        let k = self.position(&key);
        let main = &self.schedule;
        proof {
            lemma_lookup_at(self@.devices, name@, k as int);
        }
        if k < self.devices.len() {
            self.devices[k].config.admerge(main)
        } else {
            main.admerge(main)
        }
    }

    /// Whether the global settings, or those of some device, allow scrubbing
    /// at the local wall-clock time `now`.
    pub fn runs_now_at(&self, now: i64) -> (r: bool)
        ensures
            r == config_runs_at(self@, now),
    {
        if self.schedule.runs_now_at(now) {
            return true;
        }
        let mut i: usize = 0;
        while i < self.devices.len()
            invariant
                i <= self.devices.len(),
                forall|j: int| 0 <= j < i ==> !runs_at(#[trigger] self@.devices[j].1, now),
            decreases self.devices.len() - i,
        {
            if self.devices[i].config.runs_now_at(now) {
                assert(runs_at(self@.devices[i as int].1, now));
                return true;
            }
            i += 1;
        }
        false
    }

    /// Whether scrubbing is allowed now, by the local clock, by the global
    /// settings or by those of some device.
    pub fn runs_now(&self) -> (r: bool)
        ensures
            exists|t: i64| r == config_runs_at(self@, t),
    {
        let now = local_wall_clock();
        let r = self.runs_now_at(now);
        assert(r == config_runs_at(self@, now));
        r
    }

    /// The global settings.
    pub fn schedule(&self) -> (r: &DeviceConfig)
        ensures
            r@ == self@.schedule,
    {
        &self.schedule
    }

    /// The devices with settings of their own, in order.
    pub fn devices(&self) -> (r: &Vec<DeviceEntry>)
        ensures
            r@.map_values(|e| entry_view(e)) == self@.devices,
    {
        &self.devices
    }

    /// The number of devices with settings of their own.
    pub fn device_count(&self) -> (r: usize)
        ensures
            r == self@.devices.len(),
    {
        self.devices.len()
    }
}

/// A device listed with settings of its own gets each setting it sets as it
/// set it, and the global one for each setting it leaves unset; `force_run`
/// holds where either sets it.
pub proof fn lemma_listed_device(c: ConfigView, name: Seq<char>, d: DeviceConfigView)
    requires
        lookup(c.devices, name) == Some(d),
    ensures
        settings_for(c, name).start == (if d.start is Some {
            d.start
        } else {
            c.schedule.start
        }),
        settings_for(c, name).cont == (if d.cont is Some {
            d.cont
        } else {
            c.schedule.cont
        }),
        settings_for(c, name).ionice == (if d.ionice is Some {
            d.ionice
        } else {
            c.schedule.ionice
        }),
        settings_for(c, name).nice == (if d.nice is Some {
            d.nice
        } else {
            c.schedule.nice
        }),
        settings_for(c, name).max_run_duration == (if d.max_run_duration is Some {
            d.max_run_duration
        } else {
            c.schedule.max_run_duration
        }),
        settings_for(c, name).force_run == (d.force_run || c.schedule.force_run),
{
    lemma_merge_prefers_device(d, c.schedule);
}

/// A device without settings of its own gets the global settings unchanged.
pub proof fn lemma_unlisted_device(c: ConfigView, name: Seq<char>)
    requires
        lookup(c.devices, name) is None,
    ensures
        settings_for(c, name) == c.schedule,
{
}

/// Where the settings that apply to some device allow scrubbing at `now`, the
/// configuration as a whole allows it too: a run that finds nothing allowed
/// by the configuration can stop at once without passing over any device.
pub proof fn lemma_device_runs_config_runs(c: ConfigView, name: Seq<char>, now: i64)
    requires
        runs_at(settings_for(c, name), now),
    ensures
        config_runs_at(c, now),
{
    match lookup(c.devices, name) {
        Some(d) => {
            lemma_merged_runs(d, c.schedule, now);
            lemma_lookup_some(c.devices, name);
            let i = choose|i: int|
                0 <= i < c.devices.len() && c.devices[i].0 == name && c.devices[i].1 == lookup(
                    c.devices,
                    name,
                )->0;
            if runs_at(d, now) {
                assert(runs_at(c.devices[i].1, now));
            }
        },
        None => {
            lemma_merged_runs(c.schedule, c.schedule, now);
        },
    }
}

proof fn lemma_lookup_update_other(
    d: Seq<(Seq<char>, DeviceConfigView)>,
    k: int,
    v: DeviceConfigView,
    n: Seq<char>,
)
    requires
        0 <= k < d.len(),
        n != d[k].0,
    ensures
        lookup(d.update(k, (d[k].0, v)), n) == lookup(d, n),
    decreases d.len(),
{
    let u = d.update(k, (d[k].0, v));
    if k > 0 {
        assert(d.drop_first()[k - 1] == d[k]);
        lemma_lookup_update_other(d.drop_first(), k - 1, v, n);
        assert(u.drop_first() =~= d.drop_first().update(k - 1, (d[k].0, v)));
        assert(u[0] == d[0]);
    } else {
        assert(u.drop_first() =~= d.drop_first());
    }
}

proof fn lemma_lookup_push(
    d: Seq<(Seq<char>, DeviceConfigView)>,
    e: (Seq<char>, DeviceConfigView),
    n: Seq<char>,
)
    requires
        n != e.0,
    ensures
        lookup(d.push(e), n) == lookup(d, n),
    decreases d.len(),
{
    if d.len() > 0 {
        lemma_lookup_push(d.drop_first(), e, n);
        assert(d.push(e).drop_first() =~= d.drop_first().push(e));
        assert(d.push(e)[0] == d[0]);
    } else {
        assert(d.push(e).drop_first() =~= d);
    }
}

} // verus!
