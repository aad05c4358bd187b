//! Resolution of live devices against the configured alias entries: the
//! first matching entry of each device, the totals for a summary line, and
//! the search for the device that carries a given alias.

use vstd::prelude::*;

use crate::port::{device_matches, ComPortView, DeviceDescriptor, DeviceView};
use crate::settings::Settings;

verus! {

/// Entry `i` is the first entry, in file order, that device `d` matches.
pub open spec fn is_first_match(d: DeviceView, es: Seq<ComPortView>, i: int) -> bool {
    &&& 0 <= i < es.len()
    &&& device_matches(d, es[i])
    &&& forall|k: int| 0 <= k < i ==> !device_matches(d, #[trigger] es[k])
}

/// Device `d` matches no entry.
pub open spec fn matches_none(d: DeviceView, es: Seq<ComPortView>) -> bool {
    forall|k: int| 0 <= k < es.len() ==> !device_matches(d, #[trigger] es[k])
}

/// `r` is what resolving `d` against `es` gives: the index of the first
/// matching entry, or nothing when no entry matches.
pub open spec fn resolves_to(d: DeviceView, es: Seq<ComPortView>, r: Option<usize>) -> bool {
    match r {
        Some(i) => is_first_match(d, es, i as int),
        None => matches_none(d, es),
    }
}

/// How a device is presented: under its alias, not at all (known device with
/// an empty alias), or by its raw descriptor fields.
#[derive(Debug, Clone, Copy, PartialEq, Eq, Structural)]
pub enum Presentation {
    Labelled,
    Hidden,
    Unresolved,
}

pub open spec fn presentation_of(d: DeviceView, es: Seq<ComPortView>) -> Presentation {
    if exists|i: int| is_first_match(d, es, i) {
        let i = choose|i: int| is_first_match(d, es, i);
        if es[i].alias.len() > 0 {
            Presentation::Labelled
        } else {
            Presentation::Hidden
        }
    } else {
        Presentation::Unresolved
    }
}

/// How many of the devices `ds` are presented as `p`.
pub open spec fn count_presented(ds: Seq<DeviceView>, es: Seq<ComPortView>, p: Presentation) -> nat
    decreases ds.len(),
{
    if ds.len() == 0 {
        0
    } else {
        count_presented(ds.drop_last(), es, p) + if presentation_of(ds.last(), es) == p {
            1nat
        } else {
            0nat
        }
    }
}

pub open spec fn devices_view(ds: Seq<DeviceDescriptor>) -> Seq<DeviceView> {
    ds.map_values(|d: DeviceDescriptor| d@)
}

/// The per-kind totals of a device list, for its summary line.
#[derive(Debug, Clone, Copy, PartialEq, Eq, Structural)]
pub struct PortSummary {
    pub labelled: usize,
    pub hidden: usize,
    pub unresolved: usize,
}

/// The device in the list that carries the alias asked for, or why there is
/// none.
#[derive(Debug, Clone, Copy, PartialEq, Eq, Structural)]
pub enum AliasLookup {
    /// The device at this index of the list carries the alias.
    Found(usize),
    /// No device is attached at all.
    NoDevices,
    /// Devices are attached, but none carries the alias.
    NotFound,
}

/// Device `d` matches an entry whose (non-empty) alias is `a`.
pub open spec fn carries_alias(d: DeviceView, es: Seq<ComPortView>, a: Seq<char>) -> bool {
    &&& a.len() > 0
    &&& exists|k: int| 0 <= k < es.len() && device_matches(d, es[k]) && #[trigger] es[k].alias == a
}

proof fn lemma_first_match_unique(d: DeviceView, es: Seq<ComPortView>, i: int, j: int)
    requires
        is_first_match(d, es, i),
        is_first_match(d, es, j),
    ensures
        i == j,
{
    if i < j {
        assert(!device_matches(d, es[i]));
    } else if j < i {
        assert(!device_matches(d, es[j]));
    }
}

proof fn lemma_presentation_of_resolution(d: DeviceView, es: Seq<ComPortView>, r: Option<usize>)
    requires
        resolves_to(d, es, r),
    ensures
        presentation_of(d, es) == match r {
            Some(i) => if es[i as int].alias.len() > 0 {
                Presentation::Labelled
            } else {
                Presentation::Hidden
            },
            None => Presentation::Unresolved,
        },
{
    match r {
        Some(i) => {
            assert(is_first_match(d, es, i as int));
            let c = choose|c: int| is_first_match(d, es, c);
            lemma_first_match_unique(d, es, i as int, c);
        },
        None => {
            if exists|c: int| is_first_match(d, es, c) {
                let c = choose|c: int| is_first_match(d, es, c);
                assert(!device_matches(d, es[c]));
            }
        },
    }
}

impl Settings {
    /// The index of the first entry, in file order, that identifies `device`;
    /// `None` when the device is unknown.
    pub fn resolve(&self, device: &DeviceDescriptor) -> (r: Option<usize>)
        ensures
            resolves_to(device@, self@, r),
    {
        let n = self.com_ports.len();
        let mut i: usize = 0;
        while i < n
            invariant
                n == self@.len(),
                i <= n,
                forall|k: int| 0 <= k < i ==> !device_matches(device@, #[trigger] self@[k]),
            decreases n - i,
        {
            if device.matches_entry(&self.com_ports[i]) {
                return Some(i);
            }
            i = i + 1;
        }
        None
    }

    /// The resolution of every device of the list, in list order.
    pub fn resolve_ports(&self, devices: &Vec<DeviceDescriptor>) -> (r: Vec<Option<usize>>)
        ensures
            r.len() == devices.len(),
            forall|k: int| 0 <= k < r.len() ==> resolves_to(devices@[k]@, self@, #[trigger] r@[k]),
    {
        let mut r: Vec<Option<usize>> = Vec::new();
        let mut k: usize = 0;
        while k < devices.len()
            invariant
                k <= devices.len(),
                r.len() == k,
                forall|m: int| 0 <= m < k ==> resolves_to(devices@[m]@, self@, #[trigger] r@[m]),
            decreases devices.len() - k,
        {
            let found = self.resolve(&devices[k]);
            r.push(found);
            k = k + 1;
        }
        r
    }

    /// How many devices of the list are shown under an alias, how many are
    /// known but hidden, and how many are unknown.
    pub fn summarize(&self, devices: &Vec<DeviceDescriptor>) -> (r: PortSummary)
        ensures
            r.labelled == count_presented(devices_view(devices@), self@, Presentation::Labelled),
            r.hidden == count_presented(devices_view(devices@), self@, Presentation::Hidden),
            r.unresolved == count_presented(devices_view(devices@), self@, Presentation::Unresolved),
    {
        let ghost ds = devices_view(devices@);
        let mut labelled: usize = 0;
        let mut hidden: usize = 0;
        let mut unresolved: usize = 0;
        let mut k: usize = 0;
        while k < devices.len()
            invariant
                ds == devices_view(devices@),
                k <= devices.len(),
                labelled + hidden + unresolved == k,
                labelled == count_presented(ds.take(k as int), self@, Presentation::Labelled),
                hidden == count_presented(ds.take(k as int), self@, Presentation::Hidden),
                unresolved == count_presented(ds.take(k as int), self@, Presentation::Unresolved),
            decreases devices.len() - k,
        {
            let found = self.resolve(&devices[k]);
            proof {
                assert(ds.take(k + 1).drop_last() =~= ds.take(k as int));
                lemma_presentation_of_resolution(devices@[k as int]@, self@, found);
            }
            match found {
                Some(i) => {
                    if self.com_ports[i].alias.as_str().is_empty() {
                        hidden = hidden + 1;
                    } else {
                        labelled = labelled + 1;
                    }
                },
                None => {
                    unresolved = unresolved + 1;
                },
            }
            k = k + 1;
        }
        assert(ds.take(k as int) =~= ds);
        PortSummary { labelled, hidden, unresolved }
    }

    /// The first device of the list that matches an entry whose alias is
    /// exactly `alias` (an empty alias is never carried).
    pub fn find_port_by_alias(&self, devices: &Vec<DeviceDescriptor>, alias: &String) -> (r:
        AliasLookup)
        ensures
            r is NoDevices <==> devices.len() == 0,
            r is NotFound ==> forall|m: int|
                0 <= m < devices.len() ==> !carries_alias(#[trigger] devices@[m]@, self@, alias@),
            r matches AliasLookup::Found(i) ==> {
                &&& i < devices.len()
                &&& carries_alias(devices@[i as int]@, self@, alias@)
                &&& forall|m: int|
                    0 <= m < i ==> !carries_alias(#[trigger] devices@[m]@, self@, alias@)
            },
    {
        if devices.len() == 0 {
            return AliasLookup::NoDevices;
        }
        let n = self.com_ports.len();
        let mut i: usize = 0;
        while i < devices.len()
            invariant
                n == self@.len(),
                i <= devices.len(),
                forall|m: int| 0 <= m < i ==> !carries_alias(#[trigger] devices@[m]@, self@, alias@),
            decreases devices.len() - i,
        {
            let device = &devices[i];
            let mut k: usize = 0;
            while k < n
                invariant
                    n == self@.len(),
                    i < devices.len(),
                    *device == devices@[i as int],
                    k <= n,
                    forall|m: int| 0 <= m < i ==> !carries_alias(#[trigger] devices@[m]@, self@, alias@),
                    forall|q: int|
                        0 <= q < k ==> !(device_matches(device@, self@[q]) && #[trigger] self@[q].alias
                            == alias@ && alias@.len() > 0),
                decreases n - k,
            {
                let entry = &self.com_ports[k];
                if device.matches_entry(entry) && !entry.alias.as_str().is_empty() && entry.alias
                    == *alias {
                    assert(self@[k as int].alias == alias@);
                    return AliasLookup::Found(i);
                }
                k = k + 1;
            }
            assert(!carries_alias(devices@[i as int]@, self@, alias@));
            i = i + 1;
        }
        AliasLookup::NotFound
    }
}

} // verus!
