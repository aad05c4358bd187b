//! The alias configuration: its consistency check, and the resolution of
//! live devices against it.

use vstd::prelude::*;

use crate::port::{same_identity, ComPort, ComPortView, FzyEq};

verus! {

/// The configured alias entries, in file order.
#[derive(Debug)]
pub struct Settings {
    pub com_ports: Vec<ComPort>,
}

/// The configuration together with the run's presentation options.
pub struct ApplicationSettings {
    pub file_settings: Settings,
    pub verbose: bool,
}

impl View for Settings {
    type V = Seq<ComPortView>;

    open spec fn view(&self) -> Seq<ComPortView> {
        self.com_ports@.map_values(|c: ComPort| c@)
    }
}

/// Entry `p` has the same identity as some entry of `es`.
pub open spec fn known_to(es: Seq<ComPortView>, p: ComPortView) -> bool {
    exists|k: int| 0 <= k < es.len() && #[trigger] same_identity(es[k], p)
}

/// `base` with each entry of `incoming` appended in turn, unless an entry
/// already present (configured, or appended before it) has its identity.
pub open spec fn merged(base: Seq<ComPortView>, incoming: Seq<ComPortView>) -> Seq<ComPortView>
    decreases incoming.len(),
{
    if incoming.len() == 0 {
        base
    } else {
        let prev = merged(base, incoming.drop_last());
        if known_to(prev, incoming.last()) {
            prev
        } else {
            prev.push(incoming.last())
        }
    }
}

impl Settings {
    /// Appends each of `ports` whose identity is not yet present, and returns
    /// how many were appended.
    pub fn add_com_ports(&mut self, ports: Vec<ComPort>) -> (added: usize)
        ensures
            final(self)@ == merged(old(self)@, ports@.map_values(|c: ComPort| c@)),
            added == final(self)@.len() - old(self)@.len(),
    {
        let ghost base = self@;
        let ghost incoming = ports@.map_values(|c: ComPort| c@);
        let mut added: usize = 0;
        let mut k: usize = 0;
        for port in it: ports
            invariant
                incoming == ports@.map_values(|c: ComPort| c@),
                it.seq() == ports@,
                k == it.index(),
                k <= ports.len(),
                added <= k,
                self@ == merged(base, incoming.take(k as int)),
                added == self@.len() - base.len(),
        {
            proof {
                assert(incoming.take(k + 1).drop_last() =~= incoming.take(k as int));
            }
            let n = self.com_ports.len();
            let mut known = false;
            let mut q: usize = 0;
            while q < n
                invariant
                    n == self@.len(),
                    q <= n,
                    k < incoming.len(),
                    port@ == incoming[k as int],
                    known <==> exists|m: int| 0 <= m < q && #[trigger] same_identity(self@[m], port@),
                decreases n - q,
            {
                let same = self.com_ports[q].fuzzy_eq(&port);
                assert(same == same_identity(self@[q as int], port@));
                if same {
                    known = true;
                }
                q = q + 1;
            }
            if !known {
                self.com_ports.push(port);
                added = added + 1;
            }
            k = k + 1;
        }
        assert(incoming.take(k as int) =~= incoming);
        added
    }
}

/// The first inconsistency found in a configuration. Indices are positions
/// in [`Settings::com_ports`].
#[derive(Debug, Clone, Copy, PartialEq, Eq, Structural)]
pub enum SettingsError {
    /// The entry at `index` has an empty serial number.
    EmptySerialNumber { index: usize },
    /// The two entries are equal in every field.
    DuplicateEntry { first: usize, second: usize },
    /// The two entries identify the same device under the fuzzy rule.
    ConflictingEntry { first: usize, second: usize },
}

pub open spec fn serial_missing(e: ComPortView) -> bool {
    e.serial_number.len() == 0
}

/// What comparing entry `j` with an earlier entry `i` reveals, in order of
/// priority: an empty serial number on `j`, an exact duplicate, a fuzzy
/// conflict.
pub open spec fn pair_fault(es: Seq<ComPortView>, i: int, j: int) -> Option<SettingsError> {
    if serial_missing(es[j]) {
        Some(SettingsError::EmptySerialNumber { index: j as usize })
    } else if es[i] == es[j] {
        Some(SettingsError::DuplicateEntry { first: i as usize, second: j as usize })
    } else if same_identity(es[j], es[i]) {
        Some(SettingsError::ConflictingEntry { first: i as usize, second: j as usize })
    } else {
        None
    }
}

/// Entry `i` has a serial number and no fault with any later entry.
pub open spec fn row_clean(es: Seq<ComPortView>, i: int) -> bool {
    &&& !serial_missing(es[i])
    &&& forall|k: int| i < k < es.len() ==> #[trigger] pair_fault(es, i, k) is None
}

pub open spec fn rows_clean_before(es: Seq<ComPortView>, i: int) -> bool {
    forall|k: int| 0 <= k < i ==> #[trigger] row_clean(es, k)
}

/// A configuration is consistent when no entry has an empty serial number
/// and no two entries are duplicates or fuzzy-equal.
pub open spec fn settings_consistent(es: Seq<ComPortView>) -> bool {
    rows_clean_before(es, es.len() as int)
}

/// `e` is the fault that the scan reaches first, at entry `i` (and, for a
/// fault between two entries, at the later entry `j`).
pub open spec fn reported_at(es: Seq<ComPortView>, i: int, j: int, e: SettingsError) -> bool {
    &&& 0 <= i < es.len()
    &&& rows_clean_before(es, i)
    &&& if serial_missing(es[i]) {
        j == i && e == SettingsError::EmptySerialNumber { index: i as usize }
    } else {
        &&& i < j < es.len()
        &&& forall|k: int| i < k < j ==> #[trigger] pair_fault(es, i, k) is None
        &&& pair_fault(es, i, j) == Some(e)
    }
}

/// `e` is the first fault of the configuration.
pub open spec fn first_fault(es: Seq<ComPortView>, e: SettingsError) -> bool {
    exists|i: int, j: int| reported_at(es, i, j, e)
}

/// No fault is found before the pair (`i`, `j`) in scan order, and both
/// entries of the pair have a serial number.
pub open spec fn clean_up_to_pair(es: Seq<ComPortView>, i: int, j: int) -> bool {
    &&& rows_clean_before(es, i)
    &&& !serial_missing(es[i])
    &&& !serial_missing(es[j])
    &&& forall|k: int| i < k < j ==> #[trigger] pair_fault(es, i, k) is None
}

proof fn lemma_fault_breaks_consistency(es: Seq<ComPortView>, i: int, j: int, e: SettingsError)
    requires
        reported_at(es, i, j, e),
    ensures
        first_fault(es, e),
        !settings_consistent(es),
{
    if settings_consistent(es) {
        assert(row_clean(es, i));
    }
}

/// Checks every pair of entries, earlier entry first, and reports the first
/// fault found. The configuration is left as it is.
pub fn validate_settings(settings: &Settings) -> (r: Result<(), SettingsError>)
    ensures
        r is Ok <==> settings_consistent(settings@),
        r matches Err(e) ==> first_fault(settings@, e),
{
    let n = settings.com_ports.len();
    let ghost es = settings@;
    let mut i: usize = 0;
    while i < n
        invariant
            es == settings@,
            n == es.len(),
            i <= n,
            rows_clean_before(es, i as int),
        decreases n - i,
    {
        let entry = &settings.com_ports[i];
        if entry.serial_number.as_str().is_empty() {
            let e = SettingsError::EmptySerialNumber { index: i };
            proof {
                lemma_fault_breaks_consistency(es, i as int, i as int, e);
            }
            return Err(e);
        }
        let mut j: usize = i + 1;
        while j < n
            invariant
                es == settings@,
                n == es.len(),
                i < n,
                i < j <= n,
                rows_clean_before(es, i as int),
                !serial_missing(es[i as int]),
                *entry == settings.com_ports@[i as int],
                forall|k: int| i < k < j ==> #[trigger] pair_fault(es, i as int, k) is None,
            decreases n - j,
        {
            let other = &settings.com_ports[j];
            if other.serial_number.as_str().is_empty() {
                let e = SettingsError::EmptySerialNumber { index: j };
                proof {
                    lemma_fault_breaks_consistency(es, i as int, j as int, e);
                }
                return Err(e);
            }
            if *other == *entry {
                let e = SettingsError::DuplicateEntry { first: i, second: j };
                proof {
                    lemma_fault_breaks_consistency(es, i as int, j as int, e);
                }
                return Err(e);
            }
            if other.fuzzy_eq(entry) {
                let e = SettingsError::ConflictingEntry { first: i, second: j };
                proof {
                    lemma_fault_breaks_consistency(es, i as int, j as int, e);
                }
                return Err(e);
            }
            j = j + 1;
        }
        assert(row_clean(es, i as int));
        i = i + 1;
    }
    Ok(())
}

/// The first fault of a configuration is unique, so validation reports a
/// single, determined error.
pub proof fn lemma_first_fault_unique(es: Seq<ComPortView>, e1: SettingsError, e2: SettingsError)
    requires
        first_fault(es, e1),
        first_fault(es, e2),
    ensures
        e1 == e2,
{
    let (i1, j1) = choose|i: int, j: int| reported_at(es, i, j, e1);
    let (i2, j2) = choose|i: int, j: int| reported_at(es, i, j, e2);
    if i1 < i2 {
        assert(row_clean(es, i1));
        if !serial_missing(es[i1]) {
            assert(pair_fault(es, i1, j1) is None);
        }
    } else if i2 < i1 {
        assert(row_clean(es, i2));
        if !serial_missing(es[i2]) {
            assert(pair_fault(es, i2, j2) is None);
        }
    } else if !serial_missing(es[i1]) {
        if j1 < j2 {
            assert(pair_fault(es, i1, j1) is None);
        } else if j2 < j1 {
            assert(pair_fault(es, i1, j2) is None);
        }
    }
}

/// A configuration that holds an entry with an empty serial number is
/// rejected, wherever that entry stands.
pub proof fn lemma_empty_serial_rejected(es: Seq<ComPortView>, m: int)
    requires
        0 <= m < es.len(),
        serial_missing(es[m]),
    ensures
        !settings_consistent(es),
{
    if settings_consistent(es) {
        assert(row_clean(es, m));
    }
}

/// A configuration with two fuzzy-equal entries is rejected. When no fault
/// comes before that pair in scan order, the error names both entries: as
/// a duplicate when they are equal in every field, as a conflict otherwise.
pub proof fn lemma_fuzzy_pair_rejected(es: Seq<ComPortView>, i: int, j: int, e: SettingsError)
    requires
        0 <= i < j < es.len(),
        same_identity(es[i], es[j]),
    ensures
        !settings_consistent(es),
        clean_up_to_pair(es, i, j) && first_fault(es, e) ==> e == (if es[i] == es[j] {
            SettingsError::DuplicateEntry { first: i as usize, second: j as usize }
        } else {
            SettingsError::ConflictingEntry { first: i as usize, second: j as usize }
        }),
{
    if settings_consistent(es) {
        assert(row_clean(es, i));
        assert(pair_fault(es, i, j) is None);
    }
    if clean_up_to_pair(es, i, j) && first_fault(es, e) {
        let found = pair_fault(es, i, j)->0;
        assert(reported_at(es, i, j, found));
        lemma_first_fault_unique(es, e, found);
    }
}

} // verus!
