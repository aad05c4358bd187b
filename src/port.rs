//! Alias entries, live device descriptors, and the fuzzy identity rule that
//! relates them.

use vstd::prelude::*;

use crate::text::{remove_last_word, trim_to_string, trimmed, without_last_word};

verus! {

/// A user-configured alias for one device: the required identity fields
/// (product id and serial number) and the optional descriptive ones.
/// An empty alias marks a device as known but intentionally unlabelled.
#[derive(Debug)]
pub struct ComPort {
    pub alias: String,
    pub product_id: u16,
    pub serial_number: String,
    pub manufacturer: Option<String>,
    pub product_name: Option<String>,
}

/// The mathematical value of a [`ComPort`].
pub struct ComPortView {
    pub alias: Seq<char>,
    pub product_id: u16,
    pub serial_number: Seq<char>,
    pub manufacturer: Option<Seq<char>>,
    pub product_name: Option<Seq<char>>,
}

/// One attached serial device as the operating system reports it.
#[derive(Debug)]
pub struct DeviceDescriptor {
    pub port_name: String,
    pub product_id: u16,
    pub serial_number: Option<String>,
    pub manufacturer: Option<String>,
    pub product_name: Option<String>,
}

/// The mathematical value of a [`DeviceDescriptor`].
pub struct DeviceView {
    pub port_name: Seq<char>,
    pub product_id: u16,
    pub serial_number: Option<Seq<char>>,
    pub manufacturer: Option<Seq<char>>,
    pub product_name: Option<Seq<char>>,
}

pub open spec fn opt_view(o: Option<String>) -> Option<Seq<char>> {
    match o {
        Some(s) => Some(s@),
        None => None,
    }
}

impl View for ComPort {
    type V = ComPortView;

    open spec fn view(&self) -> ComPortView {
        ComPortView {
            alias: self.alias@,
            product_id: self.product_id,
            serial_number: self.serial_number@,
            manufacturer: opt_view(self.manufacturer),
            product_name: opt_view(self.product_name),
        }
    }
}

impl View for DeviceDescriptor {
    type V = DeviceView;

    open spec fn view(&self) -> DeviceView {
        DeviceView {
            port_name: self.port_name@,
            product_id: self.product_id,
            serial_number: opt_view(self.serial_number),
            manufacturer: opt_view(self.manufacturer),
            product_name: opt_view(self.product_name),
        }
    }
}

/// An optional field does not tell two records apart unless both carry it
/// and the values differ.
pub open spec fn optional_agrees(a: Option<Seq<char>>, b: Option<Seq<char>>) -> bool {
    match (a, b) {
        (Some(x), Some(y)) => x == y,
        _ => true,
    }
}

pub open spec fn trimmed_opt(o: Option<Seq<char>>) -> Option<Seq<char>> {
    match o {
        Some(s) => Some(trimmed(s)),
        None => None,
    }
}

/// The fuzzy identity rule: equal product id, equal serial number, and no
/// disagreement on the manufacturer or on the (white-space trimmed) product
/// name where both records carry one. The alias plays no part.
pub open spec fn same_identity(a: ComPortView, b: ComPortView) -> bool {
    &&& a.product_id == b.product_id
    &&& a.serial_number == b.serial_number
    &&& optional_agrees(a.manufacturer, b.manufacturer)
    &&& optional_agrees(trimmed_opt(a.product_name), trimmed_opt(b.product_name))
}

/// The unlabelled alias entry that a live device gives: a missing serial
/// number becomes empty, and the product name loses its last word.
pub open spec fn entry_of(d: DeviceView) -> ComPortView {
    ComPortView {
        alias: Seq::empty(),
        product_id: d.product_id,
        serial_number: match d.serial_number {
            Some(s) => s,
            None => Seq::empty(),
        },
        manufacturer: d.manufacturer,
        product_name: match d.product_name {
            Some(p) => Some(without_last_word(p)),
            None => None,
        },
    }
}

/// A live device matches an alias entry when it reports a serial number and
/// its entry has the same identity as the configured one.
pub open spec fn device_matches(d: DeviceView, e: ComPortView) -> bool {
    d.serial_number is Some && same_identity(entry_of(d), e)
}

/// Comparison of two records on their identifying fields only.
pub trait FzyEq {
    spec fn spec_fuzzy_eq(&self, other: &Self) -> bool;

    fn fuzzy_eq(&self, other: &Self) -> (r: bool)
        ensures
            r == self.spec_fuzzy_eq(other),
    ;
}

fn copy_text(s: &Option<String>) -> (r: Option<String>)
    ensures
        opt_view(r) == opt_view(*s),
{
    match s {
        Some(t) => Some(t.clone()),
        None => None,
    }
}

fn optional_text_eq(a: &Option<String>, b: &Option<String>) -> (r: bool)
    ensures
        r == (opt_view(*a) == opt_view(*b)),
{
    match a {
        Some(x) => match b {
            Some(y) => *x == *y,
            None => false,
        },
        None => b.is_none(),
    }
}

fn optional_text_agrees(a: &Option<String>, b: &Option<String>) -> (r: bool)
    ensures
        r == optional_agrees(opt_view(*a), opt_view(*b)),
{
    match a {
        Some(x) => match b {
            Some(y) => *x == *y,
            None => true,
        },
        None => true,
    }
}

fn product_names_agree(a: &Option<String>, b: &Option<String>) -> (r: bool)
    ensures
        r == optional_agrees(trimmed_opt(opt_view(*a)), trimmed_opt(opt_view(*b))),
{
    match a {
        Some(x) => match b {
            Some(y) => trim_to_string(x.as_str()) == trim_to_string(y.as_str()),
            None => true,
        },
        None => true,
    }
}

impl FzyEq for ComPort {
    open spec fn spec_fuzzy_eq(&self, other: &Self) -> bool {
        same_identity(self@, other@)
    }

    fn fuzzy_eq(&self, other: &Self) -> (r: bool) {
        self.product_id == other.product_id && self.serial_number == other.serial_number
            && optional_text_agrees(&self.manufacturer, &other.manufacturer)
            && product_names_agree(&self.product_name, &other.product_name)
    }
}

impl PartialEq for ComPort {
    fn eq(&self, other: &Self) -> (r: bool) {
        self.alias == other.alias && self.product_id == other.product_id && self.serial_number
            == other.serial_number && optional_text_eq(&self.manufacturer, &other.manufacturer)
            && optional_text_eq(&self.product_name, &other.product_name)
    }
}

impl vstd::std_specs::cmp::PartialEqSpecImpl for ComPort {
    open spec fn obeys_eq_spec() -> bool {
        true
    }

    open spec fn eq_spec(&self, other: &ComPort) -> bool {
        self@ == other@
    }
}

impl From<&DeviceDescriptor> for ComPort {
    /// The unlabelled entry for a live device, as a configuration would
    /// store it.
    fn from(d: &DeviceDescriptor) -> (r: ComPort)
        ensures
            r@ == entry_of(d@),
    {
        let serial_number = match &d.serial_number {
            Some(s) => s.clone(),
            None => String::new(),
        };
        let product_name = match &d.product_name {
            Some(p) => Some(remove_last_word(p.as_str())),
            None => None,
        };
        ComPort {
            alias: String::new(),
            product_id: d.product_id,
            serial_number,
            manufacturer: copy_text(&d.manufacturer),
            product_name,
        }
    }
}

// What `from` returns is stated on `from` itself, over views: a spec
// function cannot build the `String` fields of a `ComPort`.
impl vstd::std_specs::convert::FromSpecImpl<&DeviceDescriptor> for ComPort {
    open spec fn obeys_from_spec() -> bool {
        false
    }

    open spec fn from_spec(d: &DeviceDescriptor) -> ComPort {
        arbitrary()
    }
}

impl DeviceDescriptor {
    /// Whether this device is the one that `entry` describes.
    pub fn matches_entry(&self, entry: &ComPort) -> (r: bool)
        ensures
            r == device_matches(self@, entry@),
    {
        if self.serial_number.is_none() {
            return false;
        }
        let candidate = ComPort::from(self);
        candidate.fuzzy_eq(entry)
    }
}

/// Two entries with the same product id and serial number are fuzzy-equal
/// whenever each optional field is equal on both sides or missing on one.
pub proof fn lemma_required_fields_decide(a: ComPort, b: ComPort)
    requires
        a.product_id == b.product_id,
        a@.serial_number == b@.serial_number,
        a@.manufacturer is None || b@.manufacturer is None || a@.manufacturer == b@.manufacturer,
        a@.product_name is None || b@.product_name is None || a@.product_name == b@.product_name,
    ensures
        a.spec_fuzzy_eq(&b),
{
}

/// Entries that differ in product id or in serial number are never
/// fuzzy-equal.
pub proof fn lemma_required_fields_differ(a: ComPort, b: ComPort)
    requires
        a.product_id != b.product_id || a@.serial_number != b@.serial_number,
    ensures
        !a.spec_fuzzy_eq(&b),
{
}

/// Fuzzy equality does not depend on the order of its arguments.
pub proof fn lemma_fuzzy_eq_symmetric(a: ComPort, b: ComPort)
    ensures
        a.spec_fuzzy_eq(&b) == b.spec_fuzzy_eq(&a),
{
}

/// Every entry is fuzzy-equal to itself.
pub proof fn lemma_fuzzy_eq_reflexive(a: ComPort)
    ensures
        a.spec_fuzzy_eq(&a),
{
}

} // verus!
