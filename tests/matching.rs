use comi::{ComPort, DeviceDescriptor, FzyEq, Settings};

fn text(s: &str) -> Option<String> {
    Some(s.to_string())
}

fn entry(
    alias: &str,
    pid: u16,
    serial: &str,
    manufacturer: Option<String>,
    product: Option<String>,
) -> ComPort {
    ComPort {
        alias: alias.to_string(),
        product_id: pid,
        serial_number: serial.to_string(),
        manufacturer,
        product_name: product,
    }
}

fn widget_device() -> DeviceDescriptor {
    DeviceDescriptor {
        port_name: "COM3".to_string(),
        product_id: 0x1234,
        serial_number: text("ABC123"),
        manufacturer: text("Acme"),
        product_name: text("Widget"),
    }
}

#[test]
fn fuzzy_eq_with_all_fields_equal() {
    let a = entry("a", 1, "S1", text("Acme"), text("Widget"));
    let b = entry("b", 1, "S1", text("Acme"), text("Widget"));
    assert!(a.fuzzy_eq(&b));
}

#[test]
fn fuzzy_eq_ignores_a_missing_manufacturer_on_either_side() {
    let a = entry("", 1, "S1", None, text("Widget"));
    let b = entry("", 1, "S1", text("Acme"), text("Widget"));
    assert!(a.fuzzy_eq(&b));
    assert!(b.fuzzy_eq(&a));
}

#[test]
fn fuzzy_eq_ignores_a_missing_product_name_on_either_side() {
    let a = entry("", 1, "S1", text("Acme"), None);
    let b = entry("", 1, "S1", text("Acme"), text("Widget"));
    assert!(a.fuzzy_eq(&b));
    assert!(b.fuzzy_eq(&a));
}

#[test]
fn fuzzy_eq_with_both_optional_fields_missing() {
    let a = entry("x", 7, "S1", None, None);
    let b = entry("y", 7, "S1", None, None);
    assert!(a.fuzzy_eq(&b));
}

#[test]
fn fuzzy_eq_fails_on_differing_manufacturers() {
    let a = entry("", 1, "S1", text("Acme"), None);
    let b = entry("", 1, "S1", text("Other"), None);
    assert!(!a.fuzzy_eq(&b));
    assert!(!b.fuzzy_eq(&a));
}

#[test]
fn fuzzy_eq_fails_on_differing_product_names() {
    let a = entry("", 1, "S1", None, text("Widget"));
    let b = entry("", 1, "S1", None, text("Gadget"));
    assert!(!a.fuzzy_eq(&b));
}

#[test]
fn fuzzy_eq_trims_product_names() {
    let a = entry("", 1, "S1", None, text("  Widget "));
    let b = entry("", 1, "S1", None, text("Widget"));
    assert!(a.fuzzy_eq(&b));
    assert!(b.fuzzy_eq(&a));
}

#[test]
fn fuzzy_eq_fails_on_differing_product_id() {
    let a = entry("", 1, "S1", text("Acme"), text("Widget"));
    let b = entry("", 2, "S1", text("Acme"), text("Widget"));
    assert!(!a.fuzzy_eq(&b));
}

#[test]
fn fuzzy_eq_fails_on_differing_serial_number() {
    let a = entry("", 1, "S1", text("Acme"), text("Widget"));
    let b = entry("", 1, "S2", text("Acme"), text("Widget"));
    assert!(!a.fuzzy_eq(&b));
}

#[test]
fn exact_equality_compares_every_field() {
    let a = entry("a", 1, "S1", text("Acme"), None);
    assert!(a == entry("a", 1, "S1", text("Acme"), None));
    assert!(a != entry("b", 1, "S1", text("Acme"), None));
    assert!(a != entry("a", 1, "S1", None, None));
    assert!(a != entry("a", 1, "S1", text("Acme"), text("Widget")));
}

#[test]
fn entry_from_device_strips_the_last_product_word() {
    let d = DeviceDescriptor {
        port_name: "/dev/ttyUSB0".to_string(),
        product_id: 0x6001,
        serial_number: text("FT123"),
        manufacturer: text("FTDI"),
        product_name: text("USB Serial Device"),
    };
    let c = ComPort::from(&d);
    assert_eq!(c.alias, "");
    assert_eq!(c.product_id, 0x6001);
    assert_eq!(c.serial_number, "FT123");
    assert_eq!(c.manufacturer, text("FTDI"));
    assert_eq!(c.product_name, text("USB Serial"));
}

#[test]
fn entry_from_device_without_serial_or_product() {
    let d = DeviceDescriptor {
        port_name: "COM1".to_string(),
        product_id: 5,
        serial_number: None,
        manufacturer: None,
        product_name: None,
    };
    let c = ComPort::from(&d);
    assert_eq!(c.serial_number, "");
    assert_eq!(c.product_name, None);
    assert_eq!(c.manufacturer, None);
}

#[test]
fn device_without_serial_never_matches() {
    let d = DeviceDescriptor {
        port_name: "COM1".to_string(),
        product_id: 5,
        serial_number: None,
        manufacturer: None,
        product_name: None,
    };
    let e = entry("blank", 5, "", None, None);
    assert!(!d.matches_entry(&e));
}

#[test]
fn device_product_name_loses_generic_suffix_before_matching() {
    let mut d = widget_device();
    d.product_name = text("Widget Port");
    let e = entry("printer", 0x1234, "ABC123", text("Acme"), text("Widget"));
    assert!(d.matches_entry(&e));
}

#[test]
fn scenario_a_resolves_to_the_printer_entry() {
    let settings = Settings {
        com_ports: vec![entry("printer", 0x1234, "ABC123", text("Acme"), text("Widget"))],
    };
    let found = settings.resolve(&widget_device());
    assert_eq!(found, Some(0));
    assert_eq!(settings.com_ports[found.unwrap()].alias, "printer");
}

#[test]
fn scenario_b_other_serial_resolves_to_nothing() {
    let settings = Settings {
        com_ports: vec![entry("printer", 0x1234, "XYZ999", text("Acme"), text("Widget"))],
    };
    assert_eq!(settings.resolve(&widget_device()), None);
    let summary = settings.summarize(&vec![widget_device()]);
    assert_eq!(summary.unresolved, 1);
    assert_eq!(summary.labelled, 0);
}

#[test]
fn resolve_returns_the_first_matching_entry() {
    let settings = Settings {
        com_ports: vec![
            entry("other", 0x9999, "ABC123", None, None),
            entry("first", 0x1234, "ABC123", None, None),
            entry("second", 0x1234, "ABC123", text("Acme"), None),
        ],
    };
    assert_eq!(settings.resolve(&widget_device()), Some(1));
}

#[test]
fn resolve_ports_keeps_device_order() {
    let settings = Settings {
        com_ports: vec![entry("printer", 0x1234, "ABC123", None, None)],
    };
    let mut other = widget_device();
    other.serial_number = text("NOPE");
    let r = settings.resolve_ports(&vec![other, widget_device()]);
    assert_eq!(r, vec![None, Some(0)]);
}

#[test]
fn summary_counts_labelled_hidden_and_unresolved() {
    let settings = Settings {
        com_ports: vec![
            entry("printer", 0x1234, "ABC123", None, None),
            entry("", 0x1234, "HIDDEN", None, None),
        ],
    };
    let mut hidden = widget_device();
    hidden.serial_number = text("HIDDEN");
    let mut unknown = widget_device();
    unknown.serial_number = None;
    let s = settings.summarize(&vec![widget_device(), hidden, unknown, widget_device()]);
    assert_eq!(s.labelled, 2);
    assert_eq!(s.hidden, 1);
    assert_eq!(s.unresolved, 1);
}

#[test]
fn summary_of_no_devices_is_zero() {
    let settings = Settings { com_ports: vec![] };
    let s = settings.summarize(&vec![]);
    assert_eq!((s.labelled, s.hidden, s.unresolved), (0, 0, 0));
}
