use tuya_outlets::{Error, Registry};

fn strings(items: &[&str]) -> Vec<String> {
    items.iter().map(|s| String::from(*s)).collect()
}

#[test]
fn mismatched_lengths_are_a_fatal_configuration_error() {
    // Three device ids and keys, but only two addresses.
    let r = Registry::new(
        strings(&["a", "b", "c"]),
        strings(&["id0", "id1", "id2"]),
        strings(&["k0", "k1", "k2"]),
        strings(&["10.0.0.1", "10.0.0.2"]),
        strings(&["3.3", "3.3", "3.3"]),
    );
    assert!(matches!(r, Err(Error::ConfigurationMismatch)));
}

#[test]
fn equal_lengths_build_the_registry() {
    let r = Registry::new(
        strings(&["a", "b"]),
        strings(&["id0", "id1"]),
        strings(&["k0", "k1"]),
        strings(&["10.0.0.1", "10.0.0.2"]),
        strings(&["3.3", "3.3"]),
    );
    let reg = r.expect("equal-length lists must build");
    assert_eq!(reg.len(), 2);
    let o = reg.lookup(1).expect("outlet 1 exists");
    assert_eq!(o.name, "b");
    assert_eq!(o.dev_id, "id1");
    assert_eq!(o.key, "k1");
    assert_eq!(o.address, "10.0.0.2");
    assert_eq!(o.protocol_version, "3.3");
}

#[test]
fn out_of_range_lookup_reports_not_found() {
    let reg = Registry::new(
        strings(&["a", "b"]),
        strings(&["id0", "id1"]),
        strings(&["k0", "k1"]),
        strings(&["10.0.0.1", "10.0.0.2"]),
        strings(&["3.3", "3.3"]),
    )
    .expect("equal-length lists must build");
    assert!(reg.lookup(2).is_none());
    assert!(reg.lookup(5).is_none());
    assert!(reg.lookup(usize::MAX).is_none());
}

#[test]
fn empty_configuration_is_valid() {
    let reg = Registry::new(
        strings(&[]),
        strings(&[]),
        strings(&[]),
        strings(&[]),
        strings(&[]),
    )
    .expect("empty lists agree in length");
    assert_eq!(reg.len(), 0);
    assert!(reg.lookup(0).is_none());
}
