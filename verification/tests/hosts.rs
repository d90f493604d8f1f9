use lcd_agent::hosts::{
    host_address, host_targets, subnet_prefix, HostRange, FIRST_SUFFIX, FULL_SWEEP,
};

#[test]
fn subnet_prefix_keeps_three_parts() {
    assert_eq!(subnet_prefix("192.168.11.1"), "192.168.11");
    assert_eq!(subnet_prefix("10.0.0.1"), "10.0.0");
    assert_eq!(subnet_prefix("10.0.0.1.7.8"), "10.0.0");
}

#[test]
fn subnet_prefix_of_short_addresses() {
    assert_eq!(subnet_prefix(""), "");
    assert_eq!(subnet_prefix("10"), "10");
    assert_eq!(subnet_prefix("10.0"), "10.0");
    assert_eq!(subnet_prefix("10.0.0"), "10.0.0");
}

#[test]
fn subnet_prefix_with_empty_parts() {
    assert_eq!(subnet_prefix("10.0.0."), "10.0.0");
    assert_eq!(subnet_prefix("..."), "..");
    assert_eq!(subnet_prefix(".."), "..");
    assert_eq!(subnet_prefix("a..b.c"), "a..b");
}

#[test]
fn subnet_prefix_counts_characters_not_bytes() {
    assert_eq!(subnet_prefix("é.ü.ß.x"), "é.ü.ß");
}

#[test]
fn host_address_appends_the_suffix() {
    assert_eq!(host_address("10.0.0", 1), "10.0.0.1");
    assert_eq!(host_address("10.0.0", 42), "10.0.0.42");
    assert_eq!(host_address("192.168.11", 255), "192.168.11.255");
    assert_eq!(host_address("", 0), ".0");
}

#[test]
fn host_range_accepts_what_lies_within_the_subnet() {
    assert_eq!(HostRange::new(1, 255), Some(HostRange { first: 1, count: 255 }));
    assert_eq!(HostRange::new(251, 5), Some(HostRange { first: 251, count: 5 }));
    assert_eq!(HostRange::new(255, 1), Some(HostRange { first: 255, count: 1 }));
    assert_eq!(HostRange::new(7, 0), Some(HostRange { first: 7, count: 0 }));
}

#[test]
fn host_range_rejects_what_leaves_the_subnet() {
    assert_eq!(HostRange::new(0, 10), None);
    assert_eq!(HostRange::new(0, 0), None);
    assert_eq!(HostRange::new(2, 255), None);
    assert_eq!(HostRange::new(251, 6), None);
    assert_eq!(HostRange::new(255, 2), None);
}

#[test]
fn full_range_is_the_whole_subnet() {
    let range = HostRange::full();
    assert_eq!(range.first, 1);
    assert_eq!(range.count, 255);
    assert_eq!(FIRST_SUFFIX, 1);
    assert_eq!(FULL_SWEEP, 255);
}

#[test]
fn host_targets_of_a_window() {
    let range = HostRange::new(11, 10).unwrap();
    let targets = host_targets("10.0.0.1", range);
    assert_eq!(
        targets,
        vec![
            "10.0.0.11", "10.0.0.12", "10.0.0.13", "10.0.0.14", "10.0.0.15", "10.0.0.16",
            "10.0.0.17", "10.0.0.18", "10.0.0.19", "10.0.0.20",
        ]
    );
}

#[test]
fn host_targets_of_the_full_sweep() {
    let targets = host_targets("192.168.11.1", HostRange::full());
    assert_eq!(targets.len(), 255);
    assert_eq!(targets[0], "192.168.11.1");
    assert_eq!(targets[9], "192.168.11.10");
    assert_eq!(targets[99], "192.168.11.100");
    assert_eq!(targets[254], "192.168.11.255");
}

#[test]
fn host_targets_are_pairwise_distinct() {
    let targets = host_targets("10.1.2.3", HostRange::full());
    for i in 0..targets.len() {
        for j in 0..i {
            assert_ne!(targets[i], targets[j]);
        }
    }
}

#[test]
fn host_targets_of_an_empty_range() {
    let range = HostRange::new(5, 0).unwrap();
    assert!(host_targets("10.0.0.1", range).is_empty());
}
