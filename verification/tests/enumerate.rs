use ufpgactl::enumerate_devices;
use ufpgactl::pci::Location;
use ufpgactl::sysfs::{ClassEntry, DevNode, SysfsLookupError};

fn entry(name: &str, link_tail: Option<&str>, dev_contents: Option<&str>) -> ClassEntry {
    ClassEntry {
        name: Some(String::from(name)),
        link_tail: link_tail.map(String::from),
        dev_contents: dev_contents.map(String::from),
    }
}

#[test]
fn enumerate_tolerates_partial_failure() {
    let nodes = vec![
        DevNode { path: String::from("/dev/null0"), rdev: 0x0103 },
        DevNode { path: String::from("/dev/ufpga0"), rdev: 0x0801 },
    ];
    let listing = Some(vec![
        // Broken `device` link: skipped.
        entry("broken-link", None, Some("8:1")),
        // Device number matching no node: skipped.
        entry("no-node", Some("0000:00:00.0"), Some("9:9")),
        // Fully valid: the one record.
        entry("ufpga0", Some("0001:02:03.4"), Some("8:1\n")),
    ]);
    let out = enumerate_devices(&listing, &nodes).unwrap();
    assert_eq!(out.len(), 1);
    assert_eq!(out[0].device.name, "ufpga0");
    assert_eq!(out[0].device.mount, "/dev/ufpga0");
    assert_eq!(out[0].device.location, Location { domain: 1, bus: 2, device: 3, function: 4 });
}

#[test]
fn enumerate_keeps_listing_order() {
    let nodes = vec![
        DevNode { path: String::from("/dev/a"), rdev: 0x0100 },
        DevNode { path: String::from("/dev/b"), rdev: 0x0200 },
    ];
    let listing = Some(vec![
        entry("one", Some("0000:00:00.0"), Some("1:0")),
        entry("two", Some("0000:00:01.0"), Some("2:0")),
    ]);
    let out = enumerate_devices(&listing, &nodes).unwrap();
    assert_eq!(out.len(), 2);
    assert_eq!(out[0].device.name, "one");
    assert_eq!(out[0].device.mount, "/dev/a");
    assert_eq!(out[1].device.name, "two");
    assert_eq!(out[1].device.mount, "/dev/b");
}

#[test]
fn enumerate_missing_class_directory_is_fatal() {
    let nodes = Vec::new();
    assert_eq!(enumerate_devices(&None, &nodes), Err(SysfsLookupError));
}

#[test]
fn enumerate_empty_listing_yields_no_devices() {
    let out = enumerate_devices(&Some(Vec::new()), &Vec::new()).unwrap();
    assert!(out.is_empty());
}
