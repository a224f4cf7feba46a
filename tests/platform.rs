use integrity_core::platform::{
    antivirus_enabled, display_from_device, is_virtual_system, user_data_subdir, Blocker, LinuxBlocker, LinuxProfiler, LinuxScanner,
    MacBlocker, MacProfiler, MacScanner, ProcessScanner, SystemProfiler,
};
use integrity_core::telemetry::BrowserInfo;

#[test]
fn linux_collectors_report_nothing_yet() {
    let p = LinuxProfiler;
    assert!(p.list_antivirus().unwrap().is_empty());
    assert!(p.list_browsers().unwrap().is_empty());
    let b = BrowserInfo { name: "x".to_string(), version: None, install_path: String::new(), profiles: vec![] };
    assert!(p.list_extensions(&b).unwrap().is_empty());
    assert!(p.list_displays().unwrap().is_empty());
    assert!(p.list_network_adapters().unwrap().is_empty());
    assert!(p.parse_hosts_file().unwrap().is_empty());
    assert_eq!(p.get_active_window().unwrap(), "Linux Window");
    assert_eq!(p.check_vm().unwrap(), false);
    assert!(LinuxScanner.scan().unwrap().is_empty());
    assert!(LinuxBlocker.block(42));
}

#[test]
fn mac_collectors_report_nothing_yet() {
    let p = MacProfiler;
    assert!(p.list_antivirus().unwrap().is_empty());
    assert_eq!(p.get_active_window().unwrap(), "Mac Window");
    assert_eq!(p.check_vm().unwrap(), false);
    assert!(MacScanner.scan().unwrap().is_empty());
    assert!(MacBlocker.block(7));
}

#[test]
fn antivirus_state_bit() {
    assert!(antivirus_enabled(0x1000));
    assert!(antivirus_enabled(397568));
    assert!(!antivirus_enabled(393472));
    assert!(!antivirus_enabled(0));
}

#[test]
fn hypervisors_are_recognised() {
    assert!(is_virtual_system("VMware, Inc.", "VMware Virtual Platform"));
    assert!(is_virtual_system("innotek GmbH", "VirtualBox"));
    assert!(is_virtual_system("QEMU", "Standard PC"));
    assert!(is_virtual_system("Microsoft Corporation", "Virtual Machine"));
}

#[test]
fn physical_machines_are_not_virtual() {
    assert!(!is_virtual_system("Microsoft Corporation", "Surface Laptop 5"));
    assert!(!is_virtual_system("Dell Inc.", "XPS 13 9310"));
    assert!(!is_virtual_system("", ""));
}

#[test]
fn display_with_bad_status_is_skipped() {
    let d = display_from_device(
        Some("Generic PnP Monitor".to_string()),
        Some("DISPLAY\\ABC".to_string()),
        Some("Error".to_string()),
    );
    assert!(d.is_none());
}

#[test]
fn display_fields_take_defaults() {
    let d = display_from_device(None, None, None).expect("a display");
    assert_eq!(d.name, "Unknown Display");
    assert_eq!(d.device_id, "");
    assert!(!d.is_primary);
    let e = display_from_device(Some("Dell U2720Q".to_string()), Some("ID1".to_string()), Some("OK".to_string()))
        .expect("a display");
    assert_eq!(e.name, "Dell U2720Q");
    assert_eq!(e.device_id, "ID1");
}

#[test]
fn browser_user_data_by_name() {
    assert_eq!(user_data_subdir("Google Chrome"), Some("Google\\Chrome\\User Data"));
    assert_eq!(user_data_subdir("Microsoft EDGE"), Some("Microsoft\\Edge\\User Data"));
    assert_eq!(user_data_subdir("Firefox"), None);
}
