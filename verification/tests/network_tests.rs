use wifi_menu::network::{
    connect_command, connect_report, credential_record, ssids_from_scan, ConnectReport,
};

#[test]
fn scan_output_gives_trimmed_ssids() {
    let out = b"Home\n  Cafe Wifi \nOffice-5G\n".to_vec();
    assert_eq!(
        ssids_from_scan(true, out),
        Some(vec!["Home".to_string(), "Cafe Wifi".to_string(), "Office-5G".to_string()])
    );
}

#[test]
fn failed_scan_gives_no_list() {
    assert_eq!(ssids_from_scan(false, b"Home\n".to_vec()), None);
}

#[test]
fn scan_output_that_is_not_utf8_gives_no_list() {
    assert_eq!(ssids_from_scan(true, vec![b'H', 0xff, b'\n']), None);
}

#[test]
fn empty_scan_output_gives_empty_list() {
    assert_eq!(ssids_from_scan(true, Vec::new()), Some(Vec::new()));
}

#[test]
fn scan_output_in_utf8_is_decoded() {
    let out = "Café\nМир\n".as_bytes().to_vec();
    assert_eq!(ssids_from_scan(true, out), Some(vec!["Café".to_string(), "Мир".to_string()]));
}

#[test]
fn connect_command_line() {
    assert_eq!(
        connect_command("Home", "s3cret"),
        "sudo nmcli device wifi connect Home password s3cret"
    );
}

#[test]
fn credential_record_line() {
    assert_eq!(credential_record("Home", "AB_1"), "Home: AB_1\n");
    assert_eq!(credential_record("", ""), ": \n");
}

#[test]
fn successful_connect_reports_its_output() {
    match connect_report(true, b"Device wlan0 connected".to_vec(), Vec::new()) {
        ConnectReport::Output(t) => assert_eq!(t, "Device wlan0 connected"),
        _ => panic!("expected the command's output"),
    }
}

#[test]
fn successful_connect_with_unreadable_output_is_quiet() {
    assert!(matches!(connect_report(true, vec![0xc3], Vec::new()), ConnectReport::Quiet));
}

#[test]
fn failed_connect_reports_its_error() {
    match connect_report(false, b"ignored".to_vec(), b"No network with SSID".to_vec()) {
        ConnectReport::Failed(m) => assert_eq!(m, "Command failed with error: No network with SSID"),
        _ => panic!("expected a failure"),
    }
}

#[test]
fn failed_connect_replaces_invalid_bytes() {
    match connect_report(false, Vec::new(), vec![b'x', 0xff]) {
        ConnectReport::Failed(m) => assert_eq!(m, "Command failed with error: x\u{FFFD}"),
        _ => panic!("expected a failure"),
    }
}
