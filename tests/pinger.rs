use srvchk::pinger::{Family, Pinger, Platform};

fn args(p: Platform, host: &str, f: Family) -> Vec<String> {
    Pinger::arguments(p, host, f)
}

#[test]
fn unix_ipv4_passes_flag() {
    assert_eq!(args(Platform::Unix, "10.0.0.1", Family::IPv4), vec!["-n", "-c", "2", "-4", "--", "10.0.0.1"]);
}

#[test]
fn unix_ipv6_passes_flag() {
    assert_eq!(args(Platform::Unix, "example.org", Family::IPv6), vec!["-n", "-c", "2", "-6", "--", "example.org"]);
}

#[test]
fn unix_any_passes_no_flag() {
    assert_eq!(args(Platform::Unix, "example.org", Family::Any), vec!["-n", "-c", "2", "--", "example.org"]);
}

#[test]
fn windows_ipv4_passes_flag() {
    assert_eq!(args(Platform::Windows, "10.0.0.1", Family::IPv4), vec!["-n", "2", "-4", "10.0.0.1"]);
}

#[test]
fn windows_any_passes_no_flag() {
    assert_eq!(args(Platform::Windows, "example.org", Family::Any), vec!["-n", "2", "example.org"]);
}
