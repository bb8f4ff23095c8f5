use srvchk::configuration::{Configuration, Host, Ntfy};
use srvchk::logging::{Level, LevelFilter, Logger};
use srvchk::notifier::Target;
use srvchk::pinger::Family;

#[test]
fn ntfy_defaults() {
    let n = Ntfy::default();
    assert_eq!(n.url, "https://ntfy.sh/");
    assert_eq!(n.topic, "srvchk");
    assert!(n.username.is_none() && n.password.is_none() && n.icon.is_none());
}

#[test]
fn target_defaults() {
    let t = Target::default();
    assert_eq!(t.url, "https://ntfy.sh/");
    assert_eq!(t.topic, "srvchk");
    assert!(t.username.is_none() && t.password.is_none() && t.icon.is_none());
}

#[test]
fn host_defaults() {
    let h = Host::default();
    assert_eq!(h.name, None);
    assert_eq!(h.dns, "");
    assert_eq!(h.family, Family::Any);
    assert_eq!(h.delay_ms, 60_000);
    assert_eq!(h.jitter_ms, 10_000);
}

#[test]
fn configuration_defaults_to_no_hosts() {
    let c = Configuration::default();
    assert!(c.hosts.is_empty());
    assert_eq!(c.ntfy.url, "https://ntfy.sh/");
}

#[test]
fn payload_escapes_address() {
    let mut t = Target::default();
    t.icon = Some("https://example.org/icon.png".to_string());
    let p = t.payload(None, "a\"b");
    assert_eq!(p.title, "a\"b is down!");
    assert_eq!(p.message, "Host \"a\\\"b\" is unreachable.");
    assert_eq!(p.icon.as_deref(), Some("https://example.org/icon.png"));
}

#[test]
fn logger_filters_by_level() {
    let l = Logger::new(LevelFilter::Info);
    assert_eq!(l.level(), LevelFilter::Info);
    assert!(l.enabled(Level::Error));
    assert!(l.enabled(Level::Info));
    assert!(!l.enabled(Level::Debug));
    assert!(!Logger::new(LevelFilter::Off).enabled(Level::Error));
    assert!(Logger::new(LevelFilter::Trace).enabled(Level::Trace));
}

#[test]
fn logger_line_format() {
    let l = Logger::new(LevelFilter::Trace);
    assert_eq!(l.line(Level::Warn, "srvchk:host", "host is unreachable"), "[W] [srvchk:host] host is unreachable");
    assert_eq!(l.line(Level::Debug, "t", ""), "[D] [t] ");
}
