use srvchk::configuration::Host;
use srvchk::monitor::{Action, Event, ProbeOutcome, Reachability};
use srvchk::pinger::Family;
use srvchk::supervisor::Supervisor;

fn host(dns: &str) -> Host {
    Host { name: None, dns: dns.to_string(), family: Family::IPv4, delay_ms: 1000, jitter_ms: 10 }
}

#[test]
fn no_hosts_is_idle() {
    let s = Supervisor::new(Vec::new());
    assert!(s.is_idle());
    assert_eq!(s.len(), 0);
    assert!(s.into_monitors().is_empty());
}

#[test]
fn one_monitor_per_host_in_order() {
    let s = Supervisor::new(vec![host("a.example"), host("b.example"), host("a.example")]);
    assert!(!s.is_idle());
    let ms = s.into_monitors();
    assert_eq!(ms.len(), 3);
    assert_eq!(ms[0].host().dns, "a.example");
    assert_eq!(ms[1].host().dns, "b.example");
    assert_eq!(ms[2].host().dns, "a.example");
    assert!(ms.iter().all(|m| m.state() == Reachability::Up));
}

#[test]
fn duplicate_hosts_keep_separate_states() {
    let mut s = Supervisor::new(vec![host("same.example"), host("same.example")]);
    let a = s.handle(0, Event::Probed(ProbeOutcome::Unreachable));
    let b = s.handle(1, Event::Probed(ProbeOutcome::Reachable));
    let notifications = [a, b].iter().filter(|x| **x == Action::Notify).count();
    assert_eq!(notifications, 1);
    let ms = s.into_monitors();
    assert_eq!(ms[0].state(), Reachability::Down);
    assert_eq!(ms[1].state(), Reachability::Up);
}
