//! The settings the monitor runs with: where notifications go, and which hosts
//! are watched on what schedule.
use crate::pinger::Family;
use vstd::prelude::*;

verus! {

/// Where down-notifications are posted.
#[derive(Clone, Debug)]
pub struct Ntfy {
    pub url: String,
    pub username: Option<String>,
    pub password: Option<String>,
    pub topic: String,
    pub icon: Option<String>,
}

impl Default for Ntfy {
    /// The public ntfy service, under this program's topic, without credentials
    /// or icon.
    fn default() -> (r: Ntfy)
        ensures
            r.url@ == "https://ntfy.sh/"@,
            r.username is None,
            r.password is None,
            r.topic@ == "srvchk"@,
            r.icon is None,
    {
        Ntfy {
            url: String::from_str("https://ntfy.sh/"),
            username: None,
            password: None,
            topic: String::from_str("srvchk"),
            icon: None,
        }
    }
}

/// One watched host. Delays are in milliseconds: probes are spaced by
/// `delay_ms`, give or take up to `jitter_ms`.
#[derive(Clone, Debug)]
pub struct Host {
    pub name: Option<String>,
    pub dns: String,
    pub family: Family,
    pub delay_ms: u64,
    pub jitter_ms: u64,
}

impl Default for Host {
    /// No name, no address, any IP version, a minute give or take ten seconds.
    fn default() -> (r: Host)
        ensures
            r.name is None,
            r.dns@ == Seq::<char>::empty(),
            r.family == Family::Any,
            r.delay_ms == 60_000,
            r.jitter_ms == 10_000,
    {
        Host { name: None, dns: String::new(), family: Family::Any, delay_ms: 60_000, jitter_ms: 10_000 }
    }
}

/// The whole configuration: the notification sink and the hosts, in order.
#[derive(Clone, Debug)]
pub struct Configuration {
    pub ntfy: Ntfy,
    pub hosts: Vec<Host>,
}

impl Default for Configuration {
    /// The default sink and no hosts.
    fn default() -> (r: Configuration)
        ensures
            r.ntfy.url@ == "https://ntfy.sh/"@,
            r.ntfy.username is None,
            r.ntfy.password is None,
            r.ntfy.topic@ == "srvchk"@,
            r.ntfy.icon is None,
            r.hosts@.len() == 0,
    {
        Configuration { ntfy: Ntfy::default(), hosts: Vec::new() }
    }
}

} // verus!
