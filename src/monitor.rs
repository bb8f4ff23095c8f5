//! One host's monitor: the jittered schedule and the up/down state machine
//! that turns a stream of probe outcomes into one alert per outage.
use crate::configuration::Host;
use crate::notifier::{message_of, title_of, Payload, Target};
use rand::Rng;
use vstd::prelude::*;

verus! {

/// What a monitor believes of its host.
#[derive(Clone, Copy, Debug, PartialEq, Eq, Structural)]
pub enum Reachability {
    Up,
    Down,
}

/// The outcome of one probe. A probe that could not run counts as a host that
/// did not answer, but stays distinguishable for diagnostics.
#[derive(Clone, Copy, Debug, PartialEq, Eq, Structural)]
pub enum ProbeOutcome {
    Reachable,
    Unreachable,
    Failed,
}

/// What a monitor is told.
#[derive(Clone, Copy, Debug, PartialEq, Eq, Structural)]
pub enum Event {
    /// A probe of the host came back.
    Probed(ProbeOutcome),
    /// The notification asked for came back, delivered or not.
    Delivered(bool),
}

/// What a monitor asks for in return.
#[derive(Clone, Copy, Debug, PartialEq, Eq, Structural)]
pub enum Action {
    /// Nothing changed: wait for the next probe.
    Unchanged,
    /// The host answers again: note it, notify nobody.
    Recovered,
    /// The host stopped answering: send the down-notification.
    Notify,
    /// The notification went out.
    Sent,
    /// The notification could not be delivered: note it, go on.
    DeliveryFailed,
}

/// Whether a probe outcome counts as an answer.
pub open spec fn answered(outcome: ProbeOutcome) -> bool {
    outcome == ProbeOutcome::Reachable
}

/// The state machine on one probe result: stay silent while nothing changes,
/// recover quietly, notify on the fall from up to down.
pub open spec fn on_probe(state: Reachability, ok: bool) -> (Reachability, Action) {
    if ok == (state == Reachability::Up) {
        (state, Action::Unchanged)
    } else if ok {
        (Reachability::Up, Action::Recovered)
    } else {
        (Reachability::Down, Action::Notify)
    }
}

/// The state machine on any event. A delivery report never moves the state.
pub open spec fn step(state: Reachability, event: Event) -> (Reachability, Action) {
    match event {
        Event::Probed(outcome) => on_probe(state, answered(outcome)),
        Event::Delivered(ok) => (state, if ok { Action::Sent } else { Action::DeliveryFailed }),
    }
}

/// The state reached from `state` after the probe results `results`, in order.
pub open spec fn settle(state: Reachability, results: Seq<bool>) -> Reachability
    decreases results.len(),
{
    if results.len() == 0 {
        state
    } else {
        on_probe(settle(state, results.drop_last()), results.last()).0
    }
}

/// A delay actually slept: a sample at or below zero means no wait at all.
pub open spec fn clamp(sample: int) -> int {
    if sample > 0 {
        sample
    } else {
        0
    }
}

/// Relies on `rand::Rng::gen_range` over `rand::rngs::OsRng`: a value drawn
/// uniformly from the closed range `low..=high`; `gen_range` panics on an empty
/// range, which `requires` rules out. (`OsRng` itself panics only when the
/// operating system cannot supply random bytes at all.)
#[verifier::external_body]
fn draw(low: i128, high: i128) -> (r: i128)
    requires
        low <= high,
    ensures
        low <= r <= high,
{
    rand::rngs::OsRng.gen_range(low..=high)
}

/// The exec form of the state machine.
pub fn transition(state: Reachability, event: Event) -> (r: (Reachability, Action))
    ensures
        r == step(state, event),
{
    match event {
        Event::Probed(outcome) => {
            let ok = outcome == ProbeOutcome::Reachable;
            if ok == (state == Reachability::Up) {
                (state, Action::Unchanged)
            } else if ok {
                (Reachability::Up, Action::Recovered)
            } else {
                (Reachability::Down, Action::Notify)
            }
        },
        Event::Delivered(ok) => (state, if ok { Action::Sent } else { Action::DeliveryFailed }),
    }
}

/// The wait, in milliseconds, that a sampled delay stands for.
pub fn delay_for(sample: i128) -> (r: u128)
    ensures
        r == clamp(sample as int),
{
    if sample > 0 {
        sample as u128
    } else {
        0
    }
}

/// How a host is called in its notifications.
pub open spec fn host_label(host: Host) -> Seq<char> {
    match host.name {
        Some(n) => n@,
        None => host.dns@,
    }
}

/// The monitor of one host: its settings and the one state it owns.
#[derive(Debug)]
pub struct HostMonitor {
    host: Host,
    state: Reachability,
}

impl HostMonitor {
    /// The host watched.
    pub closed spec fn watched(&self) -> Host {
        self.host
    }

    /// What the monitor believes of its host.
    pub closed spec fn belief(&self) -> Reachability {
        self.state
    }

    /// A monitor of `host`, which starts out believing the host up.
    pub fn new(host: Host) -> (r: HostMonitor)
        ensures
            r.watched() == host,
            r.belief() == Reachability::Up,
    {
        HostMonitor { host, state: Reachability::Up }
    }

    /// The host watched.
    pub fn host(&self) -> (r: &Host)
        ensures
            *r == self.watched(),
    {
        &self.host
    }

    /// What the monitor believes of its host.
    pub fn state(&self) -> (r: Reachability)
        ensures
            r == self.belief(),
    {
        self.state
    }

    /// The wait before the next probe, in milliseconds: a value drawn
    /// uniformly from the mean delay give or take the jitter, where a draw at
    /// or below zero means probing at once.
    pub fn next_delay(&self) -> (r: u128)
        ensures
            exists|sample: int|
                self.watched().delay_ms - self.watched().jitter_ms <= sample
                    <= self.watched().delay_ms + self.watched().jitter_ms
                    && r == #[trigger] clamp(sample),
    {
        let low = self.host.delay_ms as i128 - self.host.jitter_ms as i128;
        let high = self.host.delay_ms as i128 + self.host.jitter_ms as i128;
        let sample = draw(low, high);
        delay_for(sample)
    }

    /// Takes in one event and says what is to be done.
    pub fn handle(&mut self, event: Event) -> (r: Action)
        ensures
            final(self).watched() == old(self).watched(),
            (final(self).belief(), r) == step(old(self).belief(), event),
    {
        let (next, action) = transition(self.state, event);
        self.state = next;
        action
    }

    /// The notification that this host is down, for `target`.
    pub fn alert(&self, target: &Target) -> (r: Payload)
        ensures
            r.topic@ == target.topic@,
            r.title@ == title_of(host_label(self.watched())),
            r.message@ == message_of(self.watched().dns@),
            r.icon == target.icon,
    {
        let name: Option<&str> = match &self.host.name {
            Some(n) => Some(n.as_str()),
            None => None,
        };
        target.payload(name, self.host.dns.as_str())
    }
}

/// However large the jitter is against the mean delay, a sample in the drawn
/// range never turns into a negative wait: samples at or below zero mean no
/// wait, and positive ones are slept as drawn.
pub proof fn delay_never_negative(delay_ms: u64, jitter_ms: u64, sample: int)
    requires
        jitter_ms >= delay_ms,
        delay_ms - jitter_ms <= sample <= delay_ms + jitter_ms,
    ensures
        clamp(sample) >= 0,
        sample <= 0 ==> clamp(sample) == 0,
        sample > 0 ==> clamp(sample) == sample,
{
}

/// After any probe results, the state is that of the last result, or the
/// starting state when there were none.
pub proof fn settle_follows_last(state: Reachability, results: Seq<bool>)
    ensures
        settle(state, results) == if results.len() == 0 {
            state
        } else if results.last() {
            Reachability::Up
        } else {
            Reachability::Down
        },
{
}

/// Starting up, the result at `i` of a run of probe results asks for a
/// notification exactly when it is a failure that follows a success, or is the
/// first result of all.
pub proof fn notify_exactly_on_falls(results: Seq<bool>, i: int)
    requires
        0 <= i < results.len(),
    ensures
        on_probe(settle(Reachability::Up, results.take(i)), results[i]).1 == Action::Notify
            <==> (!results[i] && (i == 0 || results[i - 1])),
{
    let before = results.take(i);
    settle_follows_last(Reachability::Up, before);
    if i > 0 {
        assert(before.last() == results[i - 1]);
    }
}

/// A recovery never notifies: the only event that asks for a notification is
/// a probe without an answer while the host was believed up, and a probe that
/// is answered while the host is believed down is a silent recovery.
pub proof fn recovery_is_silent(state: Reachability, event: Event)
    ensures
        step(state, event).1 == Action::Notify ==> state == Reachability::Up && (event
            matches Event::Probed(o) && !answered(o)),
        state == Reachability::Down && event == Event::Probed(ProbeOutcome::Reachable)
            ==> step(state, event) == (Reachability::Up, Action::Recovered),
{
}

/// A failed delivery changes nothing of what the monitor believes: what follows
/// is handled as after a delivered one, and the next outage after a recovery
/// is notified again.
pub proof fn failed_delivery_is_harmless(state: Reachability, outcome: ProbeOutcome)
    ensures
        step(state, Event::Delivered(false)).0 == state,
        step(step(state, Event::Delivered(false)).0, Event::Probed(outcome))
            == step(step(state, Event::Delivered(true)).0, Event::Probed(outcome)),
        ({
            let down = step(step(Reachability::Up, Event::Probed(outcome)).0, Event::Delivered(false)).0;
            let back = step(down, Event::Probed(ProbeOutcome::Reachable)).0;
            !answered(outcome) ==> step(back, Event::Probed(outcome)).1 == Action::Notify
        }),
{
}

} // verus!
