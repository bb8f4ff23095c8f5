//! The fan-out over all configured hosts: one monitor per host, each with a
//! state of its own.
use crate::configuration::Host;
use crate::monitor::{step, Action, Event, HostMonitor, Reachability};
use vstd::prelude::*;

verus! {

/// One monitor per configured host, in the order of the configuration.
/// Duplicate hosts get monitors of their own.
#[derive(Debug)]
pub struct Supervisor {
    monitors: Vec<HostMonitor>,
}

impl Supervisor {
    /// The monitors, in order.
    pub closed spec fn units(&self) -> Seq<HostMonitor> {
        self.monitors@
    }

    /// Sets up one monitor per host, each believing its host up. This never
    /// fails, not even without hosts: the supervisor is then idle.
    pub fn new(hosts: Vec<Host>) -> (r: Supervisor)
        ensures
            r.units().len() == hosts@.len(),
            forall|i: int|
                0 <= i < hosts@.len() ==> (#[trigger] r.units()[i]).watched() == hosts@[i]
                    && r.units()[i].belief() == Reachability::Up,
    {
        let mut hosts = hosts;
        let ghost given = hosts@;
        let mut monitors: Vec<HostMonitor> = Vec::new();
        let n = hosts.len();
        let mut i: usize = 0;
        while i < n
            invariant
                n == given.len(),
                i <= n,
                hosts@.len() == n - i,
                monitors@.len() == i,
                hosts@ == given.subrange(i as int, n as int),
                forall|k: int|
                    0 <= k < i ==> (#[trigger] monitors@[k]).watched() == given[k]
                        && monitors@[k].belief() == Reachability::Up,
            decreases n - i,
        {
            let host = hosts.remove(0);
            monitors.push(HostMonitor::new(host));
            i = i + 1;
        }
        Supervisor { monitors }
    }

    /// Whether there is nothing to monitor.
    pub fn is_idle(&self) -> (r: bool)
        ensures
            r == (self.units().len() == 0),
    {
        self.monitors.len() == 0
    }

    /// The number of monitors.
    pub fn len(&self) -> (r: usize)
        ensures
            r == self.units().len(),
    {
        self.monitors.len()
    }

    /// Hands `event` to the monitor at `index`. No other monitor is touched.
    pub fn handle(&mut self, index: usize, event: Event) -> (r: Action)
        requires
            index < old(self).units().len(),
        ensures
            final(self).units().len() == old(self).units().len(),
            final(self).units()[index as int].watched() == old(self).units()[index as int].watched(),
            (final(self).units()[index as int].belief(), r) == step(
                old(self).units()[index as int].belief(),
                event,
            ),
            forall|j: int|
                0 <= j < old(self).units().len() && j != index ==> #[trigger] final(self).units()[j]
                    == old(self).units()[j],
    {
        let mut unit = self.monitors.remove(index);
        let action = unit.handle(event);
        self.monitors.insert(index, unit);
        action
    }

    /// Gives the monitors up, in order, so that each can run on its own.
    pub fn into_monitors(self) -> (r: Vec<HostMonitor>)
        ensures
            r@ == self.units(),
    {
        self.monitors
    }
}

} // verus!
