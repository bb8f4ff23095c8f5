//! A reachability monitor: hosts are probed on a jittered schedule, and a
//! notification goes out whenever one of them stops answering.
pub mod pinger;
pub mod configuration;
pub mod notifier;
pub mod monitor;
pub mod supervisor;
pub mod logging;
