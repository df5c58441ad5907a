//! Drive a cooperative task executor from a host's poll-driven notifier.
//!
//! The host calls four hooks (arm a timer, wait for an event, register and
//! unregister interest in a descriptor). This library holds the decisions those
//! hooks make: which handler a descriptor has, what its watcher reports, what a
//! queued event record delivers, which timer is current and how long to wait.
//! The executor, the I/O reactor and the host's queue stay outside.
pub mod mask;
pub mod time;
pub mod registry;
