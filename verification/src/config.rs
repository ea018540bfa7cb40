//! The live control parameters of the sender, and the invariant they keep.

use vstd::prelude::*;
use vstd::rwlock::{RwLock, RwLockPredicate};

verus! {

/// Highest destination port the sender will ever target; the adjacent odd
/// port is reserved for a companion channel, so the port itself stays even.
pub const MAX_PORT: u16 = 65534;

/// A point-in-time copy of the four control parameters.
#[derive(Clone, Copy, PartialEq, Eq, Structural, Debug)]
pub struct Config {
    /// Target period between successive pulse starts, in milliseconds.
    pub interval_ms: u64,
    /// How long the pressed value is held before release, in milliseconds.
    pub hold_ms: u64,
    /// Whether pulsing is currently requested.
    pub enabled: bool,
    /// UDP destination port on localhost; always even, at most `MAX_PORT`.
    pub dest_port: u16,
}

impl Config {
    /// The invariant every stored configuration keeps: the destination port
    /// is even and within range.
    pub open spec fn wf(self) -> bool {
        self.dest_port <= MAX_PORT && self.dest_port % 2 == 0
    }
}

impl Default for Config {
    /// The startup configuration: one pulse a second, an 80 ms hold,
    /// sending off, port 9000.
    fn default() -> (c: Config)
        ensures
            c.interval_ms == 1000,
            c.hold_ms == 80,
            !c.enabled,
            c.dest_port == 9000,
            c.wf(),
    {
        Config { interval_ms: 1000, hold_ms: 80, enabled: false, dest_port: 9000 }
    }
}

/// The lock predicate of the shared store: every configuration it ever
/// holds is well formed.
pub struct ConfigInv {}

impl RwLockPredicate<Config> for ConfigInv {
    open spec fn inv(self, c: Config) -> bool {
        c.wf()
    }
}

/// The live configuration, shared between the interactive surface and the
/// pulse engine. One lock guards the whole four-field record, so a snapshot
/// is always an internally consistent point-in-time copy: it can never mix
/// fields from before and after a concurrent write.
pub struct SharedConfig {
    lock: RwLock<Config, ConfigInv>,
}

impl SharedConfig {
    /// A fresh store holding the startup configuration.
    pub fn new() -> SharedConfig {
        SharedConfig { lock: RwLock::new(Config::default(), Ghost(ConfigInv {})) }
    }

    /// A consistent point-in-time copy of all four fields, taken under a
    /// single read lock.
    pub fn read_snapshot(&self) -> (c: Config)
        ensures
            c.wf(),
    {
        let handle = self.lock.acquire_read();
        let c = *handle.borrow();
        handle.release_read();
        c
    }

    /// Atomically replaces the pulse interval.
    pub fn set_interval_ms(&self, interval_ms: u64) {
        let (mut c, handle) = self.lock.acquire_write();
        c.interval_ms = interval_ms;
        handle.release_write(c);
    }

    /// Atomically replaces the hold duration.
    pub fn set_hold_ms(&self, hold_ms: u64) {
        let (mut c, handle) = self.lock.acquire_write();
        c.hold_ms = hold_ms;
        handle.release_write(c);
    }

    /// Atomically replaces the enabled flag.
    pub fn set_enabled(&self, enabled: bool) {
        let (mut c, handle) = self.lock.acquire_write();
        c.enabled = enabled;
        handle.release_write(c);
    }

    /// Atomically replaces the destination port, which must keep the store's
    /// invariant: even and within range.
    pub fn set_dest_port(&self, dest_port: u16)
        requires
            dest_port <= MAX_PORT,
            dest_port % 2 == 0,
    {
        let (mut c, handle) = self.lock.acquire_write();
        c.dest_port = dest_port;
        handle.release_write(c);
    }
}

} // verus!
