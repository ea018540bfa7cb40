//! The interactive surface's side of the sender: a locally-mirrored copy of
//! each control parameter for responsive rendering, plus the handle to the
//! shared store both actors read and write.
//!
//! The mirror pushes a change into the shared store only when a value
//! actually changed, never on every frame.

use vstd::prelude::*;
use std::sync::Arc;
use crate::config::{SharedConfig, MAX_PORT};
use crate::port::{nudge_port, nudge_spec};

verus! {

/// The sender as the interactive surface drives it: the mirrored parameters
/// and the shared store.
pub struct OscSenderApp {
    /// Mirrored pulse interval, in milliseconds.
    pub interval_ms: u64,
    /// Mirrored hold duration, in milliseconds.
    pub hold_ms: u64,
    /// Mirrored enabled flag.
    pub checked: bool,
    /// Mirrored destination port.
    pub port: u16,
    /// The store shared with the pulse engine.
    pub state: Arc<SharedConfig>,
}

impl OscSenderApp {
    /// A fresh sender: the mirror holds the startup values, and the shared
    /// store is newly created with the same defaults.
    pub fn new() -> (app: OscSenderApp)
        ensures
            app.interval_ms == 1000,
            app.hold_ms == 80,
            !app.checked,
            app.port == 9000,
    {
        OscSenderApp {
            interval_ms: 1000,
            hold_ms: 80,
            checked: false,
            port: 9000,
            state: Arc::new(SharedConfig::new()),
        }
    }

    /// Moves the destination port by `delta`: the mirrored port becomes the
    /// nudged value — clamped into `[0, MAX_PORT]` and rounded down to even —
    /// and the shared store is updated only when that value differs from the
    /// current one. The other mirrored parameters are untouched. Port
    /// changes are not supported while pulsing is enabled, so the caller
    /// must not invoke this while the enabled flag is set.
    pub fn nudge_port(&mut self, delta: i32)
        requires
            !old(self).checked,
        ensures
            final(self).port == nudge_spec(old(self).port, delta),
            final(self).port % 2 == 0,
            final(self).port <= MAX_PORT,
            final(self).interval_ms == old(self).interval_ms,
            final(self).hold_ms == old(self).hold_ms,
            final(self).checked == old(self).checked,
            final(self).state == old(self).state,
    {
        let snapped = nudge_port(self.port, delta);
        if snapped != self.port {
            self.port = snapped;
            self.state.set_dest_port(snapped);
        }
    }
}

} // verus!
