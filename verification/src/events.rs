//! The progress sink: rotation steps report human-readable progress
//! through this trait; emitting never fails the caller. The no-op sink is
//! for headless use.

use vstd::prelude::*;

verus! {

/// A sink for progress messages.
pub trait ProgressEmitter {
    /// Reports one progress message; must never fail the caller.
    fn emit_progress(&self, message: &str);
}

/// A sink that discards every message.
#[derive(Clone)]
pub struct NoopProgressEmitter;

impl NoopProgressEmitter {
    /// The no-op sink.
    pub fn new() -> (r: NoopProgressEmitter) {
        NoopProgressEmitter
    }
}

impl Default for NoopProgressEmitter {
    fn default() -> (r: NoopProgressEmitter) {
        NoopProgressEmitter::new()
    }
}

impl ProgressEmitter for NoopProgressEmitter {
    fn emit_progress(&self, _message: &str) {
    }
}

} // verus!
