//! The emission debouncer's decision core: an identical screen is skipped
//! while the last send is fresh, and anything is sent again once half a
//! second has passed. The caller owns the clock and the transport; this
//! state machine only decides and records.

use vstd::prelude::*;

use crate::screens::screen_eq_spec;
use crate::screens::Screen;

verus! {

/// How emitted events leave the process: posted to the ingestion endpoint,
/// or only shown locally. The transport behind each mode lives with the
/// caller.
#[derive(Clone, Copy, Debug, PartialEq, Eq, Structural)]
pub enum Mode {
    Real,
    Debug,
}

/// Timestamps are kept well inside the 64-bit range so that differences
/// never overflow.
pub open spec fn ts_ok(ms: i64) -> bool {
    -0x2000_0000_0000_0000 < ms < 0x2000_0000_0000_0000
}

/// The debouncer's state: what was last emitted and when, in milliseconds
/// of the caller's clock.
pub struct Emit {
    pub last_emitted_screen: Option<Screen>,
    pub last_emitted_at: i64,
}

/// A send is skipped exactly when the send floor has not passed and the
/// screen equals the last one sent; a first send is never skipped.
pub open spec fn skip_emit_spec(state: Emit, screen: Screen, now_ms: i64) -> bool {
    !(now_ms - state.last_emitted_at > 500) && match state.last_emitted_screen {
        None => false,
        Some(old) => screen_eq_spec(old, screen),
    }
}

impl Emit {
    /// The state's timestamp stays in the overflow-free range.
    pub open spec fn wf(self) -> bool {
        ts_ok(self.last_emitted_at)
    }

    /// A fresh debouncer: nothing sent yet, and the send floor already
    /// expired so that the first screen always goes out.
    pub fn new(now_ms: i64) -> (r: Emit)
        requires
            0 <= now_ms,
            ts_ok(now_ms),
        ensures
            r.wf(),
            r.last_emitted_screen is None,
            r.last_emitted_at == now_ms - 501,
    {
        Emit { last_emitted_screen: None, last_emitted_at: now_ms - 501 }
    }

    /// More than the half-second send floor has passed since the last
    /// send.
    pub fn exceeded_timestamp(&self, now_ms: i64) -> (r: bool)
        requires
            self.wf(),
            ts_ok(now_ms),
        ensures
            r == (now_ms - self.last_emitted_at > 500),
    {
        now_ms - self.last_emitted_at > 500
    }

    /// The screen differs from the last one sent; a screen is always
    /// different from nothing.
    pub fn screen_is_different_from_last_sent(&self, screen: &Screen) -> (r: bool)
        ensures
            r == match self.last_emitted_screen {
                None => true,
                Some(old) => !screen_eq_spec(old, *screen),
            },
    {
        match &self.last_emitted_screen {
            None => true,
            Some(old) => !old.same_as(screen),
        }
    }

    /// Decides whether this send can be skipped: only when the send floor
    /// has not passed and the screen equals the last one sent.
    pub fn skip_emit(&self, screen: &Screen, now_ms: i64) -> (r: bool)
        requires
            self.wf(),
            ts_ok(now_ms),
        ensures
            r == skip_emit_spec(*self, *screen, now_ms),
    {
        if self.exceeded_timestamp(now_ms) {
            return false;
        }
        if self.screen_is_different_from_last_sent(screen) {
            return false;
        }
        true
    }

    /// Decides one emission: returns whether the screen must be sent, and
    /// when it must, records it as the last screen sent at `now_ms`; a
    /// skipped screen leaves the state unchanged.
    pub fn emit(&mut self, screen: Screen, now_ms: i64) -> (sent: bool)
        requires
            old(self).wf(),
            ts_ok(now_ms),
        ensures
            final(self).wf(),
            sent == !skip_emit_spec(*old(self), screen, now_ms),
            sent ==> final(self).last_emitted_screen == Some(screen),
            sent ==> final(self).last_emitted_at == now_ms,
            !sent ==> *final(self) == *old(self),
    {
        if self.skip_emit(&screen, now_ms) {
            return false;
        }
        self.last_emitted_screen = Some(screen);
        self.last_emitted_at = now_ms;
        true
    }
}

} // verus!
