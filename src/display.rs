//! What the capture button shows: a short "Done" acknowledgment after a capture
//! completes, then the label of the capture stage.
//!
//! Times are milliseconds on a monotonic clock read by the caller.
use vstd::prelude::*;

use crate::capture::CaptureState;

verus! {

/// How long the "Done" acknowledgment stays up, in milliseconds.
pub const DONE_HOLD_MS: u64 = 1000;

/// Starts the "Done" acknowledgment at time `now_ms`.
pub fn initialize_done_timer(timer: &mut Option<u64>, now_ms: u64)
    ensures
        *final(timer) == Some(now_ms),
{
    *timer = Some(now_ms);
}

/// Time passed from `start` to `now_ms`; none if the clock reads earlier than `start`.
pub open spec fn elapsed_since(start: u64, now_ms: u64) -> int {
    if now_ms < start {
        0
    } else {
        now_ms - start
    }
}

/// Whether the "Done" acknowledgment started at `start` is still up at `now_ms`.
pub open spec fn done_still_shown(start: u64, now_ms: u64, hold_ms: u64) -> bool {
    elapsed_since(start, now_ms) < hold_ms
}

/// Reports whether "Done" is to be shown at time `now_ms`: a timer is running and less
/// than `hold_ms` has passed since it started. A timer that has run out is cleared.
pub fn should_show_done(timer: &mut Option<u64>, now_ms: u64, hold_ms: u64) -> (r: bool)
    ensures
        match *old(timer) {
            Some(start) => {
                &&& r == done_still_shown(start, now_ms, hold_ms)
                &&& *final(timer) == (if r {
                    Some(start)
                } else {
                    None::<u64>
                })
            },
            None => !r && *final(timer) is None,
        },
{
    match *timer {
        Some(start) => {
            let elapsed: u64 = if now_ms < start {
                0
            } else {
                now_ms - start
            };
            if elapsed < hold_ms {
                true
            } else {
                *timer = None;
                false
            }
        },
        None => false,
    }
}

/// The text of the capture button.
pub fn capture_button_label(state: CaptureState, show_done: bool) -> (r: &'static str)
    ensures
        show_done ==> r@ == "Done"@,
        !show_done && state == CaptureState::Capturing ==> r@ == "Capturing"@,
        !show_done && state != CaptureState::Capturing ==> r@ == "Off"@,
{
    if show_done {
        "Done"
    } else {
        match state {
            CaptureState::Capturing => "Capturing",
            _ => "Off",
        }
    }
}

} // verus!
