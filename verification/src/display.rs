//! Display power controller: wakes the backlight on activity, puts it to
//! sleep after a period of inactivity.
//!
//! Display state is never cached.  Every decision takes the backlight
//! file's content as read back immediately before the call, so the
//! controller cannot disagree with hardware state changed by anyone
//! else, and a state-change notification is emitted only on an actual
//! transition.  In the backlight file `"0"` means powered on and `"1"`
//! powered off.

use vstd::prelude::*;

use crate::protocol::{MessageModel, Payload, PayloadModel, WebSocketMessage, OP_CONTROL};
use crate::strutil::contains_char;

verus! {

/// Inactivity threshold after which the backlight is switched off.
pub const INACTIVITY_MS: u64 = 300000;

/// The backlight file reads as powered off when it contains the
/// off-digit.
pub fn backlight_reads_off(content: &str) -> (r: bool)
    ensures
        r == content@.contains('1'),
{
    contains_char(content, '1')
}

/// The backlight file reads as powered on when it contains the on-digit.
pub fn backlight_reads_on(content: &str) -> (r: bool)
    ensures
        r == content@.contains('0'),
{
    contains_char(content, '0')
}

/// The value to write into the backlight file for the requested power
/// state.
pub fn backlight_file_value(on: bool) -> (v: &'static str)
    ensures
        on ==> v@ == "0"@,
        !on ==> v@ == "1"@,
{
    if on {
        "0"
    } else {
        "1"
    }
}

/// The display power report sent to clients.
pub fn display_status_message(on: bool) -> (m: WebSocketMessage)
    ensures
        m@ == (MessageModel {
            t: Some("DISPLAY_STATUS"@),
            op: OP_CONTROL,
            d: Some(PayloadModel::Status(if on { "on"@ } else { "off"@ })),
        }),
{
    let status: &str = if on { "on" } else { "off" };
    WebSocketMessage::notification("DISPLAY_STATUS", OP_CONTROL, Payload::Status(String::from_str(status)))
}

/// An activity event wakes the display exactly when the backlight
/// currently reads off.
pub open spec fn spec_wake_needed(reads_off: bool) -> bool {
    reads_off
}

/// A timer tick sleeps the display exactly when the backlight currently
/// reads on and the inactivity threshold has elapsed.
pub open spec fn spec_sleep_needed(last_activity: u64, now: u64, reads_on: bool) -> bool {
    reads_on && now - last_activity >= INACTIVITY_MS
}

/// Decide what an activity event does to the display.  `reads_off` is
/// the backlight state read back just before the event was handled.
/// A `Some` result instructs the caller to write the backlight on and
/// broadcast the message; `None` leaves the display alone, so a display
/// that is already on never produces a repeated "on" notification.
pub fn wake_on_activity(reads_off: bool) -> (r: Option<WebSocketMessage>)
    ensures
        (r is Some) == spec_wake_needed(reads_off),
        r matches Some(m) ==> m@ == (MessageModel {
            t: Some("DISPLAY_STATUS"@),
            op: OP_CONTROL,
            d: Some(PayloadModel::Status("on"@)),
        }),
{
    if reads_off {
        Some(display_status_message(true))
    } else {
        None
    }
}

/// Decide what a periodic timer tick does to the display.  `reads_on` is
/// the backlight state read back just before the tick was handled.  A
/// `Some` result instructs the caller to write the backlight off and
/// broadcast the message; after that write the backlight no longer reads
/// on, so subsequent ticks yield nothing until new activity.
pub fn sleep_on_tick(last_activity: u64, now: u64, reads_on: bool) -> (r: Option<
    WebSocketMessage,
>)
    requires
        now >= last_activity,
    ensures
        (r is Some) == spec_sleep_needed(last_activity, now, reads_on),
        r matches Some(m) ==> m@ == (MessageModel {
            t: Some("DISPLAY_STATUS"@),
            op: OP_CONTROL,
            d: Some(PayloadModel::Status("off"@)),
        }),
{
    if reads_on && now - last_activity >= INACTIVITY_MS {
        Some(display_status_message(false))
    } else {
        None
    }
}

/// Once the backlight has been written off, a tick emits nothing,
/// however much time has passed: the sleep transition fires at most once
/// per activity period.
pub proof fn lemma_no_repeated_sleep(last_activity: u64, now: u64)
    ensures
        !spec_sleep_needed(last_activity, now, false),
{
}

/// An activity event while the display is already on emits nothing: the
/// wake transition fires only on an actual off-to-on change.
pub proof fn lemma_no_repeated_wake()
    ensures
        !spec_wake_needed(false),
{
}

} // verus!
