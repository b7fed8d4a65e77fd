use kiosk_hub::display::{
    backlight_file_value, backlight_reads_off, backlight_reads_on, display_status_message,
    sleep_on_tick, wake_on_activity, INACTIVITY_MS,
};
use kiosk_hub::protocol::Payload;

#[test]
fn backlight_file_values() {
    assert_eq!(backlight_file_value(true), "0");
    assert_eq!(backlight_file_value(false), "1");
    assert!(backlight_reads_off("1"));
    assert!(!backlight_reads_off("0"));
    assert!(backlight_reads_on("0"));
    assert!(!backlight_reads_on("1"));
}

#[test]
fn status_message_shapes() {
    let on = display_status_message(true);
    assert_eq!(on.t.as_deref(), Some("DISPLAY_STATUS"));
    assert_eq!(on.op, 0);
    assert_eq!(on.d, Some(Payload::Status("on".to_string())));
    let off = display_status_message(false);
    assert_eq!(off.d, Some(Payload::Status("off".to_string())));
}

#[test]
fn touch_while_off_wakes_exactly_once() {
    // A touch at t = 0 while the backlight reads off yields exactly one
    // "on" event; once the backlight reads on, further touches yield none.
    let woke = wake_on_activity(true);
    let msg = woke.expect("touch while off must wake");
    assert_eq!(msg.d, Some(Payload::Status("on".to_string())));
    assert!(wake_on_activity(false).is_none());
}

#[test]
fn timer_sleeps_once_after_inactivity() {
    // With no further activity after t = 0, ticks before the threshold do
    // nothing; the first tick at or past t = 300 s with the backlight on
    // yields exactly one "off" event; after the write the backlight no
    // longer reads on, so subsequent ticks yield none.
    assert!(sleep_on_tick(0, INACTIVITY_MS - 1, true).is_none());
    let slept = sleep_on_tick(0, INACTIVITY_MS, true);
    let msg = slept.expect("tick past threshold must sleep");
    assert_eq!(msg.t.as_deref(), Some("DISPLAY_STATUS"));
    assert_eq!(msg.d, Some(Payload::Status("off".to_string())));
    assert!(sleep_on_tick(0, INACTIVITY_MS + 10_000, false).is_none());
}

#[test]
fn timer_never_sleeps_while_active() {
    assert!(sleep_on_tick(100_000, 100_000 + INACTIVITY_MS - 1, true).is_none());
}
