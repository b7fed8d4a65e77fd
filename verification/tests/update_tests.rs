use kiosk_hub::protocol::Payload;
use kiosk_hub::update::{
    listing_finished_message, listing_notifications, listing_started_message, update_line_kept,
    update_result_message, update_started_message,
};

fn text(m: &kiosk_hub::protocol::WebSocketMessage) -> String {
    match &m.d {
        Some(Payload::Message(s)) => s.clone(),
        other => panic!("unexpected payload: {:?}", other),
    }
}

#[test]
fn header_and_blank_lines_are_dropped() {
    assert!(!update_line_kept("Listing... Done"));
    assert!(!update_line_kept(""));
    assert!(update_line_kept("curl/8.5.0 amd64 [upgradable from: 8.4.0]"));
}

#[test]
fn listing_is_bracketed_and_streams_kept_lines() {
    let lines = vec![
        "Listing... Done".to_string(),
        "curl/8.5.0 amd64 [upgradable from: 8.4.0]".to_string(),
        "".to_string(),
        "vim/9.1 amd64 [upgradable from: 9.0]".to_string(),
    ];
    let msgs = listing_notifications(&lines);
    assert_eq!(msgs.len(), 4);
    assert_eq!(msgs[0].t.as_deref(), Some("START_LISTING_UPDATE"));
    assert_eq!(msgs[1].t.as_deref(), Some("UPDATE_AVAILABLE"));
    assert_eq!(text(&msgs[1]), "curl/8.5.0 amd64 [upgradable from: 8.4.0]");
    assert_eq!(msgs[2].t.as_deref(), Some("UPDATE_AVAILABLE"));
    assert_eq!(text(&msgs[2]), "vim/9.1 amd64 [upgradable from: 9.0]");
    assert_eq!(msgs[3].t.as_deref(), Some("FINISHED_LISTING_UPDATE"));
    for m in &msgs {
        assert_eq!(m.op, 4);
    }
}

#[test]
fn empty_listing_still_has_both_brackets() {
    let msgs = listing_notifications(&vec![]);
    assert_eq!(msgs.len(), 2);
    assert_eq!(msgs[0].t.as_deref(), Some("START_LISTING_UPDATE"));
    assert_eq!(msgs[1].t.as_deref(), Some("FINISHED_LISTING_UPDATE"));
}

#[test]
fn bracket_texts() {
    assert_eq!(text(&listing_started_message()), "Start listing updates");
    assert_eq!(text(&listing_finished_message()), "Finished listing updates");
    assert_eq!(text(&update_started_message()), "Starting system update process");
}

#[test]
fn apply_phase_ends_in_exactly_one_terminal_message() {
    let ok = update_result_message(true);
    assert_eq!(ok.t.as_deref(), Some("UPDATE_SUCCESS"));
    assert_eq!(text(&ok), "System update completed successfully");
    let bad = update_result_message(false);
    assert_eq!(bad.t.as_deref(), Some("UPDATE_FAILURE"));
    assert_eq!(text(&bad), "System update failed");
}
