//! Update orchestrator: the notification stream for the two-phase
//! update flow.
//!
//! The listing phase is bracketed by explicit start and finish
//! notifications, with one notification per upgradable-package line as
//! the package tool produces it; the apply phase ends in exactly one
//! terminal success or failure notification decided by the process exit
//! status.  The subprocesses themselves run outside; only their lines
//! and exit status come in.

use vstd::prelude::*;

use crate::protocol::{
    messages_model, MessageModel, Payload, PayloadModel, WebSocketMessage, OP_UPDATE,
};
use crate::strutil::{spec_contains, str_contains};

verus! {

/// An update-progress notification carrying a text payload.
pub open spec fn spec_update_message(tag: Seq<char>, text: Seq<char>) -> MessageModel {
    MessageModel { t: Some(tag), op: OP_UPDATE, d: Some(PayloadModel::Message(text)) }
}

/// Which output lines of the listing command are reported: everything
/// except the tool's own header and blank lines.
pub open spec fn spec_line_kept(line: Seq<char>) -> bool {
    !spec_contains(line, "Listing..."@) && line.len() != 0
}

/// Decide whether one listing-output line is reported.
pub fn update_line_kept(line: &str) -> (r: bool)
    ensures
        r == spec_line_kept(line@),
{
    !str_contains(line, "Listing...") && line.unicode_len() != 0
}

/// The notification opening the listing phase.
pub fn listing_started_message() -> (m: WebSocketMessage)
    ensures
        m@ == spec_update_message("START_LISTING_UPDATE"@, "Start listing updates"@),
{
    WebSocketMessage::notification(
        "START_LISTING_UPDATE",
        OP_UPDATE,
        Payload::Message(String::from_str("Start listing updates")),
    )
}

/// The notification for one upgradable package, emitted as the line is
/// produced, not buffered to completion.
pub fn update_available_message(line: &str) -> (m: WebSocketMessage)
    ensures
        m@ == spec_update_message("UPDATE_AVAILABLE"@, line@),
{
    WebSocketMessage::notification(
        "UPDATE_AVAILABLE",
        OP_UPDATE,
        Payload::Message(String::from_str(line)),
    )
}

/// The notification closing the listing phase.
pub fn listing_finished_message() -> (m: WebSocketMessage)
    ensures
        m@ == spec_update_message("FINISHED_LISTING_UPDATE"@, "Finished listing updates"@),
{
    WebSocketMessage::notification(
        "FINISHED_LISTING_UPDATE",
        OP_UPDATE,
        Payload::Message(String::from_str("Finished listing updates")),
    )
}

/// The notification opening the apply phase.
pub fn update_started_message() -> (m: WebSocketMessage)
    ensures
        m@ == spec_update_message("START_UPDATE_PROCESS"@, "Starting system update process"@),
{
    WebSocketMessage::notification(
        "START_UPDATE_PROCESS",
        OP_UPDATE,
        Payload::Message(String::from_str("Starting system update process")),
    )
}

/// The single terminal notification of the apply phase, decided by
/// whether the upgrade process exited successfully.
pub fn update_result_message(success: bool) -> (m: WebSocketMessage)
    ensures
        success ==> m@ == spec_update_message(
            "UPDATE_SUCCESS"@,
            "System update completed successfully"@,
        ),
        !success ==> m@ == spec_update_message("UPDATE_FAILURE"@, "System update failed"@),
{
    if success {
        WebSocketMessage::notification(
            "UPDATE_SUCCESS",
            OP_UPDATE,
            Payload::Message(String::from_str("System update completed successfully")),
        )
    } else {
        WebSocketMessage::notification(
            "UPDATE_FAILURE",
            OP_UPDATE,
            Payload::Message(String::from_str("System update failed")),
        )
    }
}

/// The per-line notifications of the listing phase: one per kept line,
/// in output order.
pub open spec fn spec_kept_messages(lines: Seq<Seq<char>>) -> Seq<MessageModel>
    decreases lines.len(),
{
    if lines.len() == 0 {
        Seq::empty()
    } else {
        let rest = spec_kept_messages(lines.drop_first());
        if spec_line_kept(lines[0]) {
            seq![spec_update_message("UPDATE_AVAILABLE"@, lines[0])] + rest
        } else {
            rest
        }
    }
}

/// The whole listing phase over `lines`: the start bracket, one
/// notification per kept line, the finish bracket.
pub open spec fn spec_listing_messages(lines: Seq<Seq<char>>) -> Seq<MessageModel> {
    seq![spec_update_message("START_LISTING_UPDATE"@, "Start listing updates"@)]
        + spec_kept_messages(lines)
        + seq![spec_update_message("FINISHED_LISTING_UPDATE"@, "Finished listing updates"@)]
}

/// Element-wise view of a line list.
pub open spec fn lines_model(lines: Seq<String>) -> Seq<Seq<char>> {
    lines.map(|i: int, l: String| l@)
}

proof fn lemma_kept_messages_snoc(lines: Seq<Seq<char>>, x: Seq<char>)
    ensures
        spec_kept_messages(lines.push(x)) == spec_kept_messages(lines) + (if spec_line_kept(x) {
            seq![spec_update_message("UPDATE_AVAILABLE"@, x)]
        } else {
            Seq::<MessageModel>::empty()
        }),
    decreases lines.len(),
{
    let tail = if spec_line_kept(x) {
        seq![spec_update_message("UPDATE_AVAILABLE"@, x)]
    } else {
        Seq::<MessageModel>::empty()
    };
    if lines.len() == 0 {
        let single = lines.push(x);
        assert(single.drop_first() =~= Seq::<Seq<char>>::empty());
        assert(spec_kept_messages(Seq::<Seq<char>>::empty()) == Seq::<MessageModel>::empty());
        assert(single[0] == x);
        assert(spec_kept_messages(single) =~= tail);
        assert(lines =~= Seq::<Seq<char>>::empty());
        assert(spec_kept_messages(lines) + tail =~= tail);
    } else {
        assert(lines.push(x).drop_first() =~= lines.drop_first().push(x));
        lemma_kept_messages_snoc(lines.drop_first(), x);
        assert(spec_kept_messages(lines.push(x)) =~= spec_kept_messages(lines) + tail);
    }
}

/// Produce the listing phase for a fully collected output, bracketed by
/// the start and finish notifications, with exactly one notification
/// per kept line, in order.
pub fn listing_notifications(lines: &Vec<String>) -> (msgs: Vec<WebSocketMessage>)
    ensures
        messages_model(msgs@) == spec_listing_messages(lines_model(lines@)),
{
    let ghost all = lines_model(lines@);
    let mut msgs: Vec<WebSocketMessage> = Vec::new();
    msgs.push(listing_started_message());
    let ghost start_msg = spec_update_message("START_LISTING_UPDATE"@, "Start listing updates"@);
    proof {
        assert(all.take(0) =~= Seq::empty());
        assert(messages_model(msgs@) =~= seq![start_msg] + spec_kept_messages(all.take(0)));
    }
    let n = lines.len();
    let mut i: usize = 0;
    while i < n
        invariant
            n == lines.len(),
            0 <= i <= n,
            all == lines_model(lines@),
            start_msg == spec_update_message("START_LISTING_UPDATE"@, "Start listing updates"@),
            messages_model(msgs@) == seq![start_msg] + spec_kept_messages(all.take(i as int)),
        decreases n - i,
    {
        let ghost prev = msgs@;
        proof {
            assert(all[i as int] == lines@[i as int]@);
        }
        if update_line_kept(lines[i].as_str()) {
            let m = update_available_message(lines[i].as_str());
            msgs.push(m);
            proof {
                assert(messages_model(msgs@) =~= messages_model(prev).push(
                    spec_update_message("UPDATE_AVAILABLE"@, all[i as int]),
                ));
            }
        }
        proof {
            assert(all.take(i + 1) =~= all.take(i as int).push(all[i as int]));
            lemma_kept_messages_snoc(all.take(i as int), all[i as int]);
            if spec_line_kept(all[i as int]) {
                assert(spec_kept_messages(all.take(i + 1)) =~= spec_kept_messages(
                    all.take(i as int),
                ).push(spec_update_message("UPDATE_AVAILABLE"@, all[i as int])));
            } else {
                assert(spec_kept_messages(all.take(i + 1)) =~= spec_kept_messages(
                    all.take(i as int),
                ));
            }
            assert(messages_model(msgs@) =~= seq![start_msg] + spec_kept_messages(
                all.take(i + 1),
            ));
        }
        i += 1;
    }
    msgs.push(listing_finished_message());
    proof {
        assert(all.take(n as int) =~= all);
        assert(messages_model(msgs@) =~= spec_listing_messages(all));
    }
    msgs
}

} // verus!
