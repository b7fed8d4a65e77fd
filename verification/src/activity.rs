//! Shared device-activity state: the last-activity timestamp refreshed by
//! every touch or RFID event, and the RFID debounce cache that suppresses
//! duplicate reports of the same tag.
//!
//! Timestamps are milliseconds on a monotone clock; callers hand the
//! current reading in, so every decision here is a pure function of the
//! state and the clock value.

use vstd::prelude::*;

verus! {

/// Minimum interval between two reports of the same RFID UID.
pub const RFID_DEBOUNCE_MS: u64 = 5000;

/// Mutex-guarded (by the caller) activity and debounce state.  Created once
/// at process start; every hardware producer refreshes `last_activity`,
/// and the RFID poller consults `last_rfid_uid` / `last_rfid_sent` before
/// reporting a read.
#[derive(Debug, Clone, PartialEq, Eq)]
pub struct DeviceActivityState {
    /// When the device last saw any activity (touch or RFID read).
    pub last_activity: u64,
    /// The UID most recently reported, if any.
    pub last_rfid_uid: Option<Vec<u8>>,
    /// When `last_rfid_uid` was last reported.
    pub last_rfid_sent: u64,
}

impl DeviceActivityState {
    /// The clock never runs behind the recorded report time.
    pub open spec fn clock_valid(self, now: u64) -> bool {
        now >= self.last_rfid_sent
    }

    /// A read of `uid` at `now` must be reported exactly when the UID
    /// differs from the last reported one or the debounce interval has
    /// elapsed since that report.
    pub open spec fn spec_should_report(self, uid: Seq<u8>, now: u64) -> bool {
        match self.last_rfid_uid {
            Option::None => true,
            Option::Some(last) => last@ != uid || now - self.last_rfid_sent >= RFID_DEBOUNCE_MS,
        }
    }

    pub fn new(now: u64) -> (s: Self)
        ensures
            s.last_activity == now,
            s.last_rfid_uid is None,
            s.last_rfid_sent == now,
    {
        DeviceActivityState { last_activity: now, last_rfid_uid: None, last_rfid_sent: now }
    }

    /// Any activity event unconditionally refreshes the last-activity
    /// timestamp and touches nothing else.
    pub fn note_activity(&mut self, now: u64)
        ensures
            final(self).last_activity == now,
            final(self).last_rfid_uid == old(self).last_rfid_uid,
            final(self).last_rfid_sent == old(self).last_rfid_sent,
    {
        self.last_activity = now;
    }

    /// Record a successful RFID read at `now` and decide whether to report
    /// it.  Every read counts as activity; a read is reported exactly when
    /// `spec_should_report` holds, and only a reported read moves the
    /// debounce cache forward.
    pub fn rfid_read(&mut self, uid: &Vec<u8>, now: u64) -> (report: bool)
        requires
            old(self).clock_valid(now),
        ensures
            report == old(self).spec_should_report(uid@, now),
            final(self).last_activity == now,
            report ==> (final(self).last_rfid_uid matches Some(u) && u@ == uid@),
            report ==> final(self).last_rfid_sent == now,
            !report ==> final(self).last_rfid_uid == old(self).last_rfid_uid,
            !report ==> final(self).last_rfid_sent == old(self).last_rfid_sent,
    {
        self.last_activity = now;
        let report = match &self.last_rfid_uid {
            None => true,
            Some(last) => {
                let same = last == uid;
                proof {
                    let l = old(self).last_rfid_uid->0;
                    assert(l@ =~= uid@ <==> l@ == uid@);
                }
                !same || now - self.last_rfid_sent >= RFID_DEBOUNCE_MS
            },
        };
        if report {
            self.last_rfid_uid = Some(uid.clone());
            self.last_rfid_sent = now;
            proof {
                assert(final(self).last_rfid_uid->0@ =~= uid@);
            }
        }
        report
    }
}

/// The notification reporting one RFID read that passed the debounce.
pub fn rfid_detect_message(uid: Vec<u8>) -> (m: crate::protocol::WebSocketMessage)
    ensures
        m@ == (crate::protocol::MessageModel {
            t: Some("RFID_DETECT"@),
            op: crate::protocol::OP_POINT,
            d: Some(crate::protocol::PayloadModel::Uid(uid@)),
        }),
{
    crate::protocol::WebSocketMessage::notification(
        "RFID_DETECT",
        crate::protocol::OP_POINT,
        crate::protocol::Payload::Uid(uid),
    )
}

/// Debounce suppression: once a UID has been reported, a second read of the
/// same UID strictly inside the debounce window is never reported.
pub proof fn lemma_rfid_debounce_suppresses(s: DeviceActivityState, uid: Seq<u8>, now: u64)
    requires
        s.last_rfid_uid matches Some(u) && u@ == uid,
        now >= s.last_rfid_sent,
        now - s.last_rfid_sent < RFID_DEBOUNCE_MS,
    ensures
        !s.spec_should_report(uid, now),
{
}

/// Debounce expiry: once the debounce interval has elapsed, a read of the
/// same UID is reported again.
pub proof fn lemma_rfid_debounce_expires(s: DeviceActivityState, uid: Seq<u8>, now: u64)
    requires
        now >= s.last_rfid_sent,
        now - s.last_rfid_sent >= RFID_DEBOUNCE_MS,
    ensures
        s.spec_should_report(uid, now),
{
}

} // verus!
