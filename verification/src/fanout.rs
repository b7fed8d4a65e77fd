//! The broadcast fan-out: one producer side shared by every event
//! source, one subscription per connected client.
//!
//! Delivery is lossy and at-most-once by design.  A subscription starts
//! at the current end of the stream, so messages published before it
//! existed are never delivered to it; and a subscriber that falls more
//! than `capacity` messages behind skips forward, silently dropping the
//! oldest unread messages rather than blocking producers.  This model
//! keeps the full publish history to speak about indices; a real channel
//! retains only the last `capacity` messages.

use vstd::prelude::*;

use crate::protocol::WebSocketMessage;

verus! {

/// The shared fan-out state: everything published so far, and the
/// buffer capacity granted to each subscriber.
pub struct BroadcastHub {
    pub history: Vec<WebSocketMessage>,
    pub capacity: usize,
}

/// One client's read position in the stream.
#[derive(Debug, Clone, Copy, PartialEq, Eq, Structural)]
pub struct Subscription {
    pub next: usize,
}

/// The index a subscriber at position `next` reads next: its own
/// position, unless it has lagged more than `capacity` behind the end of
/// the stream, in which case it skips to the oldest retained message.
pub open spec fn spec_read_index(len: int, capacity: int, next: int) -> int {
    if len - capacity > next {
        len - capacity
    } else {
        next
    }
}

impl BroadcastHub {
    pub fn new(capacity: usize) -> (hub: BroadcastHub)
        requires
            capacity >= 1,
        ensures
            hub.history@.len() == 0,
            hub.capacity == capacity,
    {
        BroadcastHub { history: Vec::new(), capacity }
    }

    /// Publish appends to the stream; it never blocks on slow
    /// subscribers and never touches their positions.
    pub fn publish(&mut self, m: WebSocketMessage)
        ensures
            final(self).history@ == old(self).history@.push(m),
            final(self).capacity == old(self).capacity,
    {
        self.history.push(m);
    }

    /// A new subscription starts at the current end of the stream: it
    /// will see only what is published after this call.
    pub fn subscribe(&self) -> (s: Subscription)
        ensures
            s.next == self.history@.len(),
    {
        Subscription { next: self.history.len() }
    }

    /// Take the subscriber's next message, if one is pending.  A lagged
    /// subscriber is first skipped forward to the oldest retained
    /// message; a caught-up subscriber gets `None` and keeps its
    /// position.
    pub fn recv<'a>(&'a self, s: &mut Subscription) -> (r: Option<&'a WebSocketMessage>)
        requires
            old(s).next <= self.history@.len(),
            self.capacity >= 1,
        ensures
            ({
                let start = spec_read_index(
                    self.history@.len() as int,
                    self.capacity as int,
                    old(s).next as int,
                );
                if start < self.history@.len() {
                    (r matches Some(m) && *m == self.history@[start])
                        && final(s).next == start + 1
                } else {
                    r is None && final(s).next == old(s).next
                }
            }),
            final(s).next >= old(s).next,
            final(s).next <= self.history@.len(),
    {
        let len = self.history.len();
        let start = if len - s.next > self.capacity {
            len - self.capacity
        } else {
            s.next
        };
        if start < len {
            s.next = start + 1;
            Some(&self.history[start])
        } else {
            None
        }
    }
}

/// Fan-out delivery: a message published right after a subscriber
/// reached position `n` is the very next message that subscriber reads.
pub proof fn lemma_published_after_subscribe_delivered(n: int, capacity: int)
    requires
        capacity >= 1,
        n >= 0,
    ensures
        spec_read_index(n + 1, capacity, n) == n,
{
}

/// No delivery from the past: whatever the stream length, a subscriber
/// never reads a message older than its subscription point, so messages
/// published before the subscription existed are never delivered to it.
pub proof fn lemma_never_delivered_before_subscribe(len: int, capacity: int, next: int)
    requires
        capacity >= 1,
    ensures
        spec_read_index(len, capacity, next) >= next,
{
}

} // verus!
