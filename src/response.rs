//! The decoded sync response and the presence count taken from it.
use vstd::prelude::*;

verus! {

/// A presence notification; only its existence matters here.
pub struct PresenceEvent {
    pub sender: String,
}

/// The presence section of a sync response.
pub struct PresenceBlock {
    pub events: Vec<PresenceEvent>,
}

/// A decoded sync response: the cursor to resume from and the presence
/// events delivered since the previous one.
pub struct SyncResponse {
    pub next_batch: String,
    pub presence: PresenceBlock,
}

impl SyncResponse {
    /// The number of presence events in this response.
    pub open spec fn event_count(&self) -> nat {
        self.presence.events@.len()
    }
}

/// The number of presence events in `response` and the cursor it hands
/// out for the next call.
pub fn extract(response: &SyncResponse) -> (r: (usize, String))
    ensures
        r.0 as nat == response.event_count(),
        r.1@ == response.next_batch@,
{
    (response.presence.events.len(), response.next_batch.clone())
}

} // verus!
