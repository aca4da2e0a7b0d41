//! The sync loop's decisions: which URL to poll next, and what a response
//! does to the cursor and the tracker. The caller performs the requests.
use vstd::prelude::*;
use crate::response::SyncResponse;
use crate::text::{decimal, push_decimal};
use crate::tracker::{Emission, PresenceFreq, emission_view, emission_spec, next_last};

verus! {

/// The long-poll timeout asked of the server, in milliseconds.
pub const LONG_POLL_TIMEOUT_MS: u64 = 30000;

/// Where to sync and with which credential.
pub struct Config {
    pub server_url: String,
    pub access_token: String,
}

/// The sync URL for `base` and `token`, resuming from `cursor` when there
/// is one.
pub open spec fn sync_url(base: Seq<char>, token: Seq<char>, cursor: Option<Seq<char>>) -> Seq<
    char,
> {
    base + "/_matrix/client/r0/sync?access_token="@ + token + match cursor {
        None => Seq::empty(),
        Some(c) => "&since="@ + c,
    } + "&timeout="@ + decimal(LONG_POLL_TIMEOUT_MS as nat)
}

/// The cursor held after a response carrying `next_batch`.
pub open spec fn next_cursor(cursor: Option<Seq<char>>, next_batch: Seq<char>) -> Option<
    Seq<char>,
> {
    Some(next_batch)
}

/// The cursor held after responses carrying `batches`, in order, starting
/// from none.
pub open spec fn cursor_after(batches: Seq<Seq<char>>) -> Option<Seq<char>>
    decreases batches.len(),
{
    if batches.len() == 0 {
        None
    } else {
        next_cursor(cursor_after(batches.drop_last()), batches.last())
    }
}

/// The view of an optional cursor.
pub open spec fn cursor_view(cursor: Option<String>) -> Option<Seq<char>> {
    match cursor {
        None => None,
        Some(c) => Some(c@),
    }
}

/// Builds the sync URL for `base_url` and `access_token`, resuming from
/// `cursor` when there is one.
pub fn build_sync_url(base_url: &String, access_token: &String, cursor: &Option<String>) -> (r:
    String)
    ensures
        r@ == sync_url(base_url@, access_token@, cursor_view(*cursor)),
{
    let mut url = base_url.clone();
    url.push_str("/_matrix/client/r0/sync?access_token=");
    url.push_str(access_token.as_str());
    match cursor {
        None => {},
        Some(c) => {
            url.push_str("&since=");
            url.push_str(c.as_str());
        },
    }
    url.push_str("&timeout=");
    push_decimal(&mut url, LONG_POLL_TIMEOUT_MS as u128);
    assert(url@ =~= sync_url(base_url@, access_token@, cursor_view(*cursor)));
    url
}

/// The loop's state: the configuration, the cursor once the first response
/// has come, and the tracker. Without a cursor the loop is bootstrapping;
/// with one it is polling.
pub struct SyncLoop {
    pub config: Config,
    pub cursor: Option<String>,
    pub tracker: PresenceFreq,
}

impl SyncLoop {
    /// A loop about to make its first call; `has_file` says whether records
    /// are persisted.
    pub fn new(config: Config, has_file: bool) -> (r: SyncLoop)
        ensures
            r.config == config,
            r.cursor is None,
            r.tracker.last_presence is None,
            r.tracker.persist == has_file,
    {
        SyncLoop { config, cursor: None, tracker: PresenceFreq::with_file(has_file) }
    }

    /// Whether the first response has come.
    pub fn is_polling(&self) -> (r: bool)
        ensures
            r == self.cursor is Some,
    {
        self.cursor.is_some()
    }

    /// The URL of the next call: resuming from the cursor when there is one.
    pub fn request_url(&self) -> (r: String)
        ensures
            r@ == sync_url(
                self.config.server_url@,
                self.config.access_token@,
                cursor_view(self.cursor),
            ),
    {
        build_sync_url(&self.config.server_url, &self.config.access_token, &self.cursor)
    }

    /// Takes a response observed at `now` (epoch milliseconds). The first
    /// response only yields the cursor; later ones also feed their presence
    /// count to the tracker.
    pub fn on_response_at(&mut self, response: &SyncResponse, now: i64) -> (r: Option<Emission>)
        ensures
            final(self).config == old(self).config,
            cursor_view(final(self).cursor) == next_cursor(
                cursor_view(old(self).cursor),
                response.next_batch@,
            ),
            old(self).cursor is None ==> r is None && final(self).tracker == old(self).tracker,
            old(self).cursor is Some ==> {
                &&& final(self).tracker.persist == old(self).tracker.persist
                &&& final(self).tracker.last_presence == next_last(
                    old(self).tracker.last_presence,
                    response.event_count(),
                    now,
                )
                &&& emission_view(r) == emission_spec(
                    old(self).tracker.persist,
                    old(self).tracker.last_presence,
                    response.event_count(),
                    now,
                )
            },
    {
        let polling = self.cursor.is_some();
        let r = if polling {
            self.tracker.update(response.presence.events.len(), now)
        } else {
            None
        };
        self.cursor = Some(response.next_batch.clone());
        r
    }

    /// Takes a response observed now. The first response only yields the
    /// cursor; later ones also feed their presence events to the tracker,
    /// which reads the clock when there are any.
    pub fn on_response(&mut self, response: &SyncResponse) -> (r: Option<Emission>)
        ensures
            final(self).config == old(self).config,
            cursor_view(final(self).cursor) == next_cursor(
                cursor_view(old(self).cursor),
                response.next_batch@,
            ),
            old(self).cursor is None || response.event_count() == 0 ==> r is None
                && final(self).tracker == old(self).tracker,
            old(self).cursor is Some && response.event_count() > 0 ==> {
                &&& final(self).tracker.persist == old(self).tracker.persist
                &&& final(self).tracker.last_presence is Some
                &&& emission_view(r) == emission_spec(
                    old(self).tracker.persist,
                    old(self).tracker.last_presence,
                    response.event_count(),
                    final(self).tracker.last_presence->0,
                )
            },
    {
        let polling = self.cursor.is_some();
        let r = if polling {
            self.tracker.handle_response(response)
        } else {
            None
        };
        self.cursor = Some(response.next_batch.clone());
        r
    }
}

/// Cursor continuity: the first call carries no cursor, and the call made
/// after the responses carrying `batches` resumes from the last of them.
pub proof fn lemma_cursor_continuity(base: Seq<char>, token: Seq<char>, batches: Seq<Seq<char>>)
    ensures
        sync_url(base, token, cursor_after(Seq::empty())) == sync_url(base, token, None),
        forall|n: int|
            0 < n <= batches.len() ==> #[trigger] sync_url(base, token, cursor_after(batches.take(n)))
                == sync_url(base, token, Some(batches[n - 1])),
{
    assert forall|n: int| 0 < n <= batches.len() implies #[trigger] sync_url(
        base,
        token,
        cursor_after(batches.take(n)),
    ) == sync_url(base, token, Some(batches[n - 1])) by {
        assert(batches.take(n).last() == batches[n - 1]);
    }
}

} // verus!
