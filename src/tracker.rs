//! The frequency tracker: the time between successive bursts of presence
//! events, reported on the console and optionally recorded.
use vstd::prelude::*;
use crate::response::SyncResponse;
use crate::text::{decimal, signed_decimal, pad_left, push_decimal, push_signed, push_signed_padded};

verus! {

/// Width of the elapsed-time field on the console.
pub const ELAPSED_WIDTH: u8 = 6;

/// Relies on chrono's `From<SystemTime> for DateTime<Utc>` and
/// `DateTime::timestamp_millis`: the wall-clock time, in milliseconds since
/// the Unix epoch, negative for a clock that reads before it. The conversion
/// fails only outside chrono's range of about 262,000 years either side of
/// the epoch.
#[verifier::external_body]
fn clock_millis() -> (r: i64) {
    chrono::DateTime::<chrono::Utc>::from(std::time::SystemTime::now()).timestamp_millis()
}

/// What one observation puts out: a console line, and the line to append to
/// the output file when one is configured and an elapsed time is known.
pub struct Emission {
    pub console: String,
    pub record: Option<String>,
}

/// The console line for a burst that has no predecessor.
pub open spec fn first_line(count: nat) -> Seq<char> {
    "Got presence "@ + decimal(count) + " event(s)"@
}

/// The console line for a burst `elapsed` milliseconds after the previous.
pub open spec fn interval_line(count: nat, elapsed: int) -> Seq<char> {
    first_line(count) + ": "@ + pad_left(signed_decimal(elapsed), ELAPSED_WIDTH as nat)
        + "ms since last presence"@
}

/// The persisted line: `<epoch millis> <elapsed ms> <count>` and a newline.
pub open spec fn record_text(at: int, elapsed: int, count: nat) -> Seq<char> {
    signed_decimal(at) + seq![' '] + signed_decimal(elapsed) + seq![' '] + decimal(count) + seq![
        '\n',
    ]
}

/// What an observation of `count` events at `now` puts out, given the time
/// of the previous burst and whether a file is configured.
pub open spec fn emission_spec(persist: bool, last: Option<i64>, count: nat, now: i64) -> Option<
    (Seq<char>, Option<Seq<char>>),
> {
    if count == 0 {
        None
    } else {
        match last {
            None => Some((first_line(count), None)),
            Some(t) => Some(
                (
                    interval_line(count, now - t),
                    if persist {
                        Some(record_text(now as int, now - t, count))
                    } else {
                        None
                    },
                ),
            ),
        }
    }
}

/// The time of the last burst after an observation of `count` events at `now`.
pub open spec fn next_last(last: Option<i64>, count: nat, now: i64) -> Option<i64> {
    if count == 0 {
        last
    } else {
        Some(now)
    }
}

/// The text of an emission.
pub open spec fn emission_view(e: Option<Emission>) -> Option<(Seq<char>, Option<Seq<char>>)> {
    match e {
        None => None,
        Some(e) => Some(
            (
                e.console@,
                match e.record {
                    None => None,
                    Some(r) => Some(r@),
                },
            ),
        ),
    }
}

/// Appends the persisted line for a burst of `count` events at `at`,
/// `elapsed` milliseconds after the previous one.
pub fn record_line(at: i64, elapsed: i128, count: usize) -> (r: String)
    ensures
        r@ == record_text(at as int, elapsed as int, count as nat),
{
    let mut out = String::new();
    push_signed(&mut out, at as i128);
    out.push(' ');
    push_signed(&mut out, elapsed);
    out.push(' ');
    push_decimal(&mut out, count as u128);
    out.push('\n');
    assert(out@ =~= record_text(at as int, elapsed as int, count as nat));
    out
}

fn first_console_line(count: usize) -> (r: String)
    ensures
        r@ == first_line(count as nat),
{
    let mut out = String::new();
    out.push_str("Got presence ");
    push_decimal(&mut out, count as u128);
    out.push_str(" event(s)");
    assert(out@ =~= first_line(count as nat));
    out
}

fn interval_console_line(count: usize, elapsed: i128) -> (r: String)
    ensures
        r@ == interval_line(count as nat, elapsed as int),
{
    let mut out = first_console_line(count);
    out.push_str(": ");
    push_signed_padded(&mut out, elapsed, ELAPSED_WIDTH);
    out.push_str("ms since last presence");
    assert(out@ =~= interval_line(count as nat, elapsed as int));
    out
}

/// Tracks the time of the last burst of presence events.
pub struct PresenceFreq {
    /// Epoch milliseconds of the last observation with events, if any.
    pub last_presence: Option<i64>,
    /// Whether an output file is configured for the records.
    pub persist: bool,
}

impl PresenceFreq {
    /// A tracker with no observation yet; `has_file` says whether records
    /// are to be persisted.
    pub fn with_file(has_file: bool) -> (r: PresenceFreq)
        ensures
            r.last_presence is None,
            r.persist == has_file,
    {
        PresenceFreq { last_presence: None, persist: has_file }
    }

    /// The time of the last observation with events, if any.
    pub fn last_presence(&self) -> (r: Option<i64>)
        ensures
            r == self.last_presence,
    {
        self.last_presence
    }

    /// Feeds an observation of `count` events at `now` (epoch milliseconds).
    /// A zero count changes nothing and emits nothing; otherwise the console
    /// line reports the count, and, after a previous burst, the elapsed
    /// milliseconds, which are also recorded when a file is configured.
    pub fn update(&mut self, count: usize, now: i64) -> (r: Option<Emission>)
        ensures
            final(self).persist == old(self).persist,
            final(self).last_presence == next_last(old(self).last_presence, count as nat, now),
            emission_view(r) == emission_spec(
                old(self).persist,
                old(self).last_presence,
                count as nat,
                now,
            ),
    {
        if count == 0 {
            return None;
        }
        let emission = match self.last_presence {
            None => Emission { console: first_console_line(count), record: None },
            Some(last) => {
                let elapsed: i128 = now as i128 - last as i128;
                let record = if self.persist {
                    Some(record_line(now, elapsed, count))
                } else {
                    None
                };
                Emission { console: interval_console_line(count, elapsed), record }
            },
        };
        self.last_presence = Some(now);
        Some(emission)
    }

    /// Feeds the presence events of `response`, observed now. The clock is
    /// read only when there are events.
    pub fn handle_response(&mut self, response: &SyncResponse) -> (r: Option<Emission>)
        ensures
            final(self).persist == old(self).persist,
            response.event_count() == 0 ==> r is None && *final(self) == *old(self),
            response.event_count() > 0 ==> {
                &&& final(self).last_presence is Some
                &&& emission_view(r) == emission_spec(
                    old(self).persist,
                    old(self).last_presence,
                    response.event_count(),
                    final(self).last_presence->0,
                )
            },
    {
        if response.presence.events.len() == 0 {
            return None;
        }
        let now = clock_millis();
        self.update(response.presence.events.len(), now)
    }
}

/// A first burst reports its count alone, records nothing, and becomes the
/// time of the last burst.
pub proof fn lemma_first_observation(persist: bool, count: nat, now: i64)
    requires
        count > 0,
    ensures
        emission_spec(persist, None, count, now) == Some((first_line(count), None::<Seq<char>>)),
        next_last(None, count, now) == Some(now),
{
}

/// After a burst at `t1`, a burst of `count2` events at `t2` reports
/// `count2` and `t2 - t1` milliseconds, and records them when a file is
/// configured.
pub proof fn lemma_elapsed_between_bursts(persist: bool, count1: nat, t1: i64, count2: nat, t2: i64)
    requires
        count1 > 0,
        count2 > 0,
    ensures
        emission_spec(persist, next_last(None, count1, t1), count2, t2) == Some(
            (
                interval_line(count2, t2 - t1),
                if persist {
                    Some(record_text(t2 as int, t2 - t1, count2))
                } else {
                    None
                },
            ),
        ),
        next_last(next_last(None, count1, t1), count2, t2) == Some(t2),
{
}

/// An observation of no events changes nothing and emits nothing, whatever
/// the state.
pub proof fn lemma_zero_count_no_op(persist: bool, last: Option<i64>, now: i64)
    ensures
        emission_spec(persist, last, 0, now) is None,
        next_last(last, 0, now) == last,
{
}

/// A persisted line is the three fields separated by single spaces and
/// ended by a newline, and it depends on them alone.
pub proof fn lemma_record_format(at: int, elapsed: int, count: nat)
    ensures
        record_text(at, elapsed, count) == signed_decimal(at) + seq![' '] + signed_decimal(elapsed)
            + seq![' '] + decimal(count) + seq!['\n'],
        record_text(at, elapsed, count).last() == '\n',
{
}

} // verus!
