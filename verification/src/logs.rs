//! The log of the ledger program as the pipeline reads it: decoding a
//! record's bytes into a message, dating it, and keeping the records that are
//! newer than the checkpoint.
use vstd::prelude::*;
use vstd::utf8::{decode_utf8, valid_utf8};
use crate::hexcode::{hex_encode, hex_text};
use crate::text::{chars_of, contains_text, debug_form, debug_text, occurs, text_of_bytes};
use crate::types::{ProxyRequest, ProxyView, Request, RequestView};

verus! {

/// A price request found in the log, with its place and time there.
#[derive(Debug)]
pub struct EventLog {
    pub index: u64,
    pub timestamp: u64,
    pub logs: Request,
}

impl EventLog {
    pub fn new(index: u64, timestamp: u64, logs: Request) -> (r: EventLog)
        ensures
            r.index == index,
            r.timestamp == timestamp,
            r.logs == logs,
    {
        EventLog { index, timestamp, logs }
    }
}

/// A content request found in the log, with its place and time there.
#[derive(Debug)]
pub struct EventUrlLog {
    pub index: u64,
    pub timestamp: u64,
    pub logs: ProxyRequest,
}

impl EventUrlLog {
    pub fn new(index: u64, timestamp: u64, logs: ProxyRequest) -> (r: EventUrlLog)
        ensures
            r.index == index,
            r.timestamp == timestamp,
            r.logs == logs,
    {
        EventUrlLog { index, timestamp, logs }
    }
}

/// What stands in front of the hexadecimal form of a record that is not
/// plain text.
pub open spec fn bytes_prefix() -> Seq<char> {
    "(bytes) 0x"@
}

/// The text form of a record that is not plain text.
pub open spec fn bytes_text(bytes: Seq<u8>) -> Seq<char> {
    bytes_prefix() + hex_text(bytes)
}

/// The mark of an escaped character in `{:?}` output: a backslash, `u` and an
/// opening brace.
pub open spec fn escape_mark() -> Seq<char> {
    seq!['\\', 'u', '{']
}

/// The message of a record: its text where the bytes are UTF-8 and none of
/// the characters needs a `\u{..}` escape, else its bytes in hexadecimal.
pub open spec fn message_of(content: Seq<u8>) -> Seq<char> {
    if valid_utf8(content) && !occurs(debug_form(decode_utf8(content)), escape_mark()) {
        decode_utf8(content)
    } else {
        bytes_text(content)
    }
}

/// The bytes in hexadecimal behind the prefix `(bytes) 0x`.
pub fn format_bytes(bytes: &[u8]) -> (r: String)
    ensures
        r@ == bytes_text(bytes@),
{
    let prefix = "(bytes) 0x".to_owned();
    let hex = hex_encode(bytes);
    prefix.concat(hex.as_str())
}

/// The message that a log record's bytes carry.
pub fn decode_message(content: &Vec<u8>) -> (r: String)
    ensures
        r@ == message_of(content@),
{
    match text_of_bytes(content.clone()) {
        Some(s) => {
            let shown = chars_of(debug_text(s.as_str()).as_str());
            let mut mark: Vec<char> = Vec::new();
            mark.push('\\');
            mark.push('u');
            mark.push('{');
            assert(mark@ =~= escape_mark());
            if contains_text(&shown, &mark) {
                format_bytes(content.as_slice())
            } else {
                s
            }
        },
        None => format_bytes(content.as_slice()),
    }
}

/// The whole seconds since the Unix epoch of a time given in nanoseconds.
/// Wraps `time::OffsetDateTime::from_unix_timestamp_nanos` followed by
/// `unix_timestamp`: the first divides by 1,000,000,000 rounding down and
/// accepts every count of seconds up to the year 9999, which no `u64` of
/// nanoseconds exceeds; the second gives those seconds back.
#[verifier::external_body]
pub(crate) fn unix_seconds(nanos: u64) -> (r: Option<u64>)
    ensures
        r == Some((nanos / 1_000_000_000) as u64),
{
    match time::OffsetDateTime::from_unix_timestamp_nanos(nanos as i128) {
        Ok(t) => Some(t.unix_timestamp() as u64),
        Err(_) => None,
    }
}

/// The time of a record in whole seconds, from its time in nanoseconds.
pub fn record_seconds(timestamp_nanos: u64) -> (r: u64)
    ensures
        r == timestamp_nanos / 1_000_000_000,
{
    unix_seconds(timestamp_nanos).unwrap()
}

/// One record of the log after its message was read: what it parsed to as a
/// price request and as a content request, if it did.
#[derive(Debug)]
pub struct ParsedRecord {
    pub idx: u64,
    pub timestamp_nanos: u64,
    pub price_request: Option<Request>,
    pub content_request: Option<ProxyRequest>,
}

/// The model of an [`EventLog`]: index, seconds and request.
pub open spec fn event_view(e: EventLog) -> (u64, u64, RequestView) {
    (e.index, e.timestamp, e.logs@)
}

/// The model of an [`EventUrlLog`]: index, seconds and request.
pub open spec fn url_event_view(e: EventUrlLog) -> (u64, u64, ProxyView) {
    (e.index, e.timestamp, e.logs@)
}

/// The models of a sequence of price events.
pub open spec fn event_views(v: Seq<EventLog>) -> Seq<(u64, u64, RequestView)> {
    Seq::new(v.len(), |i: int| event_view(v[i]))
}

/// The models of a sequence of content events.
pub open spec fn url_event_views(v: Seq<EventUrlLog>) -> Seq<(u64, u64, ProxyView)> {
    Seq::new(v.len(), |i: int| url_event_view(v[i]))
}

/// The price events among the records, in order: a record that did not parse
/// as a price request is left out.
pub open spec fn price_events(records: Seq<ParsedRecord>) -> Seq<(u64, u64, RequestView)>
    decreases records.len(),
{
    if records.len() == 0 {
        Seq::empty()
    } else {
        let before = price_events(records.drop_last());
        let r = records.last();
        match r.price_request {
            Some(q) => before.push((r.idx, (r.timestamp_nanos / 1_000_000_000) as u64, q@)),
            None => before,
        }
    }
}

/// The content events among the records, in order: a record that did not
/// parse as a content request is left out.
pub open spec fn content_events(records: Seq<ParsedRecord>) -> Seq<(u64, u64, ProxyView)>
    decreases records.len(),
{
    if records.len() == 0 {
        Seq::empty()
    } else {
        let before = content_events(records.drop_last());
        let r = records.last();
        match r.content_request {
            Some(q) => before.push((r.idx, (r.timestamp_nanos / 1_000_000_000) as u64, q@)),
            None => before,
        }
    }
}

/// The events of a log: each record that parsed as a price request, and each
/// that parsed as a content request, dated in whole seconds and in the order
/// of the log. Records that parsed as neither are dropped.
pub fn format_canister_logs(records: Vec<ParsedRecord>) -> (r: (Vec<EventLog>, Vec<EventUrlLog>))
    ensures
        event_views(r.0@) == price_events(records@),
        url_event_views(r.1@) == content_events(records@),
{
    let mut prices: Vec<EventLog> = Vec::new();
    let mut contents: Vec<EventUrlLog> = Vec::new();
    let ghost all = records@;
    for record in it: records
        invariant
            it.seq() == all,
            event_views(prices@) == price_events(all.take(it.index() as int)),
            url_event_views(contents@) == content_events(all.take(it.index() as int)),
    {
        let ghost i = it.index() as int;
        let ghost before_p = event_views(prices@);
        let ghost before_c = url_event_views(contents@);
        proof {
            assert(all.take(i + 1).drop_last() =~= all.take(i));
            assert(all.take(i + 1).last() == all[i]);
        }
        let seconds = record_seconds(record.timestamp_nanos);
        match record.price_request {
            Some(q) => {
                prices.push(EventLog::new(record.idx, seconds, q));
                assert(event_views(prices@) =~= before_p.push((record.idx, seconds, q@)));
            },
            None => {},
        }
        match record.content_request {
            Some(q) => {
                contents.push(EventUrlLog::new(record.idx, seconds, q));
                assert(url_event_views(contents@) =~= before_c.push((record.idx, seconds, q@)));
            },
            None => {},
        }
    }
    assert(all.take(all.len() as int) =~= all);
    (prices, contents)
}

/// Whether a record dated `timestamp` is newer than the bound: strictly
/// later, or any time where there is no bound.
pub open spec fn is_newer(timestamp: u64, since: Option<u64>) -> bool {
    since is None || timestamp > since->Some_0
}

/// The events that are newer than the bound, in their order.
pub open spec fn newer_of<T>(events: Seq<(u64, u64, T)>, since: Option<u64>) -> Seq<(u64, u64, T)>
    decreases events.len(),
{
    if events.len() == 0 {
        Seq::empty()
    } else {
        let before = newer_of(events.drop_last(), since);
        if is_newer(events.last().1, since) {
            before.push(events.last())
        } else {
            before
        }
    }
}

/// Every event that is handed on is strictly newer than the checkpoint, and
/// without a checkpoint every event is handed on.
pub proof fn law_only_newer_events<T>(events: Seq<(u64, u64, T)>, since: Option<u64>)
    ensures
        forall|k: int|
            0 <= k < newer_of(events, since).len() ==> is_newer(
                (#[trigger] newer_of(events, since)[k]).1,
                since,
            ),
        newer_of(events, since).len() <= events.len(),
        since is None ==> newer_of(events, since) == events,
    decreases events.len(),
{
    if events.len() > 0 {
        law_only_newer_events(events.drop_last(), since);
        if since is None {
            assert(events.drop_last().push(events.last()) =~= events);
        }
    }
}

/// The price events dated strictly after `since`, in the order of the log;
/// all of them where `since` is `None`.
pub fn newer_events(logs: Vec<EventLog>, since: Option<u64>) -> (r: Vec<EventLog>)
    ensures
        event_views(r@) == newer_of(event_views(logs@), since),
{
    let ghost all = event_views(logs@);
    let mut out: Vec<EventLog> = Vec::new();
    for event in it: logs
        invariant
            event_views(it.seq()) == all,
            event_views(out@) == newer_of(all.take(it.index() as int), since),
    {
        let ghost i = it.index() as int;
        let ghost before = event_views(out@);
        proof {
            assert(all.take(i + 1).drop_last() =~= all.take(i));
            assert(all.take(i + 1).last() == event_view(event));
        }
        let keep = match since {
            Some(t) => event.timestamp > t,
            None => true,
        };
        if keep {
            out.push(event);
            assert(event_views(out@) =~= before.push(event_view(event)));
        }
    }
    assert(all.take(all.len() as int) =~= all);
    out
}

/// The content events dated strictly after `since`, in the order of the log;
/// all of them where `since` is `None`.
pub fn newer_url_events(logs: Vec<EventUrlLog>, since: Option<u64>) -> (r: Vec<EventUrlLog>)
    ensures
        url_event_views(r@) == newer_of(url_event_views(logs@), since),
{
    let ghost all = url_event_views(logs@);
    let mut out: Vec<EventUrlLog> = Vec::new();
    for event in it: logs
        invariant
            url_event_views(it.seq()) == all,
            url_event_views(out@) == newer_of(all.take(it.index() as int), since),
    {
        let ghost i = it.index() as int;
        let ghost before = url_event_views(out@);
        proof {
            assert(all.take(i + 1).drop_last() =~= all.take(i));
            assert(all.take(i + 1).last() == url_event_view(event));
        }
        let keep = match since {
            Some(t) => event.timestamp > t,
            None => true,
        };
        if keep {
            out.push(event);
            assert(url_event_views(out@) =~= before.push(url_event_view(event)));
        }
    }
    assert(all.take(all.len() as int) =~= all);
    out
}

/// The events of a log that are dated strictly after `start_timestamp`, in
/// the order of the log: the price requests and the content requests. Without
/// a bound all of them are returned.
pub fn get_canister_logs(records: Vec<ParsedRecord>, start_timestamp: Option<u64>) -> (r: (
    Vec<EventLog>,
    Vec<EventUrlLog>,
))
    ensures
        event_views(r.0@) == newer_of(price_events(records@), start_timestamp),
        url_event_views(r.1@) == newer_of(content_events(records@), start_timestamp),
{
    let (prices, contents) = format_canister_logs(records);
    (newer_events(prices, start_timestamp), newer_url_events(contents, start_timestamp))
}

} // verus!
