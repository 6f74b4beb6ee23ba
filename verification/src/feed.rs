//! The change-feed stream consumer. A subscribed response body is a textual,
//! newline-delimited byte stream; a line is meaningful only when it begins
//! with the literal prefix `data: `, after which the remainder of the line is
//! a JSON object decoded into a `CollectionEvent`. Lines without the prefix,
//! or whose remainder fails to decode, are skipped silently; only
//! connection-level failure ends the sequence, and that is the caller's
//! affair. The decoder here turns the raw chunks of such a stream into the
//! events of every completed line.

use vstd::prelude::*;
use vstd::slice::slice_index_get;

verus! {

/// One decoded mutation event from a collection's change feed.
#[derive(Debug)]
pub struct CollectionEvent {
    /// The operation tag, e.g. `"put"`.
    pub operation: String,
    /// The key the operation touched.
    pub key: String,
    /// The document written, as an opaque JSON tree.
    pub value: serde_json::Value,
    /// The server's timestamp of the operation, when it sent one.
    pub server_time: Option<u64>,
}

impl CollectionEvent {
    /// The plain parts of the event: operation tag, key and server timestamp.
    pub open spec fn fields(self) -> (Seq<char>, Seq<char>, Option<u64>) {
        (self.operation@, self.key@, self.server_time)
    }
}

/// What serde_json decodes from the payload of one data frame: the operation
/// tag, the key and the optional server timestamp, or `None` when the payload
/// is not a JSON object of the expected shape.
pub uninterp spec fn event_fields_of(payload: Seq<u8>) -> Option<
    (Seq<char>, Seq<char>, Option<u64>),
>;

/// Relies on serde_json::from_slice::<Value> and on Value's accessors `get`,
/// `as_str`, `as_u64` and `clone`: decodes one event object with required
/// fields `operation`, `key` and `value` and optional `server_time`; the
/// result depends on the payload bytes alone.
#[verifier::external_body]
fn decode_event(payload: &[u8]) -> (r: Option<CollectionEvent>)
    ensures
        r is Some <==> event_fields_of(payload@) is Some,
        r matches Some(e) ==> event_fields_of(payload@) == Some(e.fields()),
{
    let v: serde_json::Value = serde_json::from_slice(payload).ok()?;
    let operation = v.get("operation")?.as_str()?.to_string();
    let key = v.get("key")?.as_str()?.to_string();
    let value = v.get("value")?.clone();
    let server_time = v.get("server_time").and_then(serde_json::Value::as_u64);
    Some(CollectionEvent { operation, key, value, server_time })
}

/// The byte prefix that marks a data frame: `"data: "`.
pub open spec fn frame_prefix() -> Seq<u8> {
    seq!['d' as u8, 'a' as u8, 't' as u8, 'a' as u8, ':' as u8, ' ' as u8]
}

/// Whether `line` is a data frame, i.e. begins with the frame prefix.
pub open spec fn is_data_line(line: Seq<u8>) -> bool {
    line.len() >= 6 && line.subrange(0, 6) == frame_prefix()
}

/// A carriage return left at the end of a line by a `\r\n` delimiter is not
/// part of the frame.
pub open spec fn trim_cr(line: Seq<u8>) -> Seq<u8> {
    if line.len() > 0 && line.last() == '\r' as u8 {
        line.drop_last()
    } else {
        line
    }
}

/// The event of one feed line: the decoded payload when the line is a data
/// frame that decodes, and nothing otherwise (the line is skipped).
pub open spec fn line_event(line: Seq<u8>) -> Option<(Seq<char>, Seq<char>, Option<u64>)> {
    if is_data_line(trim_cr(line)) {
        event_fields_of(trim_cr(line).skip(6))
    } else {
        None
    }
}

/// Decodes one complete feed line (without its newline delimiter).
pub fn parse_frame(line: &[u8]) -> (r: Option<CollectionEvent>)
    ensures
        r is Some <==> line_event(line@) is Some,
        r matches Some(e) ==> line_event(line@) == Some(e.fields()),
{
    let n = line.len();
    let end = if n > 0 && *slice_index_get(line, n - 1) == '\r' as u8 {
        n - 1
    } else {
        n
    };
    proof {
        assert(line@.subrange(0, end as int) =~= trim_cr(line@));
    }
    if end < 6 {
        return None;
    }
    if !(*slice_index_get(line, 0) == 'd' as u8 && *slice_index_get(line, 1) == 'a' as u8
        && *slice_index_get(line, 2) == 't' as u8 && *slice_index_get(line, 3) == 'a' as u8
        && *slice_index_get(line, 4) == ':' as u8 && *slice_index_get(line, 5) == ' ' as u8) {
        proof {
            assert(!is_data_line(trim_cr(line@)));
        }
        return None;
    }
    proof {
        assert(trim_cr(line@).subrange(0, 6) =~= frame_prefix());
    }
    let payload = vstd::slice::slice_subrange(line, 6, end);
    proof {
        assert(payload@ =~= trim_cr(line@).skip(6));
    }
    decode_event(payload)
}

/// Accumulates the raw bytes of a change-feed response and yields the event
/// of every line as the line completes. A partial line at the end of a chunk
/// stays pending until its newline arrives in a later chunk.
#[derive(Debug)]
pub struct FeedDecoder {
    buf: Vec<u8>,
}

impl View for FeedDecoder {
    type V = Seq<u8>;

    /// The bytes of the partial line still pending.
    closed spec fn view(&self) -> Seq<u8> {
        self.buf@
    }
}

/// The bytes of `s` after its last newline: the partial line a decoder fed
/// with `s` still holds.
pub open spec fn pending_of(s: Seq<u8>) -> Seq<u8>
    decreases s.len(),
{
    if s.len() == 0 {
        Seq::empty()
    } else if s.last() == '\n' as u8 {
        Seq::empty()
    } else {
        pending_of(s.drop_last()).push(s.last())
    }
}

/// The events of every complete (newline-terminated) line of `s`, in order;
/// lines that are not decodable data frames contribute nothing.
pub open spec fn events_of(s: Seq<u8>) -> Seq<(Seq<char>, Seq<char>, Option<u64>)>
    decreases s.len(),
{
    if s.len() == 0 {
        Seq::empty()
    } else if s.last() == '\n' as u8 {
        match line_event(pending_of(s.drop_last())) {
            Some(f) => events_of(s.drop_last()).push(f),
            None => events_of(s.drop_last()),
        }
    } else {
        events_of(s.drop_last())
    }
}

/// The plain parts of a sequence of decoded events.
pub open spec fn event_views(es: Seq<CollectionEvent>) -> Seq<
    (Seq<char>, Seq<char>, Option<u64>),
> {
    es.map_values(|e: CollectionEvent| e.fields())
}

impl FeedDecoder {
    /// A pending partial line never holds a newline.
    pub open spec fn wf(self) -> bool {
        forall|i: int| 0 <= i < self@.len() ==> self@[i] != '\n' as u8
    }

    /// A fresh decoder with nothing pending.
    pub fn new() -> (d: Self)
        ensures
            d.wf(),
            d@ == Seq::<u8>::empty(),
    {
        FeedDecoder { buf: Vec::new() }
    }

    /// Feeds the next chunk of the response body to the decoder and returns
    /// the events of every line the chunk completed, in stream order. The
    /// bytes after the chunk's last newline stay pending.
    pub fn push_chunk(&mut self, chunk: &[u8]) -> (events: Vec<CollectionEvent>)
        requires
            old(self).wf(),
        ensures
            final(self).wf(),
            final(self)@ == pending_of(old(self)@ + chunk@),
            event_views(events@) == events_of(old(self)@ + chunk@),
    {
        proof {
            lemma_pending_of_is_self(old(self)@);
            lemma_events_of_no_newline(old(self)@);
            assert(old(self)@ + chunk@.take(0) =~= old(self)@);
        }
        let mut events: Vec<CollectionEvent> = Vec::new();
        let n = chunk.len();
        let mut j: usize = 0;
        while j < n
            invariant
                j <= n,
                n == chunk@.len(),
                self.wf(),
                self@ == pending_of(old(self)@ + chunk@.take(j as int)),
                event_views(events@) == events_of(old(self)@ + chunk@.take(j as int)),
            decreases n - j,
        {
            let ghost t = old(self)@ + chunk@.take(j as int);
            let b = *slice_index_get(chunk, j);
            proof {
                assert((old(self)@ + chunk@.take(j + 1)) =~= t.push(b));
                assert(t.push(b).drop_last() =~= t);
            }
            if b == '\n' as u8 {
                proof {
                    lemma_pending_of_is_self(self@);
                }
                let e = parse_frame(self.buf.as_slice());
                match e {
                    Some(ev) => {
                        events.push(ev);
                    },
                    None => {},
                }
                self.buf.clear();
                proof {
                    assert(event_views(events@) =~= events_of(old(self)@ + chunk@.take(j + 1)));
                }
            } else {
                self.buf.push(b);
                proof {
                    assert(self@ =~= pending_of(old(self)@ + chunk@.take(j + 1)));
                }
            }
            j = j + 1;
        }
        proof {
            assert(chunk@.take(n as int) =~= chunk@);
        }
        events
    }
}

/// A text without a newline is pending in full.
proof fn lemma_pending_of_is_self(s: Seq<u8>)
    requires
        forall|i: int| 0 <= i < s.len() ==> s[i] != '\n' as u8,
    ensures
        pending_of(s) == s,
    decreases s.len(),
{
    if s.len() > 0 {
        lemma_pending_of_is_self(s.drop_last());
        assert(pending_of(s.drop_last()).push(s.last()) =~= s);
    } else {
        assert(pending_of(s) =~= s);
    }
}

/// A text without a newline holds no complete line, so no event.
proof fn lemma_events_of_no_newline(s: Seq<u8>)
    requires
        forall|i: int| 0 <= i < s.len() ==> s[i] != '\n' as u8,
    ensures
        events_of(s) == Seq::<(Seq<char>, Seq<char>, Option<u64>)>::empty(),
    decreases s.len(),
{
    if s.len() > 0 {
        lemma_events_of_no_newline(s.drop_last());
    }
}

} // verus!
