//! Watch events and the decoding of a watch stream: one JSON event per
//! line of a long-lived response.

use vstd::prelude::*;
use crate::json::{Json, json_decode, parse_json, field, text};
use crate::response::{ApiError, DecodeError, copy_bytes};
use crate::resplit::{ReSplit, FramePoll, Upstream, free_of, single_byte};
use crate::status::{Status, status_ok, status_read};
use crate::text::str_eq;

verus! {

/// The kind of change a watch event reports.
#[derive(Debug, Clone, Copy, PartialEq, Eq)]
pub enum EventType {
    Added,
    Modified,
    Deleted,
    Error,
}

proof fn lemma_event_names_distinct()
    ensures
        "ADDED"@ != "MODIFIED"@,
        "ADDED"@ != "DELETED"@,
        "ADDED"@ != "ERROR"@,
        "MODIFIED"@ != "DELETED"@,
        "MODIFIED"@ != "ERROR"@,
        "DELETED"@ != "ERROR"@,
{
    reveal_strlit("ADDED");
    reveal_strlit("MODIFIED");
    reveal_strlit("DELETED");
    reveal_strlit("ERROR");
    assert("ADDED"@.len() != "MODIFIED"@.len());
    assert("ADDED"@.len() != "DELETED"@.len());
    assert("ADDED"@[0] != "ERROR"@[0]);
    assert("MODIFIED"@.len() != "DELETED"@.len());
    assert("MODIFIED"@.len() != "ERROR"@.len());
    assert("DELETED"@.len() != "ERROR"@.len());
}

impl EventType {
    /// The wire name of each kind.
    pub open spec fn spec_name(self) -> Seq<char> {
        match self {
            EventType::Added => "ADDED"@,
            EventType::Modified => "MODIFIED"@,
            EventType::Deleted => "DELETED"@,
            EventType::Error => "ERROR"@,
        }
    }

    pub fn name(self) -> (r: &'static str)
        ensures
            r@ == self.spec_name(),
    {
        match self {
            EventType::Added => "ADDED",
            EventType::Modified => "MODIFIED",
            EventType::Deleted => "DELETED",
            EventType::Error => "ERROR",
        }
    }

    pub fn from_name(s: &str) -> (r: Option<EventType>)
        ensures
            r matches Some(x) ==> x.spec_name() == s@,
            r is None ==> forall|x: EventType| x.spec_name() != s@,
    {
        if str_eq(s, "ADDED") {
            Some(EventType::Added)
        } else if str_eq(s, "MODIFIED") {
            Some(EventType::Modified)
        } else if str_eq(s, "DELETED") {
            Some(EventType::Deleted)
        } else if str_eq(s, "ERROR") {
            Some(EventType::Error)
        } else {
            None
        }
    }
}

/// One change to a watched collection; an `Error` carries a Status.
#[derive(Debug, PartialEq, Eq)]
pub enum WatchEvent<T> {
    Added(T),
    Modified(T),
    Deleted(T),
    Error(Status),
}

impl<T> WatchEvent<T> {
    pub fn is_error(&self) -> (r: bool)
        ensures
            r == (*self is Error),
    {
        match self {
            WatchEvent::Error(_) => true,
            _ => false,
        }
    }

    /// The kind of this event.
    pub fn event_type(&self) -> (r: EventType)
        ensures
            r == EventType::Added <==> *self is Added,
            r == EventType::Modified <==> *self is Modified,
            r == EventType::Deleted <==> *self is Deleted,
            r == EventType::Error <==> *self is Error,
    {
        match self {
            WatchEvent::Added(_) => EventType::Added,
            WatchEvent::Modified(_) => EventType::Modified,
            WatchEvent::Deleted(_) => EventType::Deleted,
            WatchEvent::Error(_) => EventType::Error,
        }
    }
}

/// The document `j` is a watch event: an object whose `type` names a kind
/// and whose `object` is present, a Status for an `ERROR`.
pub open spec fn event_ok(j: Json) -> bool {
    &&& j is Object
    &&& field(j, "object"@) is Some
    &&& (match text(field(j, "type"@)) {
        Some(t) => t == "ADDED"@ || t == "MODIFIED"@ || t == "DELETED"@
            || (t == "ERROR"@ && status_ok(field(j, "object"@)->Some_0)),
        None => false,
    })
}

/// `ev` is the event that `j` describes.
pub open spec fn event_read(j: Json, ev: WatchEvent<Json>) -> bool {
    let o = field(j, "object"@)->Some_0;
    let t = text(field(j, "type"@))->Some_0;
    if t == "ADDED"@ {
        ev == WatchEvent::Added(o)
    } else if t == "MODIFIED"@ {
        ev == WatchEvent::Modified(o)
    } else if t == "DELETED"@ {
        ev == WatchEvent::Deleted(o)
    } else {
        ev matches WatchEvent::Error(s) && status_read(o, s)
    }
}

impl WatchEvent<Json> {
    /// Reads an event out of a JSON document.
    pub fn from_json(j: Json) -> (r: Result<WatchEvent<Json>, ()>)
        ensures
            r is Ok <==> event_ok(j),
            r matches Ok(ev) ==> event_read(j, ev),
    {
        let ghost whole = j;
        if !j.is_object() {
            return Err(());
        }
        let kind = match j.get("type") {
            Some(Json::Str(t)) => EventType::from_name(t.as_str()),
            _ => return Err(()),
        };
        proof {
            lemma_event_names_distinct();
        }
        let kind = match kind {
            Some(k) => k,
            None => {
                proof {
                    assert(EventType::Added.spec_name() == "ADDED"@);
                    assert(EventType::Modified.spec_name() == "MODIFIED"@);
                    assert(EventType::Deleted.spec_name() == "DELETED"@);
                    assert(EventType::Error.spec_name() == "ERROR"@);
                }
                return Err(());
            },
        };
        let o = match j.take("object") {
            Some(o) => o,
            None => return Err(()),
        };
        match kind {
            EventType::Added => Ok(WatchEvent::Added(o)),
            EventType::Modified => Ok(WatchEvent::Modified(o)),
            EventType::Deleted => Ok(WatchEvent::Deleted(o)),
            EventType::Error => match Status::from_json(&o) {
                Ok(s) => Ok(WatchEvent::Error(s)),
                Err(_) => Err(()),
            },
        }
    }
}

/// What one streamed line decodes to: its event, a decode error when it is
/// not JSON, or an invalid-event error when it is JSON of another shape.
pub open spec fn line_read(line: Seq<u8>, r: Result<WatchEvent<Json>, ApiError>) -> bool {
    match json_decode(line) {
        Some(j) => if event_ok(j) {
            r matches Ok(ev) && event_read(j, ev)
        } else {
            r matches Err(ApiError::Malformed(l)) && l@ == line
        },
        None => r matches Err(ApiError::Decode(e)) && e.input@ == line,
    }
}

/// Decodes one line of a watch stream.
pub fn decode_line(line: &[u8]) -> (r: Result<WatchEvent<Json>, ApiError>)
    ensures
        line_read(line@, r),
{
    match parse_json(line) {
        Ok(j) => match WatchEvent::from_json(j) {
            Ok(ev) => Ok(ev),
            Err(_) => Err(ApiError::Malformed(copy_bytes(line))),
        },
        Err(e) => Err(ApiError::Decode(DecodeError::new(&e, copy_bytes(line)))),
    }
}

/// The answer to a pull on a watch stream.
#[derive(Debug)]
pub enum WatchPoll<E> {
    /// The next event.
    Event(WatchEvent<Json>),
    /// No complete line yet: feed more of the body.
    NeedInput,
    /// A line did not decode; the stream is over.
    Failed(ApiError),
    /// The body failed; the stream is over.
    TransportFailed(E),
    /// The server closed the stream.
    Done,
}

/// `r` is what the line decodes to: its event, or the failure that it is.
pub open spec fn decoded_as<E>(line: Seq<u8>, r: WatchPoll<E>) -> bool {
    match r {
        WatchPoll::Event(ev) => line_read(line, Ok(ev)),
        WatchPoll::Failed(e) => line_read(line, Err(e)),
        _ => false,
    }
}

/// The streaming phase of a watch: a newline framer over the response
/// body, decoding each line as one event. The first error ends it.
pub struct WatchStream<E> {
    framer: ReSplit<E>,
    finished: bool,
}

impl<E> WatchStream<E> {
    pub closed spec fn wf(&self) -> bool {
        self.framer.wf() && self.framer.spec_ends() == crate::resplit::single_byte(10u8)
    }

    /// Bytes of the body that went into lines handed out so far.
    pub closed spec fn consumed(&self) -> Seq<u8> {
        self.framer.emitted()
    }

    /// Bytes of the body received so far.
    pub closed spec fn received(&self) -> Seq<u8> {
        self.framer.fed()
    }

    /// Bytes received that no line handed out has taken yet.
    pub closed spec fn buffered(&self) -> Seq<u8> {
        self.framer.buffered()
    }

    /// A failure of the body not yet reported.
    pub closed spec fn pending_error(&self) -> Option<E> {
        self.framer.pending_error()
    }

    /// The body ended, or its failure was reported.
    pub closed spec fn body_ended(&self) -> bool {
        self.framer.is_ended()
    }

    pub closed spec fn is_finished(&self) -> bool {
        self.finished
    }

    pub fn new() -> (r: WatchStream<E>)
        ensures
            r.wf(),
            !r.is_finished(),
            r.received() == Seq::<u8>::empty(),
            r.consumed() == Seq::<u8>::empty(),
            r.buffered() == Seq::<u8>::empty(),
            r.pending_error() is None,
            !r.body_ended(),
    {
        WatchStream { framer: ReSplit::new(10u8), finished: false }
    }

    /// Hands over what the body stream produced: bytes join the buffer,
    /// the end marks the body ended, a failure waits to be reported.
    pub fn feed(&mut self, item: Upstream<E>)
        requires
            old(self).wf(),
        ensures
            final(self).wf(),
            final(self).is_finished() == old(self).is_finished(),
            final(self).consumed() == old(self).consumed(),
            match item {
                Upstream::Chunk(c) => {
                    &&& final(self).received() == old(self).received() + c@
                    &&& final(self).buffered() == old(self).buffered() + c@
                    &&& final(self).pending_error() == old(self).pending_error()
                    &&& final(self).body_ended() == old(self).body_ended()
                },
                Upstream::End => {
                    &&& final(self).received() == old(self).received()
                    &&& final(self).buffered() == old(self).buffered()
                    &&& final(self).pending_error() == old(self).pending_error()
                    &&& final(self).body_ended()
                },
                Upstream::Failed(e) => {
                    &&& final(self).received() == old(self).received()
                    &&& final(self).buffered() == old(self).buffered()
                    &&& final(self).pending_error() == Some(e)
                    &&& final(self).body_ended() == old(self).body_ended()
                },
            },
    {
        self.framer.feed(item);
    }

    /// The next event, if a complete line is at hand.
    ///
    /// The first buffered line (up to and including its newline) is decoded
    /// and handed out as an event, or as the failure that ends the stream.
    /// Without a newline, what is buffered is decoded as a last line once the
    /// body failed or ended; with nothing buffered the body's failure, or the
    /// end, is reported. Otherwise more input is needed. After the stream is
    /// finished, only `Done`.
    pub fn next_event(&mut self) -> (r: WatchPoll<E>)
        requires
            old(self).wf(),
        ensures
            final(self).wf(),
            final(self).received() == old(self).received(),
            old(self).is_finished() ==> (r is Done && final(self).is_finished()
                && final(self).consumed() == old(self).consumed()),
            !old(self).is_finished() ==> ({
                let b = old(self).buffered();
                if !free_of(b, single_byte(10u8)) {
                    exists|i: int| 0 <= i < b.len() && b[i] == 10u8
                        && free_of(b.subrange(0, i), single_byte(10u8))
                        && decoded_as(b.subrange(0, i + 1), r)
                        && final(self).consumed() == old(self).consumed() + b.subrange(0, i + 1)
                        && final(self).buffered() == b.subrange(i + 1, b.len() as int)
                        && final(self).pending_error() == old(self).pending_error()
                        && final(self).body_ended() == old(self).body_ended()
                        && final(self).is_finished() == (r is Failed)
                } else if old(self).pending_error() is Some {
                    if b.len() > 0 {
                        &&& decoded_as(b, r)
                        &&& final(self).consumed() == old(self).consumed() + b
                        &&& final(self).buffered() == Seq::<u8>::empty()
                        &&& final(self).pending_error() == old(self).pending_error()
                        &&& final(self).is_finished() == (r is Failed)
                    } else {
                        &&& r == WatchPoll::<E>::TransportFailed(old(self).pending_error()->Some_0)
                        &&& final(self).consumed() == old(self).consumed()
                        &&& final(self).is_finished()
                    }
                } else if old(self).body_ended() {
                    if b.len() > 0 {
                        &&& decoded_as(b, r)
                        &&& final(self).consumed() == old(self).consumed() + b
                        &&& final(self).buffered() == Seq::<u8>::empty()
                        &&& final(self).is_finished() == (r is Failed)
                    } else {
                        &&& r is Done
                        &&& final(self).consumed() == old(self).consumed()
                        &&& final(self).is_finished()
                    }
                } else {
                    &&& r is NeedInput
                    &&& final(self).consumed() == old(self).consumed()
                    &&& final(self).buffered() == b
                    &&& final(self).pending_error() is None
                    &&& !final(self).body_ended()
                    &&& !final(self).is_finished()
                }
            }),
    {
        if self.finished {
            return WatchPoll::Done;
        }
        match self.framer.poll() {
            FramePoll::Record(line) => {
                let r = decode_line(line.as_slice());
                match r {
                    Ok(ev) => WatchPoll::Event(ev),
                    Err(e) => {
                        self.finished = true;
                        WatchPoll::Failed(e)
                    },
                }
            },
            FramePoll::NeedInput => WatchPoll::NeedInput,
            FramePoll::Error(e) => {
                self.finished = true;
                WatchPoll::TransportFailed(e)
            },
            FramePoll::Done => {
                self.finished = true;
                WatchPoll::Done
            },
        }
    }
}

} // verus!
