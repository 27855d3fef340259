use kubernetes_apimachinery::json::Json;
use kubernetes_apimachinery::response::ApiError;
use kubernetes_apimachinery::resplit::{FramePoll, ReSplit, Upstream};
use kubernetes_apimachinery::status::{Status, StatusStatus};
use kubernetes_apimachinery::watch::{decode_line, EventType, WatchEvent, WatchPoll, WatchStream};

fn chunk<E>(s: &str) -> Upstream<E> {
    Upstream::Chunk(s.as_bytes().to_vec())
}

#[test]
fn framer_handles_split_delimiters() {
    let mut f: ReSplit<()> = ReSplit::new(b'\n');
    f.feed(chunk("ab"));
    assert_eq!(f.poll(), FramePoll::NeedInput);
    f.feed(chunk("c\nde"));
    assert_eq!(f.poll(), FramePoll::Record(b"abc\n".to_vec()));
    assert_eq!(f.poll(), FramePoll::NeedInput);
    f.feed(chunk("f"));
    assert_eq!(f.poll(), FramePoll::NeedInput);
    f.feed(Upstream::End);
    assert_eq!(f.poll(), FramePoll::Record(b"def".to_vec()));
    assert_eq!(f.poll(), FramePoll::Done);
}

#[test]
fn framer_flushes_before_reporting_failure() {
    let mut f: ReSplit<&str> = ReSplit::new(b'\n');
    f.feed(chunk("one\ntw"));
    f.feed(Upstream::Failed("reset"));
    assert_eq!(f.poll(), FramePoll::Record(b"one\n".to_vec()));
    assert_eq!(f.poll(), FramePoll::Record(b"tw".to_vec()));
    assert_eq!(f.poll(), FramePoll::Error("reset"));
    assert_eq!(f.poll(), FramePoll::Done);
}

#[test]
fn framer_several_records_in_one_chunk() {
    let mut f: ReSplit<()> = ReSplit::new(b';');
    f.feed(chunk("a;b;;c"));
    assert_eq!(f.poll(), FramePoll::Record(b"a;".to_vec()));
    assert_eq!(f.poll(), FramePoll::Record(b"b;".to_vec()));
    assert_eq!(f.poll(), FramePoll::Record(b";".to_vec()));
    assert_eq!(f.poll(), FramePoll::NeedInput);
    f.feed(Upstream::End);
    assert_eq!(f.poll(), FramePoll::Record(b"c".to_vec()));
    assert_eq!(f.poll(), FramePoll::Done);
}

#[test]
fn framer_empty_stream() {
    let mut f: ReSplit<()> = ReSplit::new(b'\n');
    f.feed(Upstream::End);
    assert_eq!(f.poll(), FramePoll::Done);
}

#[test]
fn watchevent_error() {
    let line = br#"{"type":"ERROR","object":{"code":404,"message":"double-plus unfound","status":"Failure"}}"#;
    let ev = decode_line(line).unwrap();
    assert_eq!(
        ev,
        WatchEvent::Error(Status {
            code: 404,
            message: Some("double-plus unfound".to_string()),
            status: Some(StatusStatus::Failure),
            ..Default::default()
        })
    );
    assert!(ev.is_error());
    assert_eq!(ev.event_type(), EventType::Error);
}

#[test]
fn watch_event_kinds() {
    let ev = decode_line(br#"{"type":"ADDED","object":{"kind":"Pod"}}"#).unwrap();
    assert_eq!(
        ev,
        WatchEvent::Added(Json::Object(vec![("kind".to_string(), Json::Str("Pod".to_string()))]))
    );
    assert!(!ev.is_error());
    assert!(matches!(decode_line(br#"{"type":"MODIFIED","object":1}"#).unwrap(), WatchEvent::Modified(Json::Number(_))));
    assert!(matches!(decode_line(br#"{"type":"DELETED","object":null}"#).unwrap(), WatchEvent::Deleted(Json::Null)));
    assert_eq!(EventType::from_name("MODIFIED"), Some(EventType::Modified));
    assert_eq!(EventType::Deleted.name(), "DELETED");
}

#[test]
fn watch_lines_of_other_shapes_are_refused() {
    assert!(matches!(decode_line(br#"{"type":"BOOKMARKED","object":{}}"#), Err(ApiError::Malformed(_))));
    assert!(matches!(decode_line(br#"{"type":"ADDED"}"#), Err(ApiError::Malformed(_))));
    assert!(matches!(decode_line(br#"{"type":"ERROR","object":{"code":"x"}}"#), Err(ApiError::Malformed(_))));
    assert!(matches!(decode_line(b"{not json"), Err(ApiError::Decode(_))));
}

#[test]
fn watch_stream_in_order_then_done() {
    let mut w: WatchStream<String> = WatchStream::new();
    w.feed(chunk(r#"{"type":"ADDED","object":{"n":1}}"#));
    assert!(matches!(w.next_event(), WatchPoll::NeedInput));
    w.feed(chunk("\n{\"type\":\"MODIFIED\",\"obj"));
    w.feed(chunk("ect\":{\"n\":2}}\n"));
    match w.next_event() {
        WatchPoll::Event(WatchEvent::Added(_)) => {}
        other => panic!("unexpected {:?}", other),
    }
    match w.next_event() {
        WatchPoll::Event(WatchEvent::Modified(_)) => {}
        other => panic!("unexpected {:?}", other),
    }
    assert!(matches!(w.next_event(), WatchPoll::NeedInput));
    w.feed(Upstream::End);
    assert!(matches!(w.next_event(), WatchPoll::Done));
    assert!(matches!(w.next_event(), WatchPoll::Done));
}

#[test]
fn watch_stream_ends_at_first_bad_line() {
    let mut w: WatchStream<String> = WatchStream::new();
    w.feed(chunk("garbage\n{\"type\":\"ADDED\",\"object\":{}}\n"));
    assert!(matches!(w.next_event(), WatchPoll::Failed(ApiError::Decode(_))));
    assert!(matches!(w.next_event(), WatchPoll::Done));
}

#[test]
fn watch_stream_reports_transport_failure() {
    let mut w: WatchStream<String> = WatchStream::new();
    w.feed(Upstream::Failed("connection reset".to_string()));
    match w.next_event() {
        WatchPoll::TransportFailed(e) => assert_eq!(e, "connection reset"),
        other => panic!("unexpected {:?}", other),
    }
    assert!(matches!(w.next_event(), WatchPoll::Done));
}

#[test]
fn framer_with_byte_predicate() {
    let ends: Vec<bool> = (0..256).map(|b| b == b';' as usize || b == b',' as usize).collect();
    let mut f: ReSplit<()> = ReSplit::with_predicate(ends);
    f.feed(chunk("a,b;c"));
    assert_eq!(f.poll(), FramePoll::Record(b"a,".to_vec()));
    assert_eq!(f.poll(), FramePoll::Record(b"b;".to_vec()));
    assert_eq!(f.poll(), FramePoll::NeedInput);
    f.feed(Upstream::End);
    assert_eq!(f.poll(), FramePoll::Record(b"c".to_vec()));
}

#[test]
fn watch_stream_decodes_last_line_before_body_failure() {
    let mut w: WatchStream<String> = WatchStream::new();
    w.feed(chunk(r#"{"type":"DELETED","object":{}}"#));
    w.feed(Upstream::Failed("reset".to_string()));
    assert!(matches!(w.next_event(), WatchPoll::Event(WatchEvent::Deleted(_))));
    match w.next_event() {
        WatchPoll::TransportFailed(e) => assert_eq!(e, "reset"),
        other => panic!("unexpected {:?}", other),
    }
    assert!(matches!(w.next_event(), WatchPoll::Done));
}
