use gharchive_source::error::{DecodeFailure, DecodeReason, IoFailure, SourceError};
use gharchive_source::event::Event;
use gharchive_source::gharchive::{GHarchiveSource, Lifecycle};
use gharchive_source::json::Json;
use gharchive_source::time::Timestamp;

const PUSH: &str = r#"{"id":"1","type":"PushEvent","public":true,"payload":{},"repo":{"id":1,"name":"a/b","url":"u"},"actor":{"id":2,"login":"x","gravatar_id":"","avatar_url":"","url":"u"},"org":null,"created_at":"2015-01-01T15:00:00Z"}"#;

fn line(id: &str, kind: &str) -> Vec<u8> {
    format!(
        "{{\"id\":\"{}\",\"type\":\"{}\",\"public\":true,\"payload\":{{}},\"repo\":{{\"id\":1,\"name\":\"a/b\",\"url\":\"u\"}},\"actor\":{{\"id\":2,\"login\":\"x\",\"gravatar_id\":\"\",\"avatar_url\":\"\",\"url\":\"u\"}},\"created_at\":\"2015-01-01T15:00:00Z\"}}\n",
        id, kind
    )
    .into_bytes()
}

fn ready(path: &str) -> GHarchiveSource {
    let mut source = GHarchiveSource::new(path);
    assert_eq!(source.init(Ok(())), Ok(()));
    source
}

fn failure(detail: &str) -> IoFailure {
    IoFailure { detail: detail.to_string() }
}

fn drain(source: &mut GHarchiveSource, lines: &[Vec<u8>], polls: usize) -> Vec<Result<Option<Event>, SourceError>> {
    let mut out = Vec::new();
    for l in lines {
        out.push(source.next(Ok(l.clone())));
    }
    for _ in 0..polls {
        out.push(source.next(Ok(Vec::new())));
    }
    out
}

#[test]
fn new_source_is_uninitialized() {
    let source = GHarchiveSource::new("tests/2015-01-01-15.json");
    assert_eq!(source.state(), Lifecycle::Uninitialized);
    assert_eq!(source.path(), "tests/2015-01-01-15.json");
    assert!(!source.is_gzip());
    assert!(!source.wants_read());
}

#[test]
fn new_source_for_gz_file_is_gzip() {
    let source = GHarchiveSource::new("tests/2025-01-01-15.json.gz");
    assert!(source.is_gzip());
    assert_eq!(source.state(), Lifecycle::Uninitialized);
}

#[test]
fn init_success_makes_ready() {
    let mut source = GHarchiveSource::new("a.json");
    assert_eq!(source.init(Ok(())), Ok(()));
    assert_eq!(source.state(), Lifecycle::Ready);
    assert!(source.wants_read());
}

#[test]
fn init_failure_is_reported_and_closes() {
    let mut source = GHarchiveSource::new("missing.json");
    let out = source.init(Err(failure("No such file or directory (os error 2)")));
    assert_eq!(out, Err(failure("No such file or directory (os error 2)")));
    assert_eq!(source.state(), Lifecycle::Closed);
    assert!(!source.wants_read());
    assert_eq!(source.next(Ok(line("1", "PushEvent"))), Ok(None));
}

#[test]
fn init_again_reopens() {
    let mut source = ready("a.json");
    assert_eq!(source.close(), Ok(()));
    assert_eq!(source.init(Ok(())), Ok(()));
    assert_eq!(source.state(), Lifecycle::Ready);
    assert!(matches!(source.next(Ok(line("1", "PushEvent"))), Ok(Some(_))));
}

#[test]
fn next_before_init_yields_nothing() {
    let mut source = GHarchiveSource::new("a.json");
    assert_eq!(source.next(Ok(line("1", "PushEvent"))), Ok(None));
    assert_eq!(source.next(Ok(Vec::new())), Ok(None));
    assert_eq!(source.next(Err(failure("boom"))), Ok(None));
    assert_eq!(source.state(), Lifecycle::Uninitialized);
}

#[test]
fn next_after_close_yields_nothing() {
    let mut source = ready("a.json");
    assert_eq!(source.close(), Ok(()));
    assert_eq!(source.next(Ok(line("1", "PushEvent"))), Ok(None));
    assert_eq!(source.next(Err(failure("boom"))), Ok(None));
    assert_eq!(source.state(), Lifecycle::Closed);
}

#[test]
fn close_is_idempotent() {
    let mut source = ready("a.json");
    assert_eq!(source.close(), Ok(()));
    assert_eq!(source.close(), Ok(()));
    assert_eq!(source.close(), Ok(()));
    assert_eq!(source.state(), Lifecycle::Closed);
    let mut never_opened = GHarchiveSource::new("a.json");
    assert_eq!(never_opened.close(), Ok(()));
    assert_eq!(never_opened.state(), Lifecycle::Closed);
}

#[test]
fn close_keeps_path_and_format() {
    let mut source = ready("dir/a.json.gz");
    assert_eq!(source.close(), Ok(()));
    assert_eq!(source.path(), "dir/a.json.gz");
    assert!(source.is_gzip());
}

#[test]
fn empty_file_yields_none_on_first_next() {
    let mut source = ready("empty.json");
    assert_eq!(source.next(Ok(Vec::new())), Ok(None));
    assert_eq!(source.state(), Lifecycle::Ready);
}

#[test]
fn n_lines_yield_n_events_then_none_twice() {
    let lines = vec![line("1", "PushEvent"), line("2", "WatchEvent"), line("3", "ForkEvent")];
    let mut source = ready("three.json");
    let out = drain(&mut source, &lines, 2);
    assert_eq!(out.len(), 5);
    let kinds: Vec<String> = out[..3]
        .iter()
        .map(|o| match o {
            Ok(Some(e)) => format!("{}:{}", e.id, e.event_type),
            other => panic!("no event: {:?}", other),
        })
        .collect();
    assert_eq!(kinds, vec!["1:PushEvent", "2:WatchEvent", "3:ForkEvent"]);
    assert_eq!(out[3], Ok(None));
    assert_eq!(out[4], Ok(None));
    assert_eq!(source.state(), Lifecycle::Ready);
}

#[test]
fn plain_and_gzip_sources_yield_the_same() {
    let lines = vec![
        line("1", "PushEvent"),
        b"{\"id\":\"2\"}\n".to_vec(),
        line("3", "ForkEvent"),
        b"not json\r\n".to_vec(),
    ];
    let mut plain = ready("2015-01-01-15.json");
    let mut gzip = ready("2015-01-01-15.json.gz");
    assert!(!plain.is_gzip());
    assert!(gzip.is_gzip());
    let from_plain = drain(&mut plain, &lines, 2);
    let from_gzip = drain(&mut gzip, &lines, 2);
    assert_eq!(from_plain, from_gzip);
    assert_eq!(from_plain.len(), 6);
    assert!(matches!(from_plain[0], Ok(Some(_))));
    assert!(matches!(from_plain[1], Err(SourceError::Decode(_))));
    assert!(matches!(from_plain[2], Ok(Some(_))));
    assert!(matches!(from_plain[3], Err(SourceError::Decode(_))));
    assert_eq!(plain.state(), gzip.state());
}

#[test]
fn missing_id_is_a_decode_failure_and_the_source_goes_on() {
    let bad = b"{\"type\":\"PushEvent\",\"public\":true,\"payload\":{},\"repo\":{\"id\":1,\"name\":\"a/b\",\"url\":\"u\"},\"actor\":{\"id\":2,\"login\":\"x\",\"gravatar_id\":\"\",\"avatar_url\":\"\",\"url\":\"u\"},\"created_at\":\"2015-01-01T15:00:00Z\"}\n".to_vec();
    let mut source = ready("a.json");
    let out = source.next(Ok(bad.clone()));
    assert_eq!(
        out,
        Err(SourceError::Decode(DecodeFailure { line: bad, reason: DecodeReason::Schema }))
    );
    assert_eq!(source.state(), Lifecycle::Ready);
    assert!(source.wants_read());
    match source.next(Ok(line("7", "IssuesEvent"))) {
        Ok(Some(e)) => assert_eq!(e.id, "7"),
        other => panic!("no event: {:?}", other),
    }
    assert_eq!(source.next(Ok(Vec::new())), Ok(None));
}

#[test]
fn corrupt_gzip_fails_at_first_next_not_at_init() {
    let mut source = GHarchiveSource::new("broken.json.gz");
    assert!(source.is_gzip());
    assert_eq!(source.init(Ok(())), Ok(()));
    assert_eq!(source.state(), Lifecycle::Ready);
    let out = source.next(Err(failure("invalid gzip header")));
    assert_eq!(out, Err(SourceError::Io(failure("invalid gzip header"))));
    assert_eq!(source.state(), Lifecycle::Closed);
}

#[test]
fn failed_read_closes_the_source() {
    let mut source = ready("a.json");
    assert!(matches!(source.next(Ok(line("1", "PushEvent"))), Ok(Some(_))));
    let out = source.next(Err(failure("unexpected end of file")));
    assert_eq!(out, Err(SourceError::Io(failure("unexpected end of file"))));
    assert_eq!(source.state(), Lifecycle::Closed);
    assert!(!source.wants_read());
    assert_eq!(source.next(Ok(line("2", "PushEvent"))), Ok(None));
}

#[test]
fn single_push_event_then_none() {
    let mut source = ready("fixture.json");
    let mut raw = PUSH.as_bytes().to_vec();
    raw.push(b'\n');
    let event = match source.next(Ok(raw)) {
        Ok(Some(event)) => event,
        other => panic!("no event: {:?}", other),
    };
    assert_eq!(event.id, "1");
    assert_eq!(event.event_type, "PushEvent");
    assert!(event.public);
    assert_eq!(event.payload, Json::Object(Vec::new()));
    assert_eq!(event.repo.id, 1);
    assert_eq!(event.repo.name, "a/b");
    assert_eq!(event.repo.url, "u");
    assert_eq!(event.actor.id, 2);
    assert_eq!(event.actor.login, "x");
    assert_eq!(event.actor.gravatar_id, "");
    assert_eq!(event.actor.avatar_url, "");
    assert_eq!(event.actor.url, "u");
    assert_eq!(event.org, None);
    assert_eq!(event.created_at, Timestamp { secs: 1420124400, nanos: 0 });
    assert_eq!(source.next(Ok(Vec::new())), Ok(None));
}

#[test]
fn blank_line_is_not_the_end_of_the_stream() {
    let mut source = ready("a.json");
    let out = source.next(Ok(b"\n".to_vec()));
    assert_eq!(
        out,
        Err(SourceError::Decode(DecodeFailure { line: b"\n".to_vec(), reason: DecodeReason::Blank }))
    );
    let out = source.next(Ok(b"\r\n".to_vec()));
    assert_eq!(
        out,
        Err(SourceError::Decode(DecodeFailure {
            line: b"\r\n".to_vec(),
            reason: DecodeReason::Blank
        }))
    );
    assert_eq!(source.state(), Lifecycle::Ready);
    assert_eq!(source.next(Ok(Vec::new())), Ok(None));
}

#[test]
fn last_line_without_terminator_is_decoded() {
    let mut source = ready("a.json");
    let raw = PUSH.as_bytes().to_vec();
    assert!(matches!(source.next(Ok(raw)), Ok(Some(_))));
    assert_eq!(source.next(Ok(Vec::new())), Ok(None));
}

#[test]
fn decode_failure_carries_the_line_as_read() {
    let mut source = ready("a.json");
    let raw = b"  {\"id\": \r\n".to_vec();
    match source.next(Ok(raw.clone())) {
        Err(SourceError::Decode(f)) => {
            assert_eq!(f.line, raw);
            assert_eq!(f.reason, DecodeReason::Syntax);
        }
        other => panic!("no decode failure: {:?}", other),
    }
}

#[test]
fn line_that_is_not_utf8_is_a_decode_failure() {
    let mut source = ready("a.json");
    let raw = vec![b'{', 0xff, 0xfe, b'}', b'\n'];
    assert_eq!(
        source.next(Ok(raw.clone())),
        Err(SourceError::Decode(DecodeFailure { line: raw, reason: DecodeReason::Encoding }))
    );
    assert_eq!(source.state(), Lifecycle::Ready);
}
