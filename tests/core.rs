use fcgi::marshal::c_text;
use fcgi::{
    BodyReader, DefaultRequest, Phase, Runtime, StreamType, Streams, Worker, WorkerPhase,
    CHUNK_SIZE,
};

fn active_request() -> DefaultRequest {
    let rt = Runtime::from_status(0);
    let mut req = DefaultRequest::new(&rt, 0).unwrap();
    assert!(req.accept(0));
    req
}

/// Feeds `body` to a reader the way the native read delivers it, and returns
/// the text together with the number of reads made.
fn read_body(body: &[u8]) -> (String, usize) {
    let mut reader = BodyReader::new();
    let mut pos = 0usize;
    let mut reads = 0usize;
    while reader.wants_more() {
        let end = std::cmp::min(pos + CHUNK_SIZE, body.len());
        reader.push(&body[pos..end]);
        pos = end;
        reads += 1;
    }
    (reader.text(), reads)
}

#[test]
fn select_resolves_each_stream() {
    let s = Streams::new(1u32, 2u32, 3u32);
    assert_eq!(*s.select(StreamType::InStream), 1);
    assert_eq!(*s.select(StreamType::OutStream), 2);
    assert_eq!(*s.select(StreamType::ErrStream), 3);
}

#[test]
fn c_text_terminates_and_refuses_nul() {
    assert_eq!(c_text(b"abc"), Some(vec![97, 98, 99, 0]));
    assert_eq!(c_text(b""), Some(vec![0]));
    assert_eq!(c_text(b"a\0b"), None);
}

#[test]
fn runtime_status() {
    assert!(Runtime::from_status(0).is_ready());
    assert!(!Runtime::from_status(-1).is_ready());
}

#[test]
fn construction_follows_init_status() {
    let rt = Runtime::from_status(0);
    let req = DefaultRequest::new(&rt, 0).unwrap();
    assert_eq!(req.phase(), Phase::Idle);
    assert!(DefaultRequest::new(&rt, -1).is_none());
}

#[test]
fn handle_is_inactive_before_first_accept() {
    let rt = Runtime::from_status(0);
    let mut req = DefaultRequest::new(&rt, 0).unwrap();
    assert!(!req.is_active());
    assert!(!req.accept(-1));
    assert!(!req.is_active());
    assert_eq!(req.phase(), Phase::Idle);
    assert!(req.accept(0));
    assert!(req.is_active());
}

#[test]
fn cycle_accept_finish_accept() {
    let mut req = active_request();
    req.finish();
    assert_eq!(req.phase(), Phase::Finished);
    assert!(!req.is_active());
    assert!(req.accept(0));
    assert_eq!(req.phase(), Phase::Active);
    req.finish();
    assert!(!req.accept(1));
    assert_eq!(req.phase(), Phase::Finished);
}

#[test]
fn get_param_absent_is_none() {
    let req = active_request();
    assert_eq!(req.get_param(None), None);
    assert_eq!(req.get_param(Some(b"")), Some(String::new()));
    assert_eq!(req.get_param(Some(b"/cpp/hello")), Some("/cpp/hello".to_string()));
}

#[test]
fn param_query_is_terminated() {
    let req = active_request();
    assert_eq!(req.param_query("REQUEST_URI"), Some(b"REQUEST_URI\0".to_vec()));
    assert_eq!(req.param_query("A\0B"), None);
}

#[test]
fn read_decodes_chunk() {
    let req = active_request();
    assert_eq!(req.read(512, b"Test"), ("Test".to_string(), 4));
    assert_eq!(req.read(4, b"a\xffb"), ("a\u{FFFD}b".to_string(), 3));
    assert_eq!(req.read(8, b""), (String::new(), 0));
}

#[test]
fn flush_targets_the_named_stream() {
    let req = active_request();
    let s = Streams::new("in", "out", "err");
    assert_eq!(*req.flush(&s, StreamType::OutStream), "out");
    assert_eq!(*req.flush(&s, StreamType::ErrStream), "err");
    assert_eq!(*req.flush(&s, StreamType::InStream), "in");
}

#[test]
fn readall_empty_body() {
    let (text, reads) = read_body(b"");
    assert_eq!(text, "");
    assert_eq!(reads, 1);
}

#[test]
fn readall_exact_chunk_boundary() {
    let body = vec![b'x'; 512];
    let (text, reads) = read_body(&body);
    assert_eq!(reads, 2);
    assert_eq!(text.len(), 512);
    assert_eq!(text.as_bytes(), &body[..]);
}

#[test]
fn readall_round_trip_across_chunks() {
    let mut original = String::from("a");
    for _ in 0..700 {
        original.push('\u{e9}');
    }
    let (text, reads) = read_body(original.as_bytes());
    assert_eq!(text, original);
    assert_eq!(reads, original.len() / 512 + 1);
}

#[test]
fn reader_stops_on_short_chunk() {
    let mut reader = BodyReader::new();
    reader.push(&[b'a'; 512]);
    assert!(reader.wants_more());
    reader.push(b"bc");
    assert!(!reader.wants_more());
    assert_eq!(reader.text().len(), 514);
}

#[test]
fn reader_text_replaces_invalid_bytes() {
    let mut reader = BodyReader::new();
    reader.push(b"\xff");
    assert_eq!(reader.text(), "\u{FFFD}");
}

#[test]
fn headers_only_response() {
    let mut req = active_request();
    let (body, _) = read_body(b"");
    let mut sent: Vec<u8> = Vec::new();
    for msg in ["Content-type: text/plain\r\n\r\n", body.as_str()] {
        let t = req.write(msg).unwrap();
        sent.extend_from_slice(&t[..t.len() - 1]);
    }
    req.finish();
    assert_eq!(sent, b"Content-type: text/plain\r\n\r\n".to_vec());
    assert_eq!(req.phase(), Phase::Finished);
}

#[test]
fn accept_false_first_stops_loop() {
    let mut w = Worker::new();
    let mut served = 0;
    loop {
        w.lock_taken();
        assert!(w.holds_lock());
        if !w.accepted(false) {
            break;
        }
        served += 1;
        w.finished();
    }
    assert_eq!(served, 0);
    assert_eq!(w.phase(), WorkerPhase::Stopped);
    assert!(!w.holds_lock());
}

#[test]
fn worker_releases_lock_before_serving() {
    let mut a = Worker::new();
    let mut b = Worker::new();
    a.lock_taken();
    assert!(a.accepted(true));
    assert!(!a.holds_lock());
    b.lock_taken();
    assert!(b.holds_lock());
    a.finished();
    assert_eq!(a.phase(), WorkerPhase::Waiting);
    assert!(b.accepted(true));
    assert_eq!(b.phase(), WorkerPhase::Serving);
}
