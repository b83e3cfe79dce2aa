use zvuk_dl::run::Action;
use zvuk_dl::run::DownloadRequest;
use zvuk_dl::run::Event;
use zvuk_dl::run::Run;
use zvuk_dl::run::start;

fn new_request() -> DownloadRequest {
    DownloadRequest {
        id: "123".to_string(),
        hash: "abc".to_string(),
        auth_token: "token".to_string(),
    }
}

fn both_tiers_body() -> String {
    "{\"data\":{\"mediaContents\":[{\"stream\":{\"expire\":1,\"high\":\"http://h/a.flac\",\"mid\":\"http://h/b.mp3\"}}]}}"
        .to_string()
}

fn expect_fetch(a: Action) -> String {
    match a {
        Action::CallFetch { url } => url,
        _ => panic!("expected a fetch action"),
    }
}

fn expect_write(a: Action) -> (String, String, Vec<u8>) {
    match a {
        Action::CallWrite { dir, path, bytes } => (dir, path, bytes),
        _ => panic!("expected a write action"),
    }
}

fn expect_respond(a: Action) -> (bool, String) {
    match a {
        Action::Respond { ok, error } => (ok, error),
        _ => panic!("expected a respond action"),
    }
}

fn started() -> Run {
    let req = new_request();
    let (run, action) = start("cache", &req);
    match action {
        Action::CallResolve { body } => {
            assert!(body.contains("[\"123\"]"));
            assert!(body.contains("getStream"));
        },
        _ => panic!("expected a resolve action"),
    }
    run
}

#[test]
fn full_success_writes_best_and_mid() {
    let run = started();
    let (run, a1) = run.step(Event::ResolveResponse { status: 200, body: Some(both_tiers_body()) });
    assert_eq!(expect_fetch(a1), "http://h/a.flac");
    let (run, a2) = run.step(Event::FetchOk {
        content_type: Some("audio/flac".to_string()),
        bytes: vec![1, 2, 3],
    });
    let (dir, path, bytes) = expect_write(a2);
    assert_eq!(dir, "cache/abc/zvuk");
    assert_eq!(path, "cache/abc/zvuk/best.flac");
    assert_eq!(bytes, vec![1, 2, 3]);
    let (run, a3) = run.step(Event::WriteDone { ok: true });
    assert_eq!(expect_fetch(a3), "http://h/b.mp3");
    let (run, a4) = run.step(Event::FetchOk { content_type: None, bytes: vec![9, 9] });
    let (_, path2, bytes2) = expect_write(a4);
    assert_eq!(path2, "cache/abc/zvuk/mid");
    assert_eq!(bytes2, vec![9, 9]);
    let (_run, a5) = run.step(Event::WriteDone { ok: true });
    let (ok, error) = expect_respond(a5);
    assert!(ok);
    assert_eq!(error, "");
}

#[test]
fn missing_mid_writes_best_only_and_completes() {
    let run = started();
    let body = "{\"data\":{\"mediaContents\":[{\"stream\":{\"expire\":1,\"high\":\"http://h/a.flac\"}}]}}";
    let (run, a1) = run.step(Event::ResolveResponse { status: 200, body: Some(body.to_string()) });
    assert_eq!(expect_fetch(a1), "http://h/a.flac");
    let (run, a2) = run.step(Event::FetchOk {
        content_type: Some("audio/flac".to_string()),
        bytes: vec![4, 5],
    });
    let (_, path, _) = expect_write(a2);
    assert_eq!(path, "cache/abc/zvuk/best.flac");
    let (_run, a3) = run.step(Event::WriteDone { ok: true });
    let (ok, error) = expect_respond(a3);
    assert!(ok);
    assert_eq!(error, "");
}

#[test]
fn non_string_tier_field_counts_as_absent() {
    let run = started();
    let body = "{\"data\":{\"mediaContents\":[{\"stream\":{\"high\":5,\"mid\":\"http://h/b.mp3\"}}]}}";
    let (_run, a1) = run.step(Event::ResolveResponse { status: 200, body: Some(body.to_string()) });
    assert_eq!(expect_fetch(a1), "http://h/b.mp3");
}

#[test]
fn bad_status_fails_and_names_the_status() {
    let run = started();
    let (_run, a1) = run.step(Event::ResolveResponse { status: 401, body: Some(both_tiers_body()) });
    let (ok, error) = expect_respond(a1);
    assert!(!ok);
    assert_eq!(error, "upstream API error: status 401");
}

#[test]
fn transport_failure_fails_resolution() {
    let run = started();
    let (_run, a1) = run.step(Event::ResolveFailed);
    let (ok, error) = expect_respond(a1);
    assert!(!ok);
    assert_eq!(error, "upstream request failed");
}

#[test]
fn unreadable_resolve_body_fails_resolution() {
    let run = started();
    let (_run, a1) = run.step(Event::ResolveResponse { status: 200, body: None });
    let (ok, error) = expect_respond(a1);
    assert!(!ok);
    assert_eq!(error, "upstream request failed");
}

#[test]
fn malformed_body_is_a_declared_error() {
    let run = started();
    let (_run, a1) = run.step(Event::ResolveResponse { status: 200, body: Some("not json".to_string()) });
    let (ok, error) = expect_respond(a1);
    assert!(!ok);
    assert_eq!(error, "upstream response was not parseable");
}

#[test]
fn no_stream_field_is_a_declared_error() {
    let run = started();
    let body = "{\"data\":{\"mediaContents\":[{\"stream\":{\"expire\":1}}]}}";
    let (_run, a1) = run.step(Event::ResolveResponse { status: 200, body: Some(body.to_string()) });
    let (ok, error) = expect_respond(a1);
    assert!(!ok);
    assert_eq!(error, "upstream response held no stream URL");
}

#[test]
fn timeout_yields_failed_outcome() {
    let run = started();
    let (run, _a1) = run.step(Event::ResolveResponse { status: 200, body: Some(both_tiers_body()) });
    let (_run, a2) = run.step(Event::TimedOut);
    let (ok, error) = expect_respond(a2);
    assert!(!ok);
    assert_eq!(error, "download timed out");
}

#[test]
fn fault_is_contained_in_the_outcome() {
    let run = started();
    let (_run, a1) = run.step(Event::Fault { message: "boom".to_string() });
    let (ok, error) = expect_respond(a1);
    assert!(!ok);
    assert_eq!(error, "internal fault: boom");
}

#[test]
fn all_tiers_failing_fails_with_first_failure() {
    let run = started();
    let (run, _a1) = run.step(Event::ResolveResponse { status: 200, body: Some(both_tiers_body()) });
    let (run, a2) = run.step(Event::FetchFailed { read_failed: false });
    assert_eq!(expect_fetch(a2), "http://h/b.mp3");
    let (_run, a3) = run.step(Event::FetchFailed { read_failed: true });
    let (ok, error) = expect_respond(a3);
    assert!(!ok);
    assert_eq!(error, "download failed: best: fetch failed");
}

#[test]
fn one_failed_tier_still_counts_as_success() {
    let run = started();
    let (run, _a1) = run.step(Event::ResolveResponse { status: 200, body: Some(both_tiers_body()) });
    let (run, _a2) = run.step(Event::FetchFailed { read_failed: false });
    let (run, _a3) = run.step(Event::FetchOk { content_type: None, bytes: vec![7] });
    let (_run, a4) = run.step(Event::WriteDone { ok: true });
    let (ok, error) = expect_respond(a4);
    assert!(ok);
    assert_eq!(error, "");
}

#[test]
fn persist_failure_on_only_tier_fails() {
    let run = started();
    let body = "{\"data\":{\"mediaContents\":[{\"stream\":{\"high\":\"http://h/a.flac\"}}]}}";
    let (run, _a1) = run.step(Event::ResolveResponse { status: 200, body: Some(body.to_string()) });
    let (run, _a2) = run.step(Event::FetchOk { content_type: None, bytes: vec![7] });
    let (_run, a3) = run.step(Event::WriteDone { ok: false });
    let (ok, error) = expect_respond(a3);
    assert!(!ok);
    assert_eq!(error, "download failed: best: persist failed");
}

#[test]
fn read_failure_message_names_the_tier() {
    let run = started();
    let body = "{\"data\":{\"mediaContents\":[{\"stream\":{\"mid\":\"http://h/b.mp3\"}}]}}";
    let (run, a1) = run.step(Event::ResolveResponse { status: 200, body: Some(body.to_string()) });
    assert_eq!(expect_fetch(a1), "http://h/b.mp3");
    let (_run, a2) = run.step(Event::FetchFailed { read_failed: true });
    let (ok, error) = expect_respond(a2);
    assert!(!ok);
    assert_eq!(error, "download failed: mid: body read failed");
}

#[test]
fn finished_run_keeps_answering_the_same_outcome() {
    let run = started();
    let (run, a1) = run.step(Event::ResolveResponse { status: 503, body: None });
    let (_, first) = expect_respond(a1);
    let (run, a2) = run.step(Event::WriteDone { ok: true });
    let (ok, again) = expect_respond(a2);
    assert!(!ok);
    assert_eq!(first, again);
    let (_run, a3) = run.step(Event::TimedOut);
    let (_, third) = expect_respond(a3);
    assert_eq!(first, third);
}

#[test]
fn mismatched_event_becomes_an_internal_fault() {
    let run = started();
    let (_run, a1) = run.step(Event::WriteDone { ok: true });
    let (ok, error) = expect_respond(a1);
    assert!(!ok);
    assert_eq!(error, "internal fault: event did not match the run phase");
}

#[test]
fn identical_reruns_write_identical_paths() {
    let mut paths1: Vec<String> = Vec::new();
    let mut paths2: Vec<String> = Vec::new();
    for paths in [&mut paths1, &mut paths2] {
        let run = started();
        let (run, _a1) = run.step(Event::ResolveResponse { status: 200, body: Some(both_tiers_body()) });
        let (run, a2) = run.step(Event::FetchOk {
            content_type: Some("audio/flac".to_string()),
            bytes: vec![1],
        });
        paths.push(expect_write(a2).1);
        let (run, _a3) = run.step(Event::WriteDone { ok: true });
        let (run, a4) = run.step(Event::FetchOk {
            content_type: Some("audio/flac".to_string()),
            bytes: vec![1],
        });
        paths.push(expect_write(a4).1);
        let (_run, a5) = run.step(Event::WriteDone { ok: true });
        let (ok, _) = expect_respond(a5);
        assert!(ok);
    }
    assert_eq!(paths1, paths2);
    assert_ne!(paths1[0], paths1[1]);
}
