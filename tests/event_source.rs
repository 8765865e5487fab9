use blaseball_watch::backoff::TimeOfHour;
use blaseball_watch::event_source::{EventSource, EventSourceError, Input, Message, Step};

fn connected(long_sleep: bool) -> EventSource {
    let mut es = EventSource::new("http://example.test/stream", long_sleep);
    assert!(matches!(es.step(Input::Pull), Step::Connect));
    assert!(matches!(es.step(Input::Connected), Step::Read));
    es
}

fn line(es: &mut EventSource, text: &str) -> Step {
    es.step(Input::Line(text.as_bytes().to_vec()))
}

/// Feeds the lines; all but the last must ask for another read, and the last
/// must deliver a message.
fn record(es: &mut EventSource, lines: &[&str]) -> Message {
    let (last, init) = lines.split_last().unwrap();
    for l in init {
        assert!(matches!(line(es, l), Step::Read), "line {:?}", l);
    }
    match line(es, last) {
        Step::Deliver(m) => m,
        other => panic!("expected a message, got {:?}", other),
    }
}

#[test]
fn event_and_data_message() {
    let mut es = connected(false);
    let m = record(&mut es, &["event: foo\n", "data: bar\n", "\n"]);
    assert_eq!(m.event.as_deref(), Some("foo"));
    assert_eq!(m.data, "bar\n");
    assert_eq!(m.last_event_id, None);
}

#[test]
fn two_data_lines_message() {
    let mut es = connected(false);
    let m = record(&mut es, &["data: a\n", "data: b\n", "\n"]);
    assert_eq!(m.event, None);
    assert_eq!(m.data, "a\nb\n");
}

#[test]
fn data_content_is_trimmed_and_one_space_dropped() {
    let mut es = connected(false);
    let m = record(&mut es, &["data:x  \n", "data:  y\t\n", "data:\n", "\n"]);
    assert_eq!(m.data, "x\n y\n\n");
}

#[test]
fn colon_inside_content_is_kept() {
    let mut es = connected(false);
    let m = record(&mut es, &["data: {\"a\":1}\n", "\n"]);
    assert_eq!(m.data, "{\"a\":1}\n");
}

#[test]
fn records_start_empty_after_dispatch() {
    let mut es = connected(false);
    let m1 = record(&mut es, &["event: one\n", "data: 1\n", "\n"]);
    let m2 = record(&mut es, &["data: 2\n", "\n"]);
    assert_eq!(m1.event.as_deref(), Some("one"));
    assert_eq!(m2.event, None);
    assert_eq!(m2.data, "2\n");
}

#[test]
fn last_event_id_is_sticky() {
    let mut es = connected(false);
    let m1 = record(&mut es, &["id: abc\n", "data: 1\n", "\n"]);
    let m2 = record(&mut es, &["data: 2\n", "\n"]);
    assert_eq!(m1.last_event_id.as_deref(), Some("abc"));
    assert_eq!(m2.last_event_id.as_deref(), Some("abc"));
}

#[test]
fn id_with_null_is_ignored() {
    let mut es = connected(false);
    let _ = record(&mut es, &["id: abc\n", "\n"]);
    let m = record(&mut es, &["id: x\0y\n", "data: 2\n", "\n"]);
    assert_eq!(m.last_event_id.as_deref(), Some("abc"));
    assert_eq!(es.last_event_id().as_deref(), Some("abc"));
}

#[test]
fn retry_sets_reconnect_delay() {
    let mut es = connected(false);
    assert_eq!(es.delay_ms(), 3000);
    assert!(matches!(line(&mut es, "retry: 5000\n"), Step::Read));
    assert_eq!(es.delay_ms(), 5000);
    assert!(matches!({ let f = es.transport_failure(); es.step(f) }, Step::Sleep(5_000_000_000)));
}

#[test]
fn retry_not_a_number_is_ignored() {
    let mut es = connected(false);
    assert!(matches!(line(&mut es, "retry: foo\n"), Step::Read));
    assert!(matches!(line(&mut es, "retry: -5\n"), Step::Read));
    assert!(matches!(line(&mut es, "retry: 99999999999\n"), Step::Read));
    assert_eq!(es.delay_ms(), 3000);
    assert!(matches!({ let f = es.transport_failure(); es.step(f) }, Step::Sleep(3_000_000_000)));
}

#[test]
fn comment_lines_contribute_nothing() {
    let mut es = connected(false);
    let m = record(
        &mut es,
        &[": comment\n", ":data: x\n", ":id: q\n", ":retry: 10\n", ":event: e\n", "data: y\n", "\n"],
    );
    assert_eq!(m.event, None);
    assert_eq!(m.data, "y\n");
    assert_eq!(m.last_event_id, None);
    assert_eq!(es.delay_ms(), 3000);
}

#[test]
fn line_without_colon_is_ignored() {
    let mut es = connected(false);
    let m = record(&mut es, &["event: e\n", "data: 1\n", "garbage\n", "data\n", "data: 2\n", "\n"]);
    assert_eq!(m.event.as_deref(), Some("e"));
    assert_eq!(m.data, "1\n2\n");
}

#[test]
fn unknown_field_is_ignored() {
    let mut es = connected(false);
    let m = record(&mut es, &["other: 1\n", "data: 2\n", "\n"]);
    assert_eq!(m.data, "2\n");
}

#[test]
fn transport_failure_discards_partial_record() {
    let mut es = connected(false);
    let _ = record(&mut es, &["id: 7\n", "\n"]);
    assert!(matches!(line(&mut es, "event: stale\n"), Step::Read));
    assert!(matches!(line(&mut es, "data: stale\n"), Step::Read));
    assert!(matches!({ let f = es.transport_failure(); es.step(f) }, Step::Sleep(3_000_000_000)));
    assert!(matches!(es.step(Input::Slept), Step::Connect));
    assert!(matches!(es.step(Input::Connected), Step::Read));
    let m = record(&mut es, &["data: fresh\n", "\n"]);
    assert_eq!(m.event, None);
    assert_eq!(m.data, "fresh\n");
    assert_eq!(m.last_event_id.as_deref(), Some("7"));
}

#[test]
fn failed_request_retries() {
    let mut es = EventSource::new("http://example.test/stream", false);
    assert!(matches!(es.step(Input::Pull), Step::Connect));
    assert!(matches!({ let f = es.transport_failure(); es.step(f) }, Step::Sleep(3_000_000_000)));
    assert!(matches!(es.step(Input::Slept), Step::Connect));
    assert!(!es.is_finished());
}

#[test]
fn no_content_ends_for_good() {
    let mut es = EventSource::new("http://example.test/stream", false);
    assert!(matches!(es.step(Input::Pull), Step::Connect));
    assert!(matches!(es.step(Input::NoContent), Step::End));
    assert!(es.is_finished());
    assert!(matches!(es.step(Input::Pull), Step::End));
    assert!(matches!(es.step(Input::Connected), Step::End));
    assert!(matches!({ let f = es.transport_failure(); es.step(f) }, Step::End));
}

#[test]
fn end_of_body_ends_sequence() {
    let mut es = connected(false);
    assert!(matches!(line(&mut es, "data: partial\n"), Step::Read));
    assert!(matches!(es.step(Input::Line(Vec::new())), Step::End));
    assert!(es.is_finished());
    assert!(matches!(es.step(Input::Pull), Step::End));
}

#[test]
fn invalid_utf8_fails_sequence() {
    let mut es = connected(false);
    match es.step(Input::Line(vec![b'd', b':', 0xff, b'\n'])) {
        Step::Fail(e) => {
            assert!(matches!(e, EventSourceError::UtfError(_)));
            assert_eq!(e.description(), "Error while converting to utf-8");
        }
        other => panic!("expected a failure, got {:?}", other),
    }
    assert!(matches!(es.step(Input::Pull), Step::End));
}

#[test]
fn pull_reads_while_connected() {
    let mut es = connected(false);
    assert!(matches!(es.step(Input::Pull), Step::Read));
    assert_eq!(es.url(), "http://example.test/stream");
}

#[test]
fn non_ascii_lines_are_decoded() {
    let mut es = connected(false);
    let m = record(&mut es, &["data: caf\u{e9} \u{26be}\n", "\n"]);
    assert_eq!(m.data, "caf\u{e9} \u{26be}\n");
}

#[test]
fn request_error_description() {
    let e = EventSourceError::UreqError(500, "oops".to_string());
    assert_eq!(e.description(), "Error while making request");
}

fn at(minute: u32, second: u32) -> TimeOfHour {
    TimeOfHour { minute, second, nanosecond: 0 }
}

#[test]
fn adaptive_delay_far_from_anchor() {
    let es = EventSource::new("u", true);
    // At 10 past, the anchor (57 past) is 47 minutes away: half of that.
    let d = es.calculate_delay(at(10, 0));
    assert_eq!(d, 47 * 60 * 1_000_000_000 / 2);
    assert!(d > 3_000_000_000);
}

#[test]
fn adaptive_delay_near_anchor_uses_base() {
    let es = EventSource::new("u", true);
    // Four seconds before the anchor: half is two seconds, below the base.
    assert_eq!(es.calculate_delay(at(56, 56)), 3_000_000_000);
}

#[test]
fn adaptive_delay_after_anchor_uses_base() {
    let es = EventSource::new("u", true);
    assert_eq!(es.calculate_delay(at(58, 30)), 3_000_000_000);
    assert_eq!(es.calculate_delay(TimeOfHour { minute: 59, second: 59, nanosecond: 1_500_000_000 }), 3_000_000_000);
}

#[test]
fn adaptive_delay_follows_retry() {
    let mut es = connected(true);
    assert!(matches!(line(&mut es, "retry: 1000000\n"), Step::Read));
    // 1000 s base; at 40 past, half of 17 minutes is 510 s, less than the base.
    assert_eq!(es.calculate_delay(at(40, 0)), 1_000_000_000_000);
    // at the top of the hour, half of 57 minutes is 1710 s.
    assert_eq!(es.calculate_delay(at(0, 0)), 1_710_000_000_000);
}

#[test]
fn adaptive_failure_waits_by_the_reported_time() {
    let mut es = connected(true);
    match es.step(Input::TransportFailure(at(10, 0))) {
        Step::Sleep(n) => assert_eq!(n, 1_410_000_000_000),
        other => panic!("expected a sleep, got {:?}", other),
    }
    assert!(matches!(es.step(Input::Slept), Step::Connect));
    assert!(matches!(es.step(Input::Connected), Step::Read));
    assert!(matches!(es.step(Input::TransportFailure(at(58, 0))), Step::Sleep(3_000_000_000)));
}

#[test]
fn adaptive_delay_rounds_half_up() {
    let mut es = connected(true);
    assert!(matches!(line(&mut es, "retry: 1\n"), Step::Read));
    // The anchor is 2 ms and 1 ns away: half of it, rounded up, exceeds 1 ms.
    let now = TimeOfHour { minute: 56, second: 59, nanosecond: 997_999_999 };
    assert_eq!(es.calculate_delay(now), 1_000_001);
    assert!(matches!(es.step(Input::TransportFailure(now)), Step::Sleep(1_000_001)));
}

#[test]
fn plain_failure_input_reads_no_clock() {
    let es = EventSource::new("u", false);
    match es.transport_failure() {
        Input::TransportFailure(t) => assert_eq!(t, TimeOfHour { minute: 0, second: 0, nanosecond: 0 }),
        _ => panic!("expected a transport failure"),
    }
}

#[test]
fn adaptive_failure_input_reads_clock() {
    let es = EventSource::new("u", true);
    match es.transport_failure() {
        Input::TransportFailure(t) => {
            assert!(t.minute < 60 && t.second < 60 && t.nanosecond < 2_000_000_000)
        }
        _ => panic!("expected a transport failure"),
    }
}

#[test]
fn apply_field_by_name_and_content() {
    let mut es = EventSource::new("u", false);
    es.apply_field(&['r', 'e', 't', 'r', 'y'], vec!['7', '5']);
    assert_eq!(es.delay_ms(), 75);
    es.apply_field(&['r', 'e', 't', 'r', 'y'], vec!['+', '1', '2']);
    assert_eq!(es.delay_ms(), 12);
    es.apply_field(&['i', 'd'], vec!['q']);
    assert_eq!(es.last_event_id().as_deref(), Some("q"));
    es.apply_field(&['I', 'd'], vec!['z']);
    assert_eq!(es.last_event_id().as_deref(), Some("q"));
}
