use elefren::Error;
use elefren::EventReader;
use elefren::EventStream;
use elefren::FrameDecoder;
use elefren::Pull;
use elefren::entities::event::Event;

/// A line source fed from a fixed script of read outcomes.
struct Script {
    reads: Vec<Result<Option<String>, Error>>,
    at: usize,
}

impl Script {
    fn new(lines: &[&str]) -> Script {
        Script { reads: lines.iter().map(|l| Ok(Some(l.to_string()))).collect(), at: 0 }
    }
}

impl EventStream for Script {
    fn read_message(&mut self) -> Result<Option<String>, Error> {
        if self.at < self.reads.len() {
            let r = match &self.reads[self.at] {
                Ok(v) => Ok(v.clone()),
                Err(_) => Err(Error::Io("read hiccup".to_string())),
            };
            self.at += 1;
            r
        } else {
            Ok(None)
        }
    }
}

/// Pull the reader to completion, collecting everything it emits.
fn collect_events(reader: &mut EventReader<Script>) -> Vec<Result<Event, Error>> {
    let mut out = Vec::new();
    loop {
        match reader.next() {
            Pull::Event(ev) => out.push(Ok(ev)),
            Pull::Bad(e) => out.push(Err(e)),
            Pull::Pending => {},
            Pull::Closed => return out,
        }
    }
}

#[test]
fn dialect_a_update_decodes_with_comments_interspersed() {
    let mut reader = EventReader::new(Script::new(&[
        ": keep-alive",
        "event: update",
        ": another comment",
        "",
        "data: {\"id\":\"1234\",\"content\":\"hi\"}",
    ]));
    let events = collect_events(&mut reader);
    assert_eq!(events.len(), 1);
    match &events[0] {
        Ok(Event::Update(status)) => {
            assert_eq!(status.json(), "{\"id\":\"1234\",\"content\":\"hi\"}");
        },
        other => panic!("expected one update, got {:?}", other),
    }
}

#[test]
fn dialect_b_single_line_envelope_decodes() {
    let mut reader = EventReader::new(Script::new(&["{\"event\":\"filters_changed\"}"]));
    let events = collect_events(&mut reader);
    assert_eq!(events.len(), 1);
    assert!(matches!(events[0], Ok(Event::FiltersChanged)));
}

#[test]
fn unknown_event_is_reported_and_stream_recovers() {
    let mut reader = EventReader::new(Script::new(&["event: bogus", "event: filters_changed"]));
    let events = collect_events(&mut reader);
    assert_eq!(events.len(), 2);
    match &events[0] {
        Err(Error::UnknownEvent(name)) => assert_eq!(name, "bogus"),
        other => panic!("expected an unknown-event error, got {:?}", other),
    }
    assert!(matches!(events[1], Ok(Event::FiltersChanged)));
}

#[test]
fn update_without_data_line_is_dropped_at_end_of_source() {
    let mut reader = EventReader::new(Script::new(&["event: update"]));
    let events = collect_events(&mut reader);
    assert!(events.is_empty());
}

#[test]
fn update_waits_for_its_data_line() {
    let mut decoder = FrameDecoder::new();
    assert!(decoder.push_line("event: update").is_none());
    assert!(decoder.push_line(": noise").is_none());
    let out = decoder.push_line("data: {\"id\":\"9\"}");
    match out {
        Some(Ok(Event::Update(status))) => assert_eq!(status.json(), "{\"id\":\"9\"}"),
        other => panic!("expected the update to complete, got {:?}", other),
    }
}

#[test]
fn dialect_b_missing_payload_is_an_error() {
    let mut decoder = FrameDecoder::new();
    let out = decoder.push_line("{\"event\":\"update\"}");
    match out {
        Some(Err(Error::MissingPayload(name))) => assert_eq!(name, "update"),
        other => panic!("expected a missing-payload error, got {:?}", other),
    }
}

#[test]
fn bad_json_payload_is_a_decode_error() {
    let mut decoder = FrameDecoder::new();
    assert!(decoder.push_line("event: update").is_none());
    let out = decoder.push_line("data: not json at all");
    assert!(matches!(out, Some(Err(Error::Decode))));
}

#[test]
fn delete_event_carries_the_id_verbatim() {
    let mut decoder = FrameDecoder::new();
    assert!(decoder.push_line("event: delete").is_none());
    let out = decoder.push_line("data: 123456");
    match out {
        Some(Ok(Event::Delete(id))) => assert_eq!(id, "123456"),
        other => panic!("expected a delete event, got {:?}", other),
    }
}

#[test]
fn notification_event_decodes_payload() {
    let mut decoder = FrameDecoder::new();
    assert!(decoder.push_line("event: notification").is_none());
    let out = decoder.push_line("data: {\"id\":\"n1\"}");
    match out {
        Some(Ok(Event::Notification(n))) => assert_eq!(n.json(), "{\"id\":\"n1\"}"),
        other => panic!("expected a notification, got {:?}", other),
    }
}

#[test]
fn dialect_b_envelope_with_payload_decodes() {
    let mut decoder = FrameDecoder::new();
    let out = decoder.push_line("{\"event\":\"delete\",\"payload\":\"77\"}");
    match out {
        Some(Ok(Event::Delete(id))) => assert_eq!(id, "77"),
        other => panic!("expected a delete event, got {:?}", other),
    }
}

#[test]
fn non_envelope_line_keeps_accumulating() {
    let mut decoder = FrameDecoder::new();
    assert!(decoder.push_line("random garbage").is_none());
    assert!(decoder.push_line("event: filters_changed").is_none() == false);
}

#[test]
fn transient_read_error_does_not_end_the_stream() {
    let mut script = Script::new(&["{\"event\":\"filters_changed\"}"]);
    script.reads.insert(0, Err(Error::Io("read hiccup".to_string())));
    let mut reader = EventReader::new(script);
    assert!(matches!(reader.next(), Pull::Pending));
    assert!(matches!(reader.next(), Pull::Event(Event::FiltersChanged)));
    assert!(matches!(reader.next(), Pull::Closed));
}
