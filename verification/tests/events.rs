use dht_console::events::{describe, drain, Consumer, Event, PersistentElement};

fn element(topic: &str, uuid: &str, value: &str, deleted: bool) -> PersistentElement {
    PersistentElement {
        topic: topic.to_string(),
        uuid: uuid.to_string(),
        value: value.to_string(),
        deleted,
    }
}

fn script() -> Vec<Event> {
    vec![
        Event::ReadyPeers(vec!["peer-a".to_string(), "peer-b".to_string()]),
        Event::VolatileData("{\"message\":\"hello\"}".to_string()),
        Event::PersistentData(element("topic1", "uuid1", "{\"x\":1}", false)),
    ]
}

#[test]
fn describe_ready_peers() {
    assert_eq!(
        describe(&Event::ReadyPeers(vec!["a".to_string(), "b".to_string(), "c".to_string()])),
        "Peers ready a, b, c"
    );
    assert_eq!(describe(&Event::ReadyPeers(vec!["only".to_string()])), "Peers ready only");
    assert_eq!(describe(&Event::ReadyPeers(vec![])), "Peers ready ");
}

#[test]
fn describe_volatile_data() {
    assert_eq!(describe(&Event::VolatileData("{\"a\":1}".to_string())), "Got data {\"a\":1}");
}

#[test]
fn describe_persistent_data() {
    assert_eq!(
        describe(&Event::PersistentData(element("topic1", "uuid1", "{\"x\":1}", false))),
        "Got elem topic1 uuid1 {\"x\":1}"
    );
    assert_eq!(
        describe(&Event::PersistentData(element("topic1", "uuid1", "null", true))),
        "Got elem topic1 uuid1 null (deleted)"
    );
}

#[test]
fn scripted_events_are_logged_in_order() {
    assert_eq!(
        drain(&script()),
        vec![
            "Peers ready peer-a, peer-b".to_string(),
            "Got data {\"message\":\"hello\"}".to_string(),
            "Got elem topic1 uuid1 {\"x\":1}".to_string(),
        ]
    );
}

#[test]
fn scripted_events_in_another_order_are_logged_in_that_order() {
    let mut events = script();
    events.reverse();
    assert_eq!(
        drain(&events),
        vec![
            "Got elem topic1 uuid1 {\"x\":1}".to_string(),
            "Got data {\"message\":\"hello\"}".to_string(),
            "Peers ready peer-a, peer-b".to_string(),
        ]
    );
}

#[test]
fn draining_nothing_logs_nothing() {
    assert_eq!(drain(&vec![]), Vec::<String>::new());
}

#[test]
fn draining_logs_one_line_for_each_event() {
    let mut events = script();
    events.extend(script());
    let lines = drain(&events);
    assert_eq!(lines.len(), 6);
    for (event, line) in events.iter().zip(lines.iter()) {
        assert_eq!(&describe(event), line);
    }
}

#[test]
fn consumer_logs_each_event_as_it_comes() {
    let mut consumer = Consumer::Listening;
    let mut logged = Vec::new();
    for event in script() {
        logged.push(consumer.observe(Some(&event)));
        assert_eq!(consumer, Consumer::Listening);
    }
    assert_eq!(
        logged,
        vec![
            Some("Peers ready peer-a, peer-b".to_string()),
            Some("Got data {\"message\":\"hello\"}".to_string()),
            Some("Got elem topic1 uuid1 {\"x\":1}".to_string()),
        ]
    );
}

#[test]
fn consumer_stops_when_the_stream_ends() {
    let mut consumer = Consumer::Listening;
    assert_eq!(consumer.observe(None), None);
    assert_eq!(consumer, Consumer::Stopped);
}

#[test]
fn consumer_that_stopped_logs_nothing_more() {
    let mut consumer = Consumer::Stopped;
    assert_eq!(consumer.observe(Some(&Event::VolatileData("1".to_string()))), None);
    assert_eq!(consumer, Consumer::Stopped);
    assert_eq!(consumer.observe(None), None);
    assert_eq!(consumer, Consumer::Stopped);
}
