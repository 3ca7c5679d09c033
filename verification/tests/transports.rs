use libonebot::action::ActionRegistry;
use libonebot::bus::EventBus;
use libonebot::codec::event_frame_text;
use libonebot::comm::{Connection, Frame, HTTPWebHook, WebSocketReverse, HTTP};
use libonebot::event::{Event, Notice};
use libonebot::message::Message;
use libonebot::{OneBot, User};

type Handler = fn(serde_json::Value) -> Result<String, String>;

fn echo_handler(v: serde_json::Value) -> Result<String, String> {
    match serde_json::to_string(&v) {
        Ok(s) => Ok(s),
        Err(e) => Err(e.to_string()),
    }
}

fn notice_event(id: &str, self_id: &str) -> Event {
    Event::new(id).time(1).bot_user(User::new(self_id)).notice(Notice {})
}

#[test]
fn echo_request_over_a_connection_returns_its_params() {
    let bus: EventBus<Event> = EventBus::new(8);
    let mut reg: ActionRegistry<Handler> = ActionRegistry::new();
    reg.register("echo", echo_handler);
    let mut conn = Connection::open(&bus);
    conn.on_inbound(&reg, "{\"action\":\"echo\",\"params\":{\"x\":1}}");
    match conn.next_outbound() {
        Some(Frame::Response(s)) => assert_eq!(s, "{\"x\":1}"),
        _ => panic!("expected one response frame"),
    }
    assert!(conn.next_outbound().is_none());
}

#[test]
fn connected_client_receives_the_stamped_event_frame() {
    let mut ob: OneBot<Handler> = OneBot::new("demo", 8);
    ob.set_self_id("123");
    let mut conn = Connection::open(&ob.bus);
    let msg = Message::build("m1").text("hello").private(User::new("u1"));
    ob.emit_event(Event::new("e1").time(7).message(msg));
    assert!(conn.pump_bus(&ob.bus, &ob.platform));
    match conn.next_outbound() {
        Some(Frame::Event(s)) => {
            assert!(s.contains("\"platform\":\"demo\""));
            assert!(s.contains("\"self_id\":\"123\""));
        },
        _ => panic!("expected one event frame"),
    }
}

#[test]
fn interleaved_flows_never_corrupt_either_stream() {
    let mut bus: EventBus<Event> = EventBus::new(16);
    let mut reg: ActionRegistry<Handler> = ActionRegistry::new();
    reg.register("echo", echo_handler);
    let mut conn = Connection::open(&bus);

    bus.publish(notice_event("e1", "1"));
    conn.pump_bus(&bus, "p");
    conn.on_inbound(&reg, "{\"action\":\"echo\",\"params\":1}");
    bus.publish(notice_event("e2", "1"));
    conn.on_inbound(&reg, "{\"action\":\"echo\",\"params\":2}");
    conn.pump_bus(&bus, "p");

    let mut events: Vec<String> = Vec::new();
    let mut responses: Vec<String> = Vec::new();
    while let Some(frame) = conn.next_outbound() {
        match frame {
            Frame::Event(s) => {
                // each frame is one whole, well-formed envelope
                serde_json::from_str::<serde_json::Value>(&s).expect("intact event frame");
                events.push(s);
            },
            Frame::Response(s) => {
                serde_json::from_str::<serde_json::Value>(&s).expect("intact response frame");
                responses.push(s);
            },
        }
    }
    assert_eq!(events.len(), 2);
    assert!(events[0].contains("\"id\":\"e1\""));
    assert!(events[1].contains("\"id\":\"e2\""));
    assert_eq!(responses, vec!["1".to_string(), "2".to_string()]);
}

#[test]
fn a_bad_frame_answers_without_dropping_the_connection() {
    let bus: EventBus<Event> = EventBus::new(4);
    let mut reg: ActionRegistry<Handler> = ActionRegistry::new();
    reg.register("echo", echo_handler);
    let mut conn = Connection::open(&bus);
    conn.on_inbound(&reg, "garbage");
    conn.on_inbound(&reg, "{\"action\":\"echo\",\"params\":true}");
    match conn.next_outbound() {
        Some(Frame::Response(s)) => {
            assert_eq!(s, "{\"status\":\"failed\",\"error\":\"invalid_frame\"}")
        },
        _ => panic!("expected the error response first"),
    }
    match conn.next_outbound() {
        Some(Frame::Response(s)) => assert_eq!(s, "true"),
        _ => panic!("the connection must still answer after a bad frame"),
    }
}

#[test]
fn forwarder_issues_exactly_one_call_per_event() {
    let mut bus: EventBus<Event> = EventBus::new(8);
    let hook = HTTPWebHook::new("http://sink.example/hook").secret("s3cr3t");
    let mut sub = bus.subscribe();
    let events = [notice_event("a", "1"), notice_event("b", "1"), notice_event("c", "1")];
    let mut expected_bodies: Vec<String> = Vec::new();
    for e in events {
        expected_bodies.push(event_frame_text(&e, "demo"));
        bus.publish(e);
    }
    let mut calls: Vec<String> = Vec::new();
    while let Some(req) = hook.pump(&bus, &mut sub, "demo") {
        assert_eq!(req.url, "http://sink.example/hook");
        assert_eq!(req.secret.as_deref(), Some("s3cr3t"));
        assert_eq!(req.timeout_ms, 5000);
        calls.push(req.body);
    }
    assert_eq!(calls, expected_bodies);
}

#[test]
fn forwarder_makes_no_call_for_a_loss_report() {
    let mut bus: EventBus<Event> = EventBus::new(1);
    let hook = HTTPWebHook::new("http://sink");
    let mut sub = bus.subscribe();
    bus.publish(notice_event("a", "1"));
    bus.publish(notice_event("b", "1"));
    // the first pump observes the loss, not an event
    assert!(hook.pump(&bus, &mut sub, "p").is_none());
    // the next pump forwards the retained event
    let req = hook.pump(&bus, &mut sub, "p").expect("one call for the retained event");
    assert!(req.body.contains("\"id\":\"b\""));
    assert!(hook.pump(&bus, &mut sub, "p").is_none());
}

#[test]
fn forwarder_timeout_is_configurable_with_a_short_default() {
    let hook = HTTPWebHook::new("http://sink");
    let e = notice_event("a", "1");
    assert_eq!(hook.forward_event(&e, "p").timeout_ms, 5000);
    let hook2 = HTTPWebHook::new("http://sink").timeout(250);
    assert_eq!(hook2.forward_event(&e, "p").timeout_ms, 250);
}

#[test]
fn sync_listener_answers_an_unregistered_action_with_an_error_response() {
    let listener = HTTP::new("127.0.0.1", 5700);
    let reg: ActionRegistry<Handler> = ActionRegistry::new();
    let r = listener.handle_request(&reg, "{\"action\":\"nope\",\"params\":{}}");
    assert_eq!(r, "{\"status\":\"failed\",\"error\":\"unknown_action\",\"action\":\"nope\"}");
}

#[test]
fn sync_listener_serves_a_registered_action() {
    let listener = HTTP::new("127.0.0.1", 5700);
    let mut reg: ActionRegistry<Handler> = ActionRegistry::new();
    reg.register("echo", echo_handler);
    assert_eq!(listener.handle_request(&reg, "{\"action\":\"echo\",\"params\":[]}"), "[]");
}

#[test]
fn reverse_client_backs_off_exponentially_up_to_a_cap() {
    let w = WebSocketReverse::new("ws://upstream");
    assert_eq!(w.backoff_delay(0), 5000);
    assert_eq!(w.backoff_delay(1), 10000);
    assert_eq!(w.backoff_delay(2), 20000);
    assert_eq!(w.backoff_delay(3), 40000);
    assert_eq!(w.backoff_delay(4), 60000);
    assert_eq!(w.backoff_delay(30), 60000);
    let mut custom = WebSocketReverse::new("ws://upstream");
    custom.reconnect_interval = Some(100);
    assert_eq!(custom.backoff_delay(0), 100);
    assert_eq!(custom.backoff_delay(3), 800);
}
