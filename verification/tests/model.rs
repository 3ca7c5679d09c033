use libonebot::event::{Event, EventContent, Notice};
use libonebot::message::{Media, Message, MessageSegment, MessageSource};
use libonebot::{Group, OneBot, User};

type Handler = fn(serde_json::Value) -> Result<String, String>;

#[test]
fn user_starts_with_only_its_id() {
    let u = User::new("u1");
    assert_eq!(u.id, "u1");
    assert_eq!(u.username, "");
    assert_eq!(u.nickname, "");
    assert_eq!(u.display_name, "");
    assert!(u.extended.is_empty());
}

#[test]
fn duplicate_copies_every_field() {
    let mut u = User::new("u1");
    u.username = "ada".to_string();
    u.extended = vec![("k".to_string(), "v".to_string())];
    let d = u.duplicate();
    assert_eq!(d.id, u.id);
    assert_eq!(d.username, u.username);
    assert_eq!(d.extended, u.extended);
}

#[test]
fn message_builder_collects_segments_in_order() {
    let m = Message::build("m1").text("a").emoji("e").reply("r").private(User::new("u"));
    assert_eq!(m.id, "m1");
    assert_eq!(m.content.len(), 3);
    assert!(matches!(&m.content[0], MessageSegment::Text(t) if t == "a"));
    assert!(matches!(&m.content[1], MessageSegment::Emoji(t) if t == "e"));
    assert!(matches!(&m.content[2], MessageSegment::Reply(t) if t == "r"));
    match &m.source {
        MessageSource::Private(u) => assert_eq!(u.id, "u"),
        _ => panic!("expected a private source"),
    }
    assert_eq!(m.sender.id, "u");
}

#[test]
fn finished_messages_can_still_take_segments() {
    let m = Message::build("m").private(User::new("u")).text("late").location(1, 2);
    assert_eq!(m.content.len(), 2);
    assert!(matches!(&m.content[1], MessageSegment::Location(1, 2)));
}

#[test]
fn group_messages_carry_group_and_sender() {
    let m = Message::build("m").group(Group::new("g1", "club"), User::new("s1"));
    match &m.source {
        MessageSource::Group(g) => assert_eq!(g.id, "g1"),
        _ => panic!("expected a group source"),
    }
    assert_eq!(m.sender.id, "s1");
}

#[test]
fn media_constructors_tag_their_variant() {
    assert!(matches!(Media::new_file("f"), Media::File(s) if s == "f"));
    assert!(matches!(Media::new_url("u"), Media::URL(s) if s == "u"));
    assert!(matches!(Media::new_base64("b"), Media::Base64(s) if s == "b"));
}

#[test]
fn event_builder_settles_identity_platform_and_payload() {
    let e = Event::new("e1").platform("p").time(9).bot_user(User::new("7")).notice(Notice {});
    assert_eq!(e.id, "e1");
    assert_eq!(e.platform, "p");
    assert_eq!(e.time, 9);
    assert_eq!(e.bot_user.id, "7");
    assert!(matches!(e.content, EventContent::Notice(_)));
}

#[test]
fn event_setters_replace_one_field_each() {
    let e = Event::new("e").time(1).bot_user(User::new("1")).notice(Notice {});
    let e = e.platform("later").time(2).bot_user(User::new("2"));
    assert_eq!(e.platform, "later");
    assert_eq!(e.time, 2);
    assert_eq!(e.bot_user.id, "2");
}

#[test]
fn gateway_stamps_platform_and_bot_identity_at_publish_time() {
    let mut ob: OneBot<Handler> = OneBot::new("demo", 4);
    ob.set_self_id("123");
    let mut sub = ob.subscribe();
    ob.emit_event(
        Event::new("e").platform("spoofed").time(1).bot_user(User::new("999")).notice(Notice {}),
    );
    match ob.bus.poll(&mut sub) {
        libonebot::bus::BusPoll::Event(e) => {
            assert_eq!(e.platform, "demo");
            assert_eq!(e.bot_user.id, "123");
        },
        _ => panic!("expected the stamped event"),
    }
}

#[test]
fn gateway_without_identity_keeps_the_event_bot_user() {
    let mut ob: OneBot<Handler> = OneBot::new("demo", 4);
    let mut sub = ob.subscribe();
    ob.emit_event(Event::new("e").time(1).bot_user(User::new("42")).notice(Notice {}));
    match ob.bus.poll(&mut sub) {
        libonebot::bus::BusPoll::Event(e) => assert_eq!(e.bot_user.id, "42"),
        _ => panic!("expected the event"),
    }
}

#[test]
fn registered_handlers_are_dispatched_through_the_gateway_registry() {
    let mut ob: OneBot<Handler> = OneBot::new("demo", 4);
    ob.register_action_handler("ping", |_v| Ok("\"pong\"".to_string()));
    let r = ob.action_handlers.handle_frame_text("{\"action\":\"ping\",\"params\":null}");
    assert_eq!(r, "\"pong\"");
}
