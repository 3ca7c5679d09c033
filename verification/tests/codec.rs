use libonebot::codec::event_frame_text;
use libonebot::event::{Event, Meta, Notice, Request};
use libonebot::message::{Media, Message};
use libonebot::{Group, User};

#[test]
fn notice_envelope_has_exactly_the_first_six_members() {
    let e = Event::new("n1").time(5).bot_user(User::new("42")).notice(Notice {});
    assert_eq!(
        event_frame_text(&e, "p"),
        r#"{"id":"n1","platform":"p","time":5,"self_id":"42","type":"notice","sub_type":""}"#
    );
}

#[test]
fn request_and_meta_envelopes_carry_their_type() {
    let e = Event::new("r1").time(0).bot_user(User::new("1")).request(Request {
        flag: "f".to_string(),
    });
    assert_eq!(
        event_frame_text(&e, "p"),
        r#"{"id":"r1","platform":"p","time":0,"self_id":"1","type":"request","sub_type":""}"#
    );
    let m = Event::new("m1").time(0).bot_user(User::new("1")).meta(Meta { extended: vec![] });
    assert_eq!(
        event_frame_text(&m, "p"),
        r#"{"id":"m1","platform":"p","time":0,"self_id":"1","type":"meta","sub_type":""}"#
    );
}

#[test]
fn private_message_envelope_lists_every_message_member() {
    let msg = Message::build("m7").text("hi").private(User::new("u1"));
    let e = Event::new("e1").time(1234).bot_user(User::new("123")).message(msg);
    let expected = "{\"id\":\"e1\",\"platform\":\"demo\",\"time\":1234,\"self_id\":\"123\",\"type\":\"message\",\"detail_type\":\"private\",\"sub_type\":\"\",\"message\":[{\"Text\":\"hi\"}],\"message_id\":\"m7\",\"user_id\":\"u1\"}";
    assert_eq!(event_frame_text(&e, "demo"), expected);
}

#[test]
fn group_message_envelope_adds_the_group_id() {
    let msg = Message::build("m1").text("yo").group(Group::new("g9", "club"), User::new("u2"));
    let e = Event::new("e2").time(9).bot_user(User::new("7")).message(msg);
    let text = event_frame_text(&e, "demo");
    assert!(text.ends_with(r#""message_id":"m1","user_id":"u2","group_id":"g9"}"#));
    assert!(text.contains(r#""detail_type":"group""#));
}

#[test]
fn stamping_overrides_the_platform_the_event_carried() {
    let e = Event::new("x").time(1).bot_user(User::new("1")).platform("carried").notice(
        Notice {},
    );
    let text = event_frame_text(&e, "stamped");
    assert!(text.contains(r#""platform":"stamped""#));
    assert!(!text.contains("carried"));
}

#[test]
fn negative_time_is_serialized_with_a_sign() {
    let e = Event::new("t").time(-7).bot_user(User::new("1")).notice(Notice {});
    assert!(event_frame_text(&e, "p").contains(r#""time":-7"#));
}

#[test]
fn json_strings_are_escaped() {
    let msg = Message::build("m").text("a\"b\\\n\u{1}").private(User::new("u"));
    let e = Event::new("e").time(0).bot_user(User::new("1")).message(msg);
    let text = event_frame_text(&e, "p");
    assert!(text.contains(r#"{"Text":"a\"b\\\n\u0001"}"#));
}

#[test]
fn tab_and_carriage_return_are_escaped() {
    let msg = Message::build("m").text("x\r\ty").private(User::new("u"));
    let e = Event::new("e").time(0).bot_user(User::new("1")).message(msg);
    assert!(event_frame_text(&e, "p").contains(r#"{"Text":"x\r\ty"}"#));
}

#[test]
fn every_segment_kind_serializes() {
    let msg = Message::build("m")
        .text("t")
        .emoji("smile")
        .image(Media::new_file("a.png"))
        .record(Media::new_url("http://r"))
        .video(Media::new_base64("AAA="))
        .at(User::new("u9"))
        .location(39906600, -116397500)
        .reply("r1")
        .forward("f1")
        .custom("c1")
        .private(User::new("u"));
    let e = Event::new("e").time(0).bot_user(User::new("1")).message(msg);
    let text = event_frame_text(&e, "p");
    assert!(text.contains(r#"{"Text":"t"}"#));
    assert!(text.contains(r#"{"Emoji":"smile"}"#));
    assert!(text.contains(r#"{"Image":{"File":"a.png"}}"#));
    assert!(text.contains(r#"{"Record":{"URL":"http://r"}}"#));
    assert!(text.contains(r#"{"Video":{"Base64":"AAA="}}"#));
    assert!(text.contains(
        r#"{"At":{"id":"u9","username":"","nickname":"","display_name":"","extended":{}}}"#
    ));
    assert!(text.contains(r#"{"Location":[39906600,-116397500]}"#));
    assert!(text.contains(r#"{"Reply":"r1"}"#));
    assert!(text.contains(r#"{"Forward":"f1"}"#));
    assert!(text.contains(r#"{"Custom":"c1"}"#));
}

#[test]
fn segments_are_comma_separated_in_order() {
    let msg = Message::build("m").text("a").text("b").private(User::new("u"));
    let e = Event::new("e").time(0).bot_user(User::new("1")).message(msg);
    assert!(event_frame_text(&e, "p").contains(r#""message":[{"Text":"a"},{"Text":"b"}]"#));
}

#[test]
fn mentioned_user_fields_appear_in_the_envelope() {
    let mut target = User::new("u9");
    target.username = "ada".to_string();
    target.nickname = "al".to_string();
    target.display_name = "Ada L".to_string();
    target.extended = vec![("k".to_string(), "v".to_string()), ("a".to_string(), "b".to_string())];
    let msg = Message::build("m").at(target).private(User::new("u"));
    let e = Event::new("e").time(0).bot_user(User::new("1")).message(msg);
    let expected = r#"{"At":{"id":"u9","username":"ada","nickname":"al","display_name":"Ada L","extended":{"k":"v","a":"b"}}}"#;
    assert!(event_frame_text(&e, "p").contains(expected));
}

#[test]
fn every_frame_is_valid_json() {
    let msg = Message::build("m").text("quote \" here").location(-1, 2).group(
        Group::new("g", "n"),
        User::new("u"),
    );
    let e = Event::new("e").time(-99).bot_user(User::new("1")).message(msg);
    let text = event_frame_text(&e, "p");
    let v: serde_json::Value = serde_json::from_str(&text).expect("frame must parse back");
    assert_eq!(v.get("group_id").and_then(|g| g.as_str()), Some("g"));
    assert_eq!(v.get("time").and_then(|t| t.as_i64()), Some(-99));
}
