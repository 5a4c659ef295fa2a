//! The outbound endpoint descriptions: exact JSON bodies that deserialize
//! back to the documented wire shape, paths, methods and auth flags.

use seatalk_tgs::seatalk_api::api::common::MessageType;
use seatalk_tgs::seatalk_api::api::{GetAccessToken, SendGroupMessage, SendSubscriberMessage};
use seatalk_tgs::seatalk_api::endpoint::{ignore, Endpoint, HttpMethod};
use seatalk_tgs::seatalk_api::query::{base_url, prepare_request, rest_endpoint};

fn body_json<E: Endpoint>(e: &E) -> serde_json::Value {
    let (mime, body) = e.body().expect("endpoint has a body");
    assert_eq!(mime, "application/json");
    serde_json::from_str(&body).expect("body is valid JSON")
}

#[test]
fn group_text_message_round_trips() {
    let m = SendGroupMessage::new(
        "group-1",
        Some("thread-9".to_string()),
        "hello **world**",
        MessageType::Text,
        Some("quoted-3".to_string()),
    );
    let v = body_json(&m);
    assert_eq!(v["group_id"].as_str().unwrap(), "group-1");
    assert_eq!(v["message"]["tag"].as_str().unwrap(), "text");
    assert_eq!(v["message"]["text"]["format"].as_u64().unwrap(), 1);
    assert_eq!(v["message"]["text"]["content"].as_str().unwrap(), "hello **world**");
    assert_eq!(v["message"]["quoted_message_id"].as_str().unwrap(), "quoted-3");
    assert_eq!(v["message"]["thread_id"].as_str().unwrap(), "thread-9");
}

#[test]
fn group_image_message_round_trips() {
    let m = SendGroupMessage::new("g", None, "aGVsbG8=", MessageType::Image, None);
    let v = body_json(&m);
    assert_eq!(v["group_id"].as_str().unwrap(), "g");
    assert_eq!(v["message"]["tag"].as_str().unwrap(), "image");
    assert_eq!(v["message"]["image"]["content"].as_str().unwrap(), "aGVsbG8=");
    assert!(v["message"]["quoted_message_id"].is_null());
    assert!(v["message"]["thread_id"].is_null());
}

#[test]
fn group_message_escapes_content() {
    let m = SendGroupMessage::new("g\"x", None, "a\"b\\c\nd", MessageType::Text, None);
    let v = body_json(&m);
    assert_eq!(v["group_id"].as_str().unwrap(), "g\"x");
    assert_eq!(v["message"]["text"]["content"].as_str().unwrap(), "a\"b\\c\nd");
}

#[test]
fn group_message_escapes_control_and_wide_chars() {
    let content = "tab\there\u{1}ctl émoji 🎉";
    let m = SendGroupMessage::new("g", None, content, MessageType::Text, None);
    let v = body_json(&m);
    assert_eq!(v["message"]["text"]["content"].as_str().unwrap(), content);
}

#[test]
fn subscriber_text_message_round_trips() {
    let m = SendSubscriberMessage::new(
        "emp-7",
        MessageType::Text,
        "Join my group to convert Telegram stickers!",
    );
    let v = body_json(&m);
    assert_eq!(v["employee_code"].as_str().unwrap(), "emp-7");
    assert_eq!(v["message"]["tag"].as_str().unwrap(), "text");
    assert_eq!(v["message"]["text"]["format"].as_u64().unwrap(), 1);
    assert_eq!(
        v["message"]["text"]["content"].as_str().unwrap(),
        "Join my group to convert Telegram stickers!"
    );
}

#[test]
fn subscriber_image_message_round_trips() {
    let m = SendSubscriberMessage::new("emp-7", MessageType::Image, "AAAA");
    let v = body_json(&m);
    assert_eq!(v["message"]["tag"].as_str().unwrap(), "image");
    assert_eq!(v["message"]["image"]["content"].as_str().unwrap(), "AAAA");
}

#[test]
fn token_request_body_and_path() {
    let e = GetAccessToken::new("my-id".to_string(), "my-secret".to_string());
    assert_eq!(e.endpoint(), "auth/app_access_token");
    assert_eq!(e.method(), HttpMethod::Post);
    assert!(!e.require_auth());
    let v = body_json(&e);
    assert_eq!(v["app_id"].as_str().unwrap(), "my-id");
    assert_eq!(v["app_secret"].as_str().unwrap(), "my-secret");
}

#[test]
fn message_endpoints_paths_and_auth() {
    let g = SendGroupMessage::new("g", None, "x", MessageType::Text, None);
    assert_eq!(g.endpoint(), "messaging/v2/group_chat");
    assert!(g.require_auth());
    assert_eq!(g.method(), HttpMethod::Post);
    let s = SendSubscriberMessage::new("e", MessageType::Text, "x");
    assert_eq!(s.endpoint(), "messaging/v2/single_chat");
    assert!(s.require_auth());
    assert_eq!(s.method(), HttpMethod::Post);
}

#[test]
fn prepare_request_resolves_url_and_body() {
    let e = GetAccessToken::new("a".to_string(), "b".to_string());
    let base = base_url("https", "openapi.example.com");
    assert_eq!(base, "https://openapi.example.com/");
    let r = prepare_request(&base, &e);
    assert_eq!(r.url, "https://openapi.example.com/auth/app_access_token");
    assert_eq!(r.method, HttpMethod::Post);
    assert!(!r.require_auth);
    assert_eq!(r.content_type, Some("application/json"));
    let v: serde_json::Value = serde_json::from_str(&r.body).unwrap();
    assert_eq!(v["app_id"].as_str().unwrap(), "a");
}

#[test]
fn rest_endpoint_joins_base_and_path() {
    let u = rest_endpoint("https://h/", "messaging/v2/group_chat");
    assert_eq!(u, "https://h/messaging/v2/group_chat");
}

#[test]
fn ignore_wraps_and_unwraps() {
    let e = GetAccessToken::new("a".to_string(), "b".to_string());
    let w = ignore(e);
    let e2 = w.into_inner();
    assert_eq!(e2.endpoint(), "auth/app_access_token");
}

#[test]
fn message_type_tags() {
    assert_eq!(MessageType::Text.tag(), "text");
    assert_eq!(MessageType::Image.tag(), "image");
}
