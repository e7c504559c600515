use shindensen::text::{decimal_text, digits_text};
use shindensen::wire::{
    AuthRequestPayload, ChatMessagePayload, FilePayload, InitiateChatByIdPayload,
    InitiateChatPayload,
};

#[test]
fn decimal_text_of_integers() {
    assert_eq!(decimal_text(0), "0");
    assert_eq!(decimal_text(7), "7");
    assert_eq!(decimal_text(10), "10");
    assert_eq!(decimal_text(-1), "-1");
    assert_eq!(decimal_text(1234567890), "1234567890");
    assert_eq!(decimal_text(i64::MAX), "9223372036854775807");
    assert_eq!(decimal_text(i64::MIN), "-9223372036854775808");
    for n in [-1000i64, -99, -10, -9, 9, 99, 100, 101, 65535] {
        assert_eq!(decimal_text(n), n.to_string());
    }
}

#[test]
fn digits_text_of_magnitudes() {
    assert_eq!(digits_text(0), "0");
    assert_eq!(digits_text(9), "9");
    assert_eq!(digits_text(10), "10");
    assert_eq!(digits_text(u64::MAX), "18446744073709551615");
}

#[test]
fn login_request_text() {
    let payload = AuthRequestPayload { username: "ash".to_string() };
    assert_eq!(payload.to_json(), "{\"username\":\"ash\"}");
}

#[test]
fn strings_are_escaped() {
    let payload = AuthRequestPayload { username: "a\"b\\c\nd\re\tf\0g/é".to_string() };
    assert_eq!(payload.to_json(), "{\"username\":\"a\\\"b\\\\c\\nd\\re\\tf\\0g/é\"}");
    let payload = AuthRequestPayload { username: String::new() };
    assert_eq!(payload.to_json(), "{\"username\":\"\"}");
}

#[test]
fn initiate_chat_request_text() {
    let payload = InitiateChatPayload { target_username: "kai".to_string() };
    assert_eq!(payload.to_json(), "{\"target_username\":\"kai\"}");
}

#[test]
fn initiate_chat_by_identifier_request_text() {
    assert_eq!(InitiateChatByIdPayload { target_id: 42 }.to_json(), "{\"target_id\":42}");
    assert_eq!(InitiateChatByIdPayload { target_id: -1 }.to_json(), "{\"target_id\":-1}");
}

#[test]
fn outgoing_message_text() {
    let payload = ChatMessagePayload {
        chat_id: 3,
        content: Some("hello".to_string()),
        files: Some(vec![]),
    };
    assert_eq!(payload.to_json(), "{\"chat_id\":3,\"content\":\"hello\",\"files\":[]}");
}

#[test]
fn outgoing_message_without_optional_members() {
    let payload = ChatMessagePayload { chat_id: -3, content: None, files: None };
    assert_eq!(payload.to_json(), "{\"chat_id\":-3}");
    let payload = ChatMessagePayload { chat_id: 1, content: None, files: Some(vec![]) };
    assert_eq!(payload.to_json(), "{\"chat_id\":1,\"files\":[]}");
}

#[test]
fn outgoing_message_with_files() {
    let first = FilePayload {
        _type: "image".to_string(),
        url: "http://x/y".to_string(),
        filename: "y.png".to_string(),
        mime_type: Some("image/png".to_string()),
        size_bytes: 120,
    };
    let second = FilePayload {
        _type: "doc".to_string(),
        url: "u".to_string(),
        filename: "n".to_string(),
        mime_type: None,
        size_bytes: 0,
    };
    assert_eq!(
        first.to_json(),
        "{\"_type\":\"image\",\"url\":\"http://x/y\",\"filename\":\"y.png\",\"mime_type\":\"image/png\",\"size_bytes\":120}"
    );
    assert_eq!(
        second.to_json(),
        "{\"_type\":\"doc\",\"url\":\"u\",\"filename\":\"n\",\"size_bytes\":0}"
    );
    let payload = ChatMessagePayload {
        chat_id: 8,
        content: Some("see".to_string()),
        files: Some(vec![first.clone(), second.clone()]),
    };
    assert_eq!(
        payload.to_json(),
        format!(
            "{{\"chat_id\":8,\"content\":\"see\",\"files\":[{},{}]}}",
            first.to_json(),
            second.to_json()
        )
    );
    let single = ChatMessagePayload { chat_id: 8, content: None, files: Some(vec![second.clone()]) };
    assert_eq!(single.to_json(), format!("{{\"chat_id\":8,\"files\":[{}]}}", second.to_json()));
}
