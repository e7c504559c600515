use shindensen::decoder::{decode, decode_reading, event_from, Failure};
use shindensen::json::{nests_within_limit, read, Json};
use shindensen::request::RequestTag;
use shindensen::wire::{
    ChatInfo, ChatMessage, FileMetadata, GetHistoryResponse, InitiateChatResponse,
    ShinDensenClientAction, UserInfoResponse,
};

fn bytes(text: &str) -> Vec<u8> {
    text.as_bytes().to_vec()
}

fn shape_error(tag: RequestTag, body: &str) -> Result<ShinDensenClientAction, Failure> {
    Err(Failure::DecodeError {
        operation: Some(tag),
        raw_body: body.to_string(),
        cause: "body does not have the expected shape".to_string(),
    })
}

#[test]
fn login_answer_yields_the_token() {
    let r = decode(RequestTag::Authenticate, 200, bytes("{\"token\":\"abc\"}"));
    assert_eq!(r, Ok(ShinDensenClientAction::Token("abc".to_string())));
}

#[test]
fn body_text_is_decoded_as_utf8() {
    let r = decode(RequestTag::Authenticate, 200, bytes("{\"token\":\"clé-日本\"}"));
    assert_eq!(r, Ok(ShinDensenClientAction::Token("clé-日本".to_string())));
}

#[test]
fn lookup_not_found_is_an_event() {
    assert_eq!(
        decode(RequestTag::GetUserById, 404, bytes("")),
        Ok(ShinDensenClientAction::UserNotFound)
    );
    assert_eq!(
        decode(RequestTag::SearchUser, 404, bytes("no such user")),
        Ok(ShinDensenClientAction::UserNotFound)
    );
}

#[test]
fn not_found_on_other_operations_is_a_server_error() {
    for tag in [
        RequestTag::Authenticate,
        RequestTag::ListChats,
        RequestTag::GetHistory,
        RequestTag::InitiateChat,
    ] {
        assert_eq!(
            decode(tag, 404, bytes("[]")),
            Err(Failure::ServerError { status: 404, operation: tag })
        );
    }
}

#[test]
fn only_the_success_range_is_decoded() {
    let body = "{\"token\":\"t\"}";
    for status in [200u16, 201, 204, 299] {
        assert_eq!(
            decode(RequestTag::Authenticate, status, bytes(body)),
            Ok(ShinDensenClientAction::Token("t".to_string()))
        );
    }
    for status in [0u16, 100, 199, 300, 301, 400, 401, 500, 503, 65535] {
        assert_eq!(
            decode(RequestTag::Authenticate, status, bytes(body)),
            Err(Failure::ServerError { status, operation: RequestTag::Authenticate })
        );
    }
}

#[test]
fn lookups_fail_on_other_error_codes() {
    assert_eq!(
        decode(RequestTag::GetUserById, 500, bytes("")),
        Err(Failure::ServerError { status: 500, operation: RequestTag::GetUserById })
    );
}

#[test]
fn chat_list_is_read_in_order() {
    let body = "[{\"id\":1,\"name\":null,\"chat_type\":\"direct\",\"participants\":[1,2],\"created_at\":\"t0\"},\
                {\"id\":7,\"name\":\"team\",\"chat_type\":\"group\",\"participants\":[],\"created_at\":\"t1\"}]";
    let r = decode(RequestTag::ListChats, 200, bytes(body));
    assert_eq!(
        r,
        Ok(ShinDensenClientAction::Chats(vec![
            ChatInfo {
                id: 1,
                name: None,
                chat_type: "direct".to_string(),
                participants: vec![1, 2],
                created_at: "t0".to_string(),
            },
            ChatInfo {
                id: 7,
                name: Some("team".to_string()),
                chat_type: "group".to_string(),
                participants: vec![],
                created_at: "t1".to_string(),
            },
        ]))
    );
}

#[test]
fn empty_chat_list() {
    assert_eq!(
        decode(RequestTag::ListChats, 200, bytes(" [ ] ")),
        Ok(ShinDensenClientAction::Chats(vec![]))
    );
}

#[test]
fn chat_list_must_be_an_array() {
    let body = "{\"id\":1}";
    assert_eq!(decode(RequestTag::ListChats, 200, bytes(body)), shape_error(RequestTag::ListChats, body));
}

#[test]
fn one_bad_chat_spoils_the_list() {
    let body = "[{\"id\":1,\"chat_type\":\"direct\",\"participants\":[1],\"created_at\":\"t\"},{\"id\":\"x\"}]";
    assert_eq!(decode(RequestTag::ListChats, 200, bytes(body)), shape_error(RequestTag::ListChats, body));
}

#[test]
fn history_with_messages_and_files() {
    let body = "{\"chat_id\":5,\"messages\":[\
        {\"id\":10,\"chat_id\":5,\"sender_id\":2,\"content\":\"hi\",\"timestamp\":\"t1\",\"files\":[]},\
        {\"id\":11,\"chat_id\":5,\"sender_id\":3,\"content\":null,\"timestamp\":\"t2\",\"files\":[\
          {\"id\":1,\"type\":\"image\",\"url\":\"u\",\"filename\":\"f.png\",\"mime_type\":\"image/png\",\"size_bytes\":12,\"created_at\":\"t0\"},\
          {\"id\":2,\"type\":\"doc\",\"url\":\"v\",\"filename\":\"g\",\"size_bytes\":0,\"created_at\":\"t3\"}]}]}";
    let r = decode(RequestTag::GetHistory, 200, bytes(body));
    assert_eq!(
        r,
        Ok(ShinDensenClientAction::History(GetHistoryResponse {
            chat_id: 5,
            messages: vec![
                ChatMessage {
                    id: 10,
                    chat_id: 5,
                    sender_id: 2,
                    content: Some("hi".to_string()),
                    timestamp: "t1".to_string(),
                    files: vec![],
                },
                ChatMessage {
                    id: 11,
                    chat_id: 5,
                    sender_id: 3,
                    content: None,
                    timestamp: "t2".to_string(),
                    files: vec![
                        FileMetadata {
                            id: 1,
                            _type: "image".to_string(),
                            url: "u".to_string(),
                            filename: "f.png".to_string(),
                            mime_type: Some("image/png".to_string()),
                            size_bytes: 12,
                            created_at: "t0".to_string(),
                        },
                        FileMetadata {
                            id: 2,
                            _type: "doc".to_string(),
                            url: "v".to_string(),
                            filename: "g".to_string(),
                            mime_type: None,
                            size_bytes: 0,
                            created_at: "t3".to_string(),
                        },
                    ],
                },
            ],
        }))
    );
}

#[test]
fn history_needs_its_files_member() {
    let body = "{\"chat_id\":5,\"messages\":[{\"id\":10,\"chat_id\":5,\"sender_id\":2,\"timestamp\":\"t1\"}]}";
    assert_eq!(decode(RequestTag::GetHistory, 200, bytes(body)), shape_error(RequestTag::GetHistory, body));
}

#[test]
fn user_record_with_missing_optional_fields() {
    let r = decode(RequestTag::GetUserById, 200, bytes("{\"username\":\"kai\",\"id\":2}"));
    assert_eq!(
        r,
        Ok(ShinDensenClientAction::UserInfo(UserInfoResponse {
            id: 2,
            username: "kai".to_string(),
            display_name: None,
            bio: None,
            image_id: None,
        }))
    );
}

#[test]
fn user_record_with_all_fields() {
    let body = "{\"id\":-4,\"username\":\"kai\",\"display_name\":\"Kai K.\",\"bio\":\"hello\",\"image_id\":99}";
    let expected = UserInfoResponse {
        id: -4,
        username: "kai".to_string(),
        display_name: Some("Kai K.".to_string()),
        bio: Some("hello".to_string()),
        image_id: Some(99),
    };
    assert_eq!(
        decode(RequestTag::SearchUser, 200, bytes(body)),
        Ok(ShinDensenClientAction::UserSearchResponse(expected.clone()))
    );
    assert_eq!(
        decode(RequestTag::GetUserById, 200, bytes(body)),
        Ok(ShinDensenClientAction::UserInfo(expected))
    );
}

#[test]
fn initiate_chat_answer() {
    assert_eq!(
        decode(RequestTag::InitiateChat, 200, bytes("{\"chat_id\":12,\"status\":\"created\"}")),
        Ok(ShinDensenClientAction::InitiateChat(InitiateChatResponse {
            chat_id: 12,
            status: "created".to_string(),
        }))
    );
}

#[test]
fn invalid_utf8_is_an_encoding_error() {
    let r = decode(RequestTag::ListChats, 200, vec![0xff, 0xfe]);
    assert_eq!(r, Err(Failure::EncodingError { operation: RequestTag::ListChats }));
    let r = decode(RequestTag::Authenticate, 200, vec![b'{', 0xc3]);
    assert_eq!(r, Err(Failure::EncodingError { operation: RequestTag::Authenticate }));
}

#[test]
fn malformed_json_is_a_decode_error() {
    match decode(RequestTag::Authenticate, 200, bytes("{\"token\":")) {
        Err(Failure::DecodeError { operation, raw_body, cause }) => {
            assert_eq!(operation, Some(RequestTag::Authenticate));
            assert_eq!(raw_body, "{\"token\":");
            assert!(cause.starts_with("Json Deserialize error"));
        }
        other => panic!("unexpected outcome {:?}", other),
    }
}

#[test]
fn empty_body_is_a_decode_error() {
    match decode(RequestTag::ListChats, 200, Vec::new()) {
        Err(Failure::DecodeError { operation, raw_body, .. }) => {
            assert_eq!(operation, Some(RequestTag::ListChats));
            assert_eq!(raw_body, "");
        }
        other => panic!("unexpected outcome {:?}", other),
    }
}

#[test]
fn unknown_member_is_a_decode_error() {
    let body = "{\"token\":\"abc\",\"extra\":1}";
    assert_eq!(
        decode(RequestTag::Authenticate, 200, bytes(body)),
        shape_error(RequestTag::Authenticate, body)
    );
}

#[test]
fn missing_required_member_is_a_decode_error() {
    let body = "{\"chat_id\":12}";
    assert_eq!(
        decode(RequestTag::InitiateChat, 200, bytes(body)),
        shape_error(RequestTag::InitiateChat, body)
    );
}

#[test]
fn wrong_member_type_is_a_decode_error() {
    for body in [
        "{\"token\":5}",
        "{\"token\":null}",
        "{\"token\":[\"a\"]}",
        "{\"token\":true}",
        "\"abc\"",
        "[]",
        "null",
    ] {
        assert_eq!(
            decode(RequestTag::Authenticate, 200, bytes(body)),
            shape_error(RequestTag::Authenticate, body)
        );
    }
}

#[test]
fn integers_must_fit_and_be_whole() {
    let fits = "{\"chat_id\":9223372036854775807,\"status\":\"s\"}";
    assert_eq!(
        decode(RequestTag::InitiateChat, 200, bytes(fits)),
        Ok(ShinDensenClientAction::InitiateChat(InitiateChatResponse {
            chat_id: i64::MAX,
            status: "s".to_string(),
        }))
    );
    let lowest = "{\"chat_id\":-9223372036854775808,\"status\":\"s\"}";
    assert_eq!(
        decode(RequestTag::InitiateChat, 200, bytes(lowest)),
        Ok(ShinDensenClientAction::InitiateChat(InitiateChatResponse {
            chat_id: i64::MIN,
            status: "s".to_string(),
        }))
    );
    let too_large = "{\"chat_id\":9223372036854775808,\"status\":\"s\"}";
    assert_eq!(
        decode(RequestTag::InitiateChat, 200, bytes(too_large)),
        shape_error(RequestTag::InitiateChat, too_large)
    );
    let fraction = "{\"chat_id\":1.5,\"status\":\"s\"}";
    assert_eq!(
        decode(RequestTag::InitiateChat, 200, bytes(fraction)),
        shape_error(RequestTag::InitiateChat, fraction)
    );
}

#[test]
fn a_repeated_member_counts_once() {
    let body = "{\"token\":\"first\",\"token\":\"second\"}";
    assert_eq!(
        decode(RequestTag::Authenticate, 200, bytes(body)),
        Ok(ShinDensenClientAction::Token("second".to_string()))
    );
}

#[test]
fn escapes_in_strings_are_read() {
    let body = "{\"token\":\"a\\nb\\\"c\\\\d\\u0041\"}";
    assert_eq!(
        decode(RequestTag::Authenticate, 200, bytes(body)),
        Ok(ShinDensenClientAction::Token("a\nb\"c\\dA".to_string()))
    );
}

#[test]
fn decoding_from_a_given_reading() {
    let value = Json::Record(vec![("token".to_string(), Json::Text("t".to_string()))]);
    assert_eq!(
        decode_reading(RequestTag::Authenticate, "raw".to_string(), Ok(value)),
        Ok(ShinDensenClientAction::Token("t".to_string()))
    );
    assert_eq!(
        decode_reading(RequestTag::Authenticate, "raw".to_string(), Err("bad".to_string())),
        Err(Failure::DecodeError {
            operation: Some(RequestTag::Authenticate),
            raw_body: "raw".to_string(),
            cause: "bad".to_string(),
        })
    );
    assert_eq!(
        decode_reading(RequestTag::Authenticate, "raw".to_string(), Ok(Json::Null)),
        shape_error(RequestTag::Authenticate, "raw")
    );
}

#[test]
fn later_member_wins_in_a_given_record() {
    let value = Json::Record(vec![
        ("chat_id".to_string(), Json::Unsigned(1)),
        ("status".to_string(), Json::Text("a".to_string())),
        ("chat_id".to_string(), Json::Signed(-2)),
    ]);
    assert_eq!(
        event_from(RequestTag::InitiateChat, &value),
        Some(ShinDensenClientAction::InitiateChat(InitiateChatResponse {
            chat_id: -2,
            status: "a".to_string(),
        }))
    );
}

#[test]
fn events_from_values_of_the_wrong_operation() {
    let user = Json::Record(vec![
        ("id".to_string(), Json::Unsigned(1)),
        ("username".to_string(), Json::Text("ash".to_string())),
    ]);
    assert!(event_from(RequestTag::GetUserById, &user).is_some());
    assert!(event_from(RequestTag::SearchUser, &user).is_some());
    assert_eq!(event_from(RequestTag::Authenticate, &user), None);
    assert_eq!(event_from(RequestTag::ListChats, &user), None);
    assert_eq!(event_from(RequestTag::GetHistory, &user), None);
    assert_eq!(event_from(RequestTag::InitiateChat, &user), None);
    assert_eq!(event_from(RequestTag::GetUserById, &Json::Real), None);
    assert_eq!(event_from(RequestTag::GetUserById, &Json::Bool(true)), None);
}

#[test]
fn failures_are_reported_with_their_message() {
    assert_eq!(
        Failure::ServerError { status: 500, operation: RequestTag::ListChats }.into_action(),
        ShinDensenClientAction::Error(
            "Server returned error code 500 for request GetChats".to_string()
        )
    );
    assert_eq!(
        Failure::DecodeError {
            operation: Some(RequestTag::GetHistory),
            raw_body: "x".to_string(),
            cause: "why".to_string(),
        }
        .into_action(),
        ShinDensenClientAction::Error("Parsing GetHistory: why".to_string())
    );
    assert_eq!(
        Failure::DecodeError { operation: None, raw_body: "x".to_string(), cause: "why".to_string() }
            .into_action(),
        ShinDensenClientAction::Error("Parsing WebSocketMessage: why".to_string())
    );
    assert_eq!(
        Failure::EncodingError { operation: RequestTag::Authenticate }.into_action(),
        ShinDensenClientAction::Error("Parsing AuthRequest: body is not valid UTF-8".to_string())
    );
    assert_eq!(
        Failure::NetworkError { detail: "down".to_string() }.into_action(),
        ShinDensenClientAction::NetworkError("down".to_string())
    );
    assert_eq!(
        Failure::Error { text: "misuse".to_string() }.into_action(),
        ShinDensenClientAction::Error("misuse".to_string())
    );
}

#[test]
fn operation_names() {
    assert_eq!(RequestTag::Authenticate.name(), "AuthRequest");
    assert_eq!(RequestTag::ListChats.name(), "GetChats");
    assert_eq!(RequestTag::GetHistory.name(), "GetHistory");
    assert_eq!(RequestTag::SearchUser.name(), "UserInfo");
    assert_eq!(RequestTag::GetUserById.name(), "GetUserInfo");
    assert_eq!(RequestTag::InitiateChat.name(), "InitiateChat");
}

fn nested(levels: usize) -> String {
    format!("{}{}", "[".repeat(levels), "]".repeat(levels))
}

fn too_deep(tag: RequestTag, body: &str) -> Result<ShinDensenClientAction, Failure> {
    Err(Failure::DecodeError {
        operation: Some(tag),
        raw_body: body.to_string(),
        cause: "arrays and objects are nested too deep".to_string(),
    })
}

#[test]
fn nesting_is_counted_outside_strings() {
    assert!(nests_within_limit(""));
    assert!(nests_within_limit(&nested(64)));
    assert!(!nests_within_limit(&nested(65)));
    assert!(!nests_within_limit(&"{".repeat(65)));
    assert!(!nests_within_limit(&format!("{}{}", "[{".repeat(32), "[")));
    // Brackets inside a string do not count.
    assert!(nests_within_limit(&format!("\"{}\"", "[".repeat(500))));
    assert!(nests_within_limit(&format!("[\"{}\"]", "{[".repeat(500))));
    // An escaped quote does not end the string.
    assert!(nests_within_limit(&format!("\"a\\\"{}\"", "[".repeat(500))));
    assert!(nests_within_limit(&format!("\"a\\\\\\\"{}\"", "[".repeat(500))));
    // A backslash that is itself escaped does not escape the quote.
    assert!(!nests_within_limit(&format!("\"a\\\\\"{}", "[".repeat(65))));
    // The four characters behind `\u` belong to the escape.
    assert!(nests_within_limit(&format!("\"\\u00e9{}\"", "[".repeat(500))));
    assert!(nests_within_limit(&format!("\"\\u\"\"\"\"{}\"", "[".repeat(500))));
    assert!(!nests_within_limit(&format!("\"\\u0041\"{}", "[".repeat(65))));
    // Closed arrays make room again; a closing bracket in excess is passed over.
    assert!(nests_within_limit(&"[]".repeat(1000)));
    assert!(nests_within_limit(&format!("{}{}", "]".repeat(10), nested(64))));
    assert!(!nests_within_limit(&format!("{}{}", "]".repeat(10), nested(65))));
}

#[test]
fn bodies_nested_too_deep_are_refused() {
    let deep = nested(65);
    assert_eq!(decode(RequestTag::ListChats, 200, bytes(&deep)), too_deep(RequestTag::ListChats, &deep));
    let deep = format!("{{\"token\":{}}}", nested(64));
    assert_eq!(
        decode(RequestTag::Authenticate, 200, bytes(&deep)),
        too_deep(RequestTag::Authenticate, &deep)
    );
    let very_deep = "[".repeat(200_000);
    assert_eq!(
        decode(RequestTag::ListChats, 200, bytes(&very_deep)),
        too_deep(RequestTag::ListChats, &very_deep)
    );
}

#[test]
fn bodies_at_the_nesting_limit_are_read() {
    let body = nested(64);
    assert_eq!(decode(RequestTag::ListChats, 200, bytes(&body)), shape_error(RequestTag::ListChats, &body));
    let token = format!("{{\"token\":\"{}\"}}", "[".repeat(1000));
    assert_eq!(
        decode(RequestTag::Authenticate, 200, bytes(&token)),
        Ok(ShinDensenClientAction::Token("[".repeat(1000)))
    );
}

#[test]
fn reading_generic_values() {
    assert_eq!(read("null"), Ok(Json::Null));
    assert_eq!(read(" true "), Ok(Json::Bool(true)));
    assert_eq!(read("false"), Ok(Json::Bool(false)));
    assert_eq!(read("17"), Ok(Json::Unsigned(17)));
    assert_eq!(read("-17"), Ok(Json::Signed(-17)));
    assert_eq!(read("1.5"), Ok(Json::Real));
    assert_eq!(read("\"a b\""), Ok(Json::Text("a b".to_string())));
    assert_eq!(
        read("[1, \"x\", [], null]"),
        Ok(Json::List(vec![
            Json::Unsigned(1),
            Json::Text("x".to_string()),
            Json::List(vec![]),
            Json::Null,
        ]))
    );
    assert_eq!(
        read("{\"k\": [true]}"),
        Ok(Json::Record(vec![("k".to_string(), Json::List(vec![Json::Bool(true)]))]))
    );
    assert!(read("").is_err());
    assert!(read("{").is_err());
    assert!(read("nope").is_err());
    assert_eq!(read(&nested(65)), Err("arrays and objects are nested too deep".to_string()));
}
