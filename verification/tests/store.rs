use shindensen::client::{Effect, NetworkEvent, NetworkResponse};
use shindensen::request::{Handshake, HttpCall, HttpMethod, RequestTag, Ticket};
use shindensen::socket::SocketFrame;
use shindensen::state::{effect_of, Screen, State};
use shindensen::wire::{
    ChatInfo, ChatMessage, GetHistoryResponse, InitiateChatResponse, ShinDensenClientAction,
    UserInfoResponse,
};

const API: &str = "http://localhost:3000";
const WS: &str = "ws://localhost:3000";

fn state() -> State {
    State::new(API.to_string(), WS.to_string())
}

fn get(request_id: u64, path: &str) -> Effect {
    Effect::Http(HttpCall {
        request_id,
        method: HttpMethod::Get,
        url: format!("{}/{}", API, path),
        headers: vec![("Authorization".to_string(), "Bearer T".to_string())],
        body: None,
    })
}

/// A state whose user `ash` has logged in with token `T`. The login took
/// request 0; the `Authenticated` event has not been folded in.
fn logged_in() -> State {
    let mut s = state();
    assert!(s.login("ash".to_string()).is_some());
    let effects = s.handle_response(0, 200, b"{\"token\":\"T\"}".to_vec());
    assert_eq!(effects.len(), 2);
    s
}

fn chat(id: i64, name: Option<&str>, kind: &str, participants: Vec<i64>) -> ChatInfo {
    ChatInfo {
        id,
        name: name.map(|n| n.to_string()),
        chat_type: kind.to_string(),
        participants,
        created_at: "t".to_string(),
    }
}

fn user(id: i64, username: &str, display_name: Option<&str>) -> UserInfoResponse {
    UserInfoResponse {
        id,
        username: username.to_string(),
        display_name: display_name.map(|n| n.to_string()),
        bio: None,
        image_id: None,
    }
}

fn message(id: i64, chat_id: i64, sender_id: i64, content: Option<&str>) -> ChatMessage {
    ChatMessage {
        id,
        chat_id,
        sender_id,
        content: content.map(|c| c.to_string()),
        timestamp: "t".to_string(),
        files: vec![],
    }
}

fn calls(effects: &[Effect]) -> usize {
    effects.iter().filter(|e| matches!(e, Effect::Http(_))).count()
}

#[test]
fn a_new_state_is_empty() {
    let s = state();
    assert_eq!(s.username, "");
    assert_eq!(s.get_chats_number(), 0);
    assert_eq!(s.get_message_number(), 0);
    assert!(s.user_info.is_empty());
    assert!(s.pending_user_fetches.is_empty());
    assert_eq!(s.open_chat_id, None);
    assert_eq!(s.current_user_id, None);
    assert_eq!(s.screen, Screen::Auth);
    assert!(!s.client.is_authenticated());
}

#[test]
fn login_with_an_empty_name_does_nothing() {
    let mut s = state();
    assert_eq!(s.login(String::new()), None);
    assert_eq!(s.screen, Screen::Auth);
    assert_eq!(s.username, "");
    assert_eq!(s.client.in_flight(), 0);
}

#[test]
fn login_sets_the_user_and_asks_for_authentication() {
    let mut s = state();
    assert_eq!(
        s.login("ash".to_string()),
        Some(Effect::Http(HttpCall {
            request_id: 0,
            method: HttpMethod::Post,
            url: "http://localhost:3000/login".to_string(),
            headers: vec![("Content-Type".to_string(), "application/json".to_string())],
            body: Some("{\"username\":\"ash\"}".to_string()),
        }))
    );
    assert_eq!(s.screen, Screen::Dialog);
    assert_eq!(s.username, "ash");
}

#[test]
fn authenticated_asks_for_chats_and_own_record() {
    let mut s = logged_in();
    assert_eq!(
        s.apply(ShinDensenClientAction::Authenticated),
        vec![get(1, "chats"), get(2, "users/ash")]
    );
}

#[test]
fn authenticated_without_credential_reports_the_refusals() {
    let mut s = state();
    let refused =
        Effect::Emit(ShinDensenClientAction::Error("credential is absent".to_string()));
    assert_eq!(s.apply(ShinDensenClientAction::Authenticated), vec![refused.clone(), refused]);
}

#[test]
fn requesting_a_user_twice_sends_one_lookup() {
    let mut s = logged_in();
    assert_eq!(s.fetch_user(7), Some(get(1, "users/7")));
    assert!(s.pending_user_fetches.contains(&7));
    assert_eq!(s.fetch_user(7), None);
    assert_eq!(s.fetch_user(7), None);
    assert_eq!(s.client.in_flight(), 1);
    assert_eq!(s.fetch_user(8), Some(get(2, "users/8")));
}

#[test]
fn a_resolved_user_is_not_looked_up_again() {
    let mut s = logged_in();
    assert!(s.fetch_user(7).is_some());
    let effects = s.handle_response(1, 200, b"{\"id\":7,\"username\":\"kai\"}".to_vec());
    assert_eq!(effects, vec![Effect::Emit(ShinDensenClientAction::UserInfo(user(7, "kai", None)))]);
    assert!(!s.pending_user_fetches.contains(&7));
    for effect in effects {
        if let Effect::Emit(action) = effect {
            assert!(s.apply(action).is_empty());
        }
    }
    assert!(s.user_info.contains_key(&7));
    assert_eq!(s.fetch_user(7), None);
    assert_eq!(s.client.in_flight(), 0);
}

#[test]
fn a_user_that_was_not_found_can_be_looked_up_again() {
    let mut s = logged_in();
    assert!(s.fetch_user(7).is_some());
    assert_eq!(s.fetch_user(7), None);
    let effects = s.handle_response(1, 404, Vec::new());
    assert_eq!(effects, vec![Effect::Emit(ShinDensenClientAction::UserNotFound)]);
    assert!(s.apply(ShinDensenClientAction::UserNotFound).is_empty());
    assert!(!s.pending_user_fetches.contains(&7));
    assert_eq!(s.fetch_user(7), Some(get(2, "users/7")));
    assert_eq!(s.fetch_user(7), None);
}

#[test]
fn a_malformed_answer_does_not_block_retries() {
    let mut s = logged_in();
    assert!(s.fetch_user(7).is_some());
    let effects = s.handle_response(1, 200, b"{\"id\":".to_vec());
    assert_eq!(effects.len(), 1);
    assert!(matches!(&effects[0], Effect::Emit(ShinDensenClientAction::Error(_))));
    assert!(!s.pending_user_fetches.contains(&7));
    assert_eq!(s.fetch_user(7), Some(get(2, "users/7")));
}

#[test]
fn a_failed_request_does_not_block_retries() {
    let mut s = logged_in();
    assert!(s.fetch_user(7).is_some());
    let effects = s.handle_network_responses(&vec![NetworkEvent {
        request_id: 1,
        response: NetworkResponse::HttpRequestError { detail: "down".to_string() },
    }]);
    assert_eq!(
        effects,
        vec![Effect::Emit(ShinDensenClientAction::NetworkError(
            "HttpRequestError for request 1: down".to_string()
        ))]
    );
    assert!(!s.pending_user_fetches.contains(&7));
    assert!(s.fetch_user(7).is_some());
}

#[test]
fn a_refused_lookup_leaves_the_user_unrequested() {
    let mut s = state();
    assert_eq!(
        s.fetch_user(7),
        Some(Effect::Emit(ShinDensenClientAction::Error("credential is absent".to_string())))
    );
    assert!(!s.pending_user_fetches.contains(&7));
}

#[test]
fn settling_touches_only_lookups_by_identifier() {
    let mut s = logged_in();
    s.fetch_user(7);
    s.fetch_user(8);
    s.settle(None);
    s.settle(Some(Ticket { tag: RequestTag::SearchUser, user_id: Some(7) }));
    s.settle(Some(Ticket { tag: RequestTag::GetUserById, user_id: None }));
    assert!(s.pending_user_fetches.contains(&7));
    s.settle(Some(Ticket { tag: RequestTag::GetUserById, user_id: Some(7) }));
    assert!(!s.pending_user_fetches.contains(&7));
    assert!(s.pending_user_fetches.contains(&8));
}

#[test]
fn chats_are_inserted_and_participants_requested() {
    let mut s = logged_in();
    let list = vec![
        chat(1, None, "direct", vec![1, 2]),
        chat(2, Some("team"), "group", vec![2, 3, 1]),
    ];
    let effects = s.apply(ShinDensenClientAction::Chats(list.clone()));
    assert_eq!(effects, vec![get(1, "users/1"), get(2, "users/2"), get(3, "users/3")]);
    assert_eq!(s.get_chats_number(), 2);
    assert_eq!(s.chat_info.get(&1), Some(&list[0]));
    assert_eq!(s.chat_info.get(&2), Some(&list[1]));
    assert_eq!(s.pending_user_fetches.len(), 3);
    assert_eq!(s.msg_history.len(), 0);
}

#[test]
fn applying_the_same_chat_list_twice_changes_nothing_more() {
    let mut s = logged_in();
    let list = vec![
        chat(1, None, "direct", vec![1, 2]),
        chat(2, Some("old"), "group", vec![2, 3]),
        chat(2, Some("new"), "group", vec![3]),
    ];
    let first = s.apply(ShinDensenClientAction::Chats(list.clone()));
    assert_eq!(calls(&first), 3);
    let once = s.chat_info.clone();
    let second = s.apply(ShinDensenClientAction::Chats(list.clone()));
    assert!(second.is_empty());
    assert_eq!(s.chat_info, once);
    assert_eq!(s.get_chats_number(), 2);
    // Of two chats with one identifier the later stays.
    assert_eq!(s.chat_info.get(&2), Some(&list[2]));
}

#[test]
fn a_chat_list_replaces_chats_whole() {
    let mut s = logged_in();
    s.apply(ShinDensenClientAction::Chats(vec![chat(1, Some("a"), "group", vec![5])]));
    s.apply(ShinDensenClientAction::Chats(vec![chat(1, None, "direct", vec![])]));
    assert_eq!(s.chat_info.get(&1), Some(&chat(1, None, "direct", vec![])));
    s.apply(ShinDensenClientAction::Chats(vec![]));
    assert_eq!(s.get_chats_number(), 1);
}

#[test]
fn history_replaces_the_message_list() {
    let mut s = logged_in();
    let a = message(1, 1, 10, Some("a"));
    let b = message(2, 1, 11, Some("b"));
    let c = message(3, 1, 10, Some("c"));
    let first = s.apply(ShinDensenClientAction::History(GetHistoryResponse {
        chat_id: 1,
        messages: vec![a.clone(), b.clone()],
    }));
    assert_eq!(first, vec![get(1, "users/10"), get(2, "users/11")]);
    assert_eq!(s.msg_history.get(&1), Some(&vec![a, b]));
    let second = s.apply(ShinDensenClientAction::History(GetHistoryResponse {
        chat_id: 1,
        messages: vec![c.clone()],
    }));
    assert!(second.is_empty());
    assert_eq!(s.msg_history.get(&1), Some(&vec![c]));
}

#[test]
fn history_requests_each_sender_once() {
    let mut s = logged_in();
    let effects = s.apply(ShinDensenClientAction::History(GetHistoryResponse {
        chat_id: 4,
        messages: vec![
            message(1, 4, 10, None),
            message(2, 4, 11, None),
            message(3, 4, 10, None),
            message(4, 4, 11, None),
            message(5, 4, 12, None),
        ],
    }));
    assert_eq!(effects, vec![get(1, "users/10"), get(2, "users/11"), get(3, "users/12")]);
}

#[test]
fn history_of_a_chat_leaves_other_chats() {
    let mut s = logged_in();
    s.add_message(message(1, 2, 10, Some("keep")));
    s.apply(ShinDensenClientAction::History(GetHistoryResponse { chat_id: 1, messages: vec![] }));
    assert_eq!(s.msg_history.get(&1), Some(&vec![]));
    assert_eq!(s.msg_history.get(&2), Some(&vec![message(1, 2, 10, Some("keep"))]));
}

#[test]
fn new_messages_are_appended_in_arrival_order() {
    let mut s = logged_in();
    let first = message(9, 1, 10, Some("late id first"));
    let second = message(3, 1, 11, Some("early id second"));
    assert_eq!(
        s.apply(ShinDensenClientAction::NewMessage(first.clone())),
        vec![get(1, "users/10")]
    );
    assert_eq!(
        s.apply(ShinDensenClientAction::NewMessage(second.clone())),
        vec![get(2, "users/11")]
    );
    assert!(s.apply(ShinDensenClientAction::NewMessage(first.clone())).is_empty());
    assert_eq!(s.msg_history.get(&1), Some(&vec![first.clone(), second, first]));
}

#[test]
fn add_message_starts_and_extends_lists() {
    let mut s = state();
    s.add_message(message(1, 5, 1, None));
    s.add_message(message(2, 6, 1, None));
    s.add_message(message(3, 5, 1, None));
    assert_eq!(s.msg_history.get(&5).unwrap().len(), 2);
    assert_eq!(s.msg_history.get(&6).unwrap().len(), 1);
    assert_eq!(s.msg_history.get(&5).unwrap()[1].id, 3);
}

#[test]
fn message_number_is_that_of_the_open_chat() {
    let mut s = state();
    s.add_message(message(1, 5, 1, None));
    s.add_message(message(2, 5, 1, None));
    s.add_message(message(3, 6, 1, None));
    assert_eq!(s.get_message_number(), 0);
    s.open_chat_id = Some(5);
    assert_eq!(s.get_message_number(), 2);
    s.open_chat_id = Some(6);
    assert_eq!(s.get_message_number(), 1);
    s.open_chat_id = Some(7);
    assert_eq!(s.get_message_number(), 0);
}

#[test]
fn user_records_are_cached_and_identify_the_local_user() {
    let mut s = logged_in();
    assert!(s.apply(ShinDensenClientAction::UserInfo(user(2, "kai", None))).is_empty());
    assert_eq!(s.current_user_id, None);
    assert!(s
        .apply(ShinDensenClientAction::UserSearchResponse(user(1, "ash", Some("Ash"))))
        .is_empty());
    assert_eq!(s.current_user_id, Some(1));
    assert_eq!(s.user_info.get(&1), Some(&user(1, "ash", Some("Ash"))));
    // The later record for an identifier replaces the earlier.
    s.apply(ShinDensenClientAction::UserInfo(user(2, "kai", Some("Kai"))));
    assert_eq!(s.user_info.get(&2), Some(&user(2, "kai", Some("Kai"))));
    assert_eq!(s.current_user_id, Some(1));
    assert_eq!(s.user_info.len(), 2);
}

#[test]
fn initiate_chat_opens_the_chat_and_asks_for_its_history() {
    let mut s = logged_in();
    let effects = s.apply(ShinDensenClientAction::InitiateChat(InitiateChatResponse {
        chat_id: 12,
        status: "created".to_string(),
    }));
    assert_eq!(effects, vec![get(1, "chats/12/messages")]);
    assert_eq!(s.open_chat_id, Some(12));
}

#[test]
fn other_events_change_nothing() {
    let mut s = logged_in();
    for action in [
        ShinDensenClientAction::UserNotFound,
        ShinDensenClientAction::Error("e".to_string()),
        ShinDensenClientAction::NetworkError("n".to_string()),
        ShinDensenClientAction::Token("other".to_string()),
        ShinDensenClientAction::Nothing,
    ] {
        assert!(s.apply(action).is_empty());
    }
    assert_eq!(s.get_chats_number(), 0);
    assert_eq!(s.client.in_flight(), 0);
    assert_eq!(s.username, "ash");
}

#[test]
fn open_chat_and_load_history() {
    let mut s = logged_in();
    assert_eq!(s.load_msg_history(), None);
    assert_eq!(s.open_chat(3), Some(get(1, "chats/3/messages")));
    assert_eq!(s.open_chat_id, Some(3));
    assert_eq!(s.load_msg_history(), Some(get(2, "chats/3/messages")));
}

#[test]
fn searching_for_a_user() {
    let mut s = logged_in();
    assert_eq!(s.user_search(String::new()), None);
    assert_eq!(s.user_search("kai".to_string()), Some(get(1, "users/kai")));
    let effects = s.handle_response(1, 404, Vec::new());
    assert_eq!(effects, vec![Effect::Emit(ShinDensenClientAction::UserNotFound)]);
}

#[test]
fn effect_of_a_request() {
    let call = HttpCall {
        request_id: 3,
        method: HttpMethod::Get,
        url: "u".to_string(),
        headers: vec![],
        body: None,
    };
    assert_eq!(effect_of(Ok(call.clone())), Effect::Http(call));
    assert_eq!(
        effect_of(Err(shindensen::decoder::Failure::Error { text: "no".to_string() })),
        Effect::Emit(ShinDensenClientAction::Error("no".to_string()))
    );
}

#[test]
fn chat_name_of_an_unknown_chat_is_its_identifier() {
    let s = state();
    assert_eq!(s.get_chat_name(17), "17");
    assert_eq!(s.get_chat_name(-3), "-3");
}

#[test]
fn chat_name_prefers_the_explicit_name() {
    let mut s = logged_in();
    s.apply(ShinDensenClientAction::Chats(vec![
        chat(1, Some("team"), "group", vec![1, 2]),
        chat(2, Some(""), "direct", vec![2]),
    ]));
    assert_eq!(s.get_chat_name(1), "team");
    // An empty name does not count.
    assert_eq!(s.get_chat_name(2), "U2");
}

#[test]
fn chat_name_of_a_direct_chat() {
    let mut s = logged_in();
    s.current_user_id = Some(1);
    s.apply(ShinDensenClientAction::Chats(vec![chat(1, None, "direct", vec![1, 2, 3])]));
    assert_eq!(s.get_chat_name(1), "U2");
    s.apply(ShinDensenClientAction::UserInfo(user(2, "kai", None)));
    assert_eq!(s.get_chat_name(1), "kai");
    s.apply(ShinDensenClientAction::UserInfo(user(2, "kai", Some("Kai K."))));
    assert_eq!(s.get_chat_name(1), "Kai K.");
}

#[test]
fn chat_name_of_a_group() {
    let mut s = logged_in();
    s.current_user_id = Some(1);
    s.apply(ShinDensenClientAction::UserInfo(user(2, "kai", None)));
    s.apply(ShinDensenClientAction::UserInfo(user(3, "bo", Some("Bo"))));
    s.apply(ShinDensenClientAction::Chats(vec![
        chat(1, None, "group", vec![2]),
        chat(2, None, "group", vec![1, 2, 3]),
        chat(3, None, "group", vec![2, 1, 3, 4]),
        chat(4, None, "group", vec![5, 4, 3, 2, 1]),
        chat(5, None, "group", vec![2, 3, 4, 5, 6, 7]),
    ]));
    assert_eq!(s.get_chat_name(1), "kai");
    assert_eq!(s.get_chat_name(2), "kai, Bo");
    assert_eq!(s.get_chat_name(3), "kai, Bo, U4");
    assert_eq!(s.get_chat_name(4), "U5, U4, Bo...");
    assert_eq!(s.get_chat_name(5), "kai, Bo, U4...");
}

#[test]
fn chat_name_without_a_known_current_user() {
    let mut s = logged_in();
    s.apply(ShinDensenClientAction::Chats(vec![
        chat(1, None, "group", vec![1, 2]),
        chat(2, None, "group", vec![]),
    ]));
    assert_eq!(s.get_chat_name(1), "U1, U2");
    assert_eq!(s.get_chat_name(2), "2");
}

#[test]
fn chat_name_of_a_self_chat() {
    let mut s = logged_in();
    s.current_user_id = Some(1);
    s.apply(ShinDensenClientAction::Chats(vec![
        chat(1, None, "direct", vec![1]),
        chat(2, None, "group", vec![1, 1]),
        chat(3, None, "group", vec![]),
    ]));
    assert_eq!(s.get_chat_name(1), "Saved Messages");
    assert_eq!(s.get_chat_name(2), "Saved Messages");
    assert_eq!(s.get_chat_name(3), "3");
}

#[test]
fn last_message_of_a_chat() {
    let mut s = state();
    assert_eq!(s.get_last_message(1), "");
    s.add_message(message(1, 1, 1, Some("first")));
    assert_eq!(s.get_last_message(1), "first");
    s.add_message(message(2, 1, 1, None));
    assert_eq!(s.get_last_message(1), "");
    s.add_message(message(3, 1, 1, Some("third")));
    assert_eq!(s.get_last_message(1), "third");
    s.apply(ShinDensenClientAction::History(GetHistoryResponse { chat_id: 1, messages: vec![] }));
    assert_eq!(s.get_last_message(1), "");
}

#[test]
fn socket_frames_reach_the_client_through_the_state() {
    let mut s = logged_in();
    assert!(s.handle_signal(&vec![SocketFrame::Opened]).is_empty());
    assert!(s.client.is_socket_open());
    let effects = s.handle_signal(&vec![SocketFrame::Error("x".to_string())]);
    assert_eq!(
        effects,
        vec![
            Effect::Emit(ShinDensenClientAction::NetworkError("WebSocket error: x".to_string())),
            Effect::OpenSocket(Handshake {
                url: WS.to_string(),
                headers: vec![("Authorization".to_string(), "Bearer T".to_string())],
            }),
        ]
    );
    assert!(!s.client.is_socket_open());
}

/// Performs the effects of a step the way an application does: events go
/// back into the store, everything else is collected as network work.
fn run(s: &mut State, effects: Vec<Effect>, work: &mut Vec<Effect>) {
    for effect in effects {
        match effect {
            Effect::Emit(action) => {
                let more = s.apply(action);
                run(s, more, work);
            }
            other => work.push(other),
        }
    }
}

#[test]
fn login_scenario() {
    let mut s = state();
    let mut work = Vec::new();

    // Login with username "ash".
    let login = s.login("ash".to_string()).unwrap();
    run(&mut s, vec![login], &mut work);
    assert_eq!(work.len(), 1);
    work.clear();

    // The backend answers with a token: Authenticated, then the chat list
    // and the own record are asked for.
    let effects = s.handle_response(0, 200, b"{\"token\":\"T\"}".to_vec());
    run(&mut s, effects, &mut work);
    assert_eq!(
        work,
        vec![
            Effect::OpenSocket(Handshake {
                url: WS.to_string(),
                headers: vec![("Authorization".to_string(), "Bearer T".to_string())],
            }),
            get(1, "chats"),
            get(2, "users/ash"),
        ]
    );
    work.clear();

    // The chat list triggers a user fetch for ids 1 and 2.
    let chats = b"[{\"id\":1,\"name\":null,\"chat_type\":\"direct\",\"participants\":[1,2],\"created_at\":\"t\"}]";
    let effects = s.handle_response(1, 200, chats.to_vec());
    run(&mut s, effects, &mut work);
    assert_eq!(work, vec![get(3, "users/1"), get(4, "users/2")]);
    assert!(s.pending_user_fetches.contains(&1));
    assert!(s.pending_user_fetches.contains(&2));
    work.clear();

    // UserInfo{id:1, username:"ash"} sets the current user.
    let effects = s.handle_response(3, 200, b"{\"id\":1,\"username\":\"ash\"}".to_vec());
    run(&mut s, effects, &mut work);
    assert!(work.is_empty());
    assert_eq!(s.current_user_id, Some(1));
    assert!(!s.pending_user_fetches.contains(&1));

    // Before user 2 resolves the chat shows the stand-in name.
    assert_eq!(s.get_chat_name(1), "U2");

    // After UserInfo{id:2, username:"kai"} it shows the name.
    let effects = s.handle_response(4, 200, b"{\"id\":2,\"username\":\"kai\"}".to_vec());
    run(&mut s, effects, &mut work);
    assert!(work.is_empty());
    assert_eq!(s.get_chat_name(1), "kai");
    assert!(s.pending_user_fetches.is_empty());

    // The answer to the search for the own name changes nothing more.
    let effects = s.handle_response(2, 200, b"{\"id\":1,\"username\":\"ash\"}".to_vec());
    run(&mut s, effects, &mut work);
    assert!(work.is_empty());
    assert_eq!(s.current_user_id, Some(1));
    assert_eq!(s.client.in_flight(), 0);
}

#[test]
fn a_history_may_arrive_before_its_chat_is_known() {
    let mut s = logged_in();
    let history = s.open_chat(9).unwrap();
    let chats = effect_of(s.client.get_chats());
    assert_eq!((history, chats), (get(1, "chats/9/messages"), get(2, "chats")));
    let body = b"{\"chat_id\":9,\"messages\":[{\"id\":1,\"chat_id\":9,\"sender_id\":5,\"content\":\"x\",\"timestamp\":\"t\",\"files\":[]}]}";
    let mut work = Vec::new();
    let effects = s.handle_response(1, 200, body.to_vec());
    run(&mut s, effects, &mut work);
    assert_eq!(s.get_message_number(), 1);
    assert_eq!(s.get_chats_number(), 0);
    assert_eq!(s.get_chat_name(9), "9");
    let effects = s.handle_response(
        2,
        200,
        b"[{\"id\":9,\"name\":\"late\",\"chat_type\":\"group\",\"participants\":[5],\"created_at\":\"t\"}]".to_vec(),
    );
    run(&mut s, effects, &mut work);
    assert_eq!(s.get_chat_name(9), "late");
    assert_eq!(s.get_message_number(), 1);
    assert_eq!(calls(&work), 1);
}
