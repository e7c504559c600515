//! The application state store: the canonical collections that the events of
//! the client are folded into, and the queries that the user interface asks.

use crate::client::{
    advanced, drained, effects_view, sent, ClientView, Effect, EffectView, NetworkEvent,
    NetworkEventView, ShinDensenClient,
};
use crate::decoder::{failure_event, Failure, FailureView};
use crate::encode::auth_json;
use crate::json::same_text;
use crate::request::{HttpCall, HttpCallView, RequestTag, Ticket};
use crate::socket::{frames_view, SocketFrame};
use crate::text::{decimal, decimal_text};
use crate::wire::{
    chats_view, messages_view, ActionView, ChatInfo, ChatInfoView, ChatMessage, ChatMessageView,
    ShinDensenClientAction, UserInfoResponse, UserInfoView,
};
use std::collections::HashMap;
use std::collections::HashSet;
use vstd::prelude::*;
use vstd::string::*;

verus! {

broadcast use vstd::std_specs::hash::group_hash_axioms;

/// The screen that the application shows.
#[derive(Clone, Copy, Debug, PartialEq, Eq, Structural)]
pub enum Screen {
    Auth,
    Dialog,
    NewChatInit,
}

/// The application state.
pub struct State {
    /// The name under which the user logged in.
    pub username: String,
    /// The chats, by identifier.
    pub chat_info: HashMap<i64, ChatInfo>,
    /// The messages of each chat, in arrival order.
    pub msg_history: HashMap<i64, Vec<ChatMessage>>,
    /// The users that are known, by identifier.
    pub user_info: HashMap<i64, UserInfoResponse>,
    /// The users for whom a lookup by identifier is in flight.
    pub pending_user_fetches: HashSet<i64>,
    /// The chat that is open.
    pub open_chat_id: Option<i64>,
    /// The identifier of the user that is logged in, once it is known.
    pub current_user_id: Option<i64>,
    pub screen: Screen,
    pub client: ShinDensenClient,
}

/// What the application state holds.
pub struct StateView {
    pub username: Seq<char>,
    pub chats: Map<i64, ChatInfoView>,
    pub messages: Map<i64, Seq<ChatMessageView>>,
    pub users: Map<i64, UserInfoView>,
    pub pending: Set<i64>,
    pub open_chat_id: Option<i64>,
    pub current_user_id: Option<i64>,
    pub screen: Screen,
    pub client: ClientView,
}

impl View for State {
    type V = StateView;

    open spec fn view(&self) -> StateView {
        StateView {
            username: self.username@,
            chats: Map::new(
                |id: i64| self.chat_info@.contains_key(id),
                |id: i64| self.chat_info@[id]@,
            ),
            messages: Map::new(
                |id: i64| self.msg_history@.contains_key(id),
                |id: i64| messages_view(self.msg_history@[id]@),
            ),
            users: Map::new(
                |id: i64| self.user_info@.contains_key(id),
                |id: i64| self.user_info@[id]@,
            ),
            pending: self.pending_user_fetches@,
            open_chat_id: self.open_chat_id,
            current_user_id: self.current_user_id,
            screen: self.screen,
            client: self.client@,
        }
    }
}

/// The messages of a chat: none where the chat has no list yet.
pub open spec fn messages_in(s: StateView, chat_id: i64) -> Seq<ChatMessageView> {
    if s.messages.contains_key(chat_id) {
        s.messages[chat_id]
    } else {
        Seq::empty()
    }
}

/// The effect that reports what became of asking for a request.
pub open spec fn request_effect(r: Result<HttpCallView, FailureView>) -> EffectView {
    match r {
        Ok(call) => EffectView::Http(call),
        Err(failure) => EffectView::Emit(failure_event(failure)),
    }
}

/// What asking the client for a request does to the state: the state
/// afterwards and the call to make, or the event that reports the refusal.
pub open spec fn asked(
    s: StateView,
    ticket: Ticket,
    suffix: Seq<char>,
    payload: Option<Seq<char>>,
) -> (StateView, EffectView) {
    let r = sent(s.client, ticket, suffix, payload);
    (StateView { client: r.0, ..s }, request_effect(r.1))
}

/// Whether a lookup by identifier has to go out for a user: the user is
/// neither known nor being looked up.
pub open spec fn needs_fetch(s: StateView, user_id: i64) -> bool {
    !s.users.contains_key(user_id) && !s.pending.contains(user_id)
}

/// The ticket of a lookup by identifier.
pub open spec fn fetch_ticket(user_id: i64) -> Ticket {
    Ticket { tag: RequestTag::GetUserById, user_id: Some(user_id) }
}

/// What requesting a user does.
/// - Nothing, when the user is known or is being looked up.
/// - Otherwise a lookup goes out and the user counts as being looked up.
/// - When the client refuses the lookup, the refusal is reported and the
///   state stays, so that the request can be made again.
pub open spec fn fetched(s: StateView, user_id: i64) -> (StateView, Option<EffectView>) {
    if !needs_fetch(s, user_id) {
        (s, None)
    } else {
        let r = sent(s.client, fetch_ticket(user_id), "users/"@ + decimal(user_id as int), None);
        match r.1 {
            Ok(call) => (
                StateView { pending: s.pending.insert(user_id), client: r.0, ..s },
                Some(EffectView::Http(call)),
            ),
            Err(failure) => (s, Some(EffectView::Emit(failure_event(failure)))),
        }
    }
}

/// What requesting a run of users does, one after the other.
pub open spec fn fetched_all(s: StateView, user_ids: Seq<i64>) -> (StateView, Seq<EffectView>)
    decreases user_ids.len(),
{
    if user_ids.len() == 0 {
        (s, Seq::empty())
    } else {
        let before = fetched_all(s, user_ids.drop_last());
        let last = fetched(before.0, user_ids.last());
        (
            last.0,
            match last.1 {
                Some(effect) => before.1.push(effect),
                None => before.1,
            },
        )
    }
}

/// The state after the lookup of a user has ended, however it ended.
pub open spec fn settled(s: StateView, ticket: Option<Ticket>) -> StateView {
    match ticket {
        Some(Ticket { tag: RequestTag::GetUserById, user_id: Some(id) }) => StateView {
            pending: s.pending.remove(id),
            ..s
        },
        _ => s,
    }
}

/// The chat map after a chat list was folded in: each chat of the list stands
/// under its identifier, whole; of two chats with one identifier the later
/// stays.
pub open spec fn chats_after(chats: Map<i64, ChatInfoView>, list: Seq<ChatInfoView>) -> Map<
    i64,
    ChatInfoView,
>
    decreases list.len(),
{
    if list.len() == 0 {
        chats
    } else {
        chats_after(chats, list.drop_last()).insert(list.last().id, list.last())
    }
}

/// The participants of the chats of a list, chat by chat, in order.
pub open spec fn participants_of(list: Seq<ChatInfoView>) -> Seq<i64>
    decreases list.len(),
{
    if list.len() == 0 {
        Seq::empty()
    } else {
        participants_of(list.drop_last()) + list.last().participants
    }
}

/// The senders of a run of messages, in order.
pub open spec fn senders_of(messages: Seq<ChatMessageView>) -> Seq<i64> {
    messages.map_values(|m: ChatMessageView| m.sender_id)
}

/// The state after a user record arrived: the record stands in the cache
/// under its identifier, the user is no longer being looked up, and where its
/// name is that of the local user its identifier is the current user's.
pub open spec fn with_user(s: StateView, user: UserInfoView) -> StateView {
    StateView {
        users: s.users.insert(user.id, user),
        pending: s.pending.remove(user.id),
        current_user_id: if user.username == s.username {
            Some(user.id)
        } else {
            s.current_user_id
        },
        ..s
    }
}

/// The ticket of a request that is not about one user.
pub open spec fn plain_ticket(tag: RequestTag) -> Ticket {
    Ticket { tag, user_id: None }
}

/// The path of the messages of a chat.
pub open spec fn history_path(chat_id: i64) -> Seq<char> {
    "chats/"@ + decimal(chat_id as int) + "/messages"@
}

/// What folding an event into the state does: the state afterwards, and the
/// effects that the event triggers.
/// - `Authenticated`: the chat list and the local user's own record are asked
///   for.
/// - `Chats`: the chats are folded into the chat map, then every participant
///   of every chat is requested. Histories are not asked for here.
/// - `History`: the messages replace the list of the chat, then every sender
///   is requested.
/// - `NewMessage`: the message goes to the end of the list of its chat, then
///   its sender is requested.
/// - `UserInfo`, `UserSearchResponse`: the record is cached.
/// - `InitiateChat`: the chat becomes the open chat, and its history is asked
///   for.
/// - Any other event changes nothing.
pub open spec fn applied(s: StateView, action: ActionView) -> (StateView, Seq<EffectView>) {
    match action {
        ActionView::Authenticated => {
            let first = asked(s, plain_ticket(RequestTag::ListChats), "chats"@, None);
            let second = asked(
                first.0,
                plain_ticket(RequestTag::SearchUser),
                "users/"@ + s.username,
                None,
            );
            (second.0, seq![first.1, second.1])
        },
        ActionView::Chats(list) => fetched_all(
            StateView { chats: chats_after(s.chats, list), ..s },
            participants_of(list),
        ),
        ActionView::History(history) => fetched_all(
            StateView { messages: s.messages.insert(history.chat_id, history.messages), ..s },
            senders_of(history.messages),
        ),
        ActionView::NewMessage(message) => fetched_all(
            StateView {
                messages: s.messages.insert(
                    message.chat_id,
                    messages_in(s, message.chat_id).push(message),
                ),
                ..s
            },
            seq![message.sender_id],
        ),
        ActionView::UserInfo(user) => (with_user(s, user), Seq::empty()),
        ActionView::UserSearchResponse(user) => (with_user(s, user), Seq::empty()),
        ActionView::InitiateChat(answer) => {
            let r = asked(
                StateView { open_chat_id: Some(answer.chat_id), ..s },
                plain_ticket(RequestTag::GetHistory),
                history_path(answer.chat_id),
                None,
            );
            (r.0, seq![r.1])
        },
        _ => (s, Seq::empty()),
    }
}

/// What a report of the transport does to the state: the client takes it,
/// and the lookup that it ended, if any, is settled.
pub open spec fn received(s: StateView, event: NetworkEventView) -> (StateView, Seq<EffectView>) {
    let r = advanced(s.client, event);
    (settled(StateView { client: r.0, ..s }, r.1.ticket), r.1.effects)
}

/// What a batch of reports does: each in turn, the effects one after the
/// other.
pub open spec fn received_all(s: StateView, events: Seq<NetworkEventView>) -> (
    StateView,
    Seq<EffectView>,
)
    decreases events.len(),
{
    if events.len() == 0 {
        (s, Seq::empty())
    } else {
        let before = received_all(s, events.drop_last());
        let last = received(before.0, events.last());
        (last.0, before.1 + last.1)
    }
}

/// What logging in under a name does: nothing for an empty name; otherwise
/// the name becomes the local user's, the dialog screen shows, and the login
/// is asked for.
pub open spec fn logged_in(s: StateView, nick: Seq<char>) -> (StateView, Option<EffectView>) {
    if nick.len() == 0 {
        (s, None)
    } else {
        let r = asked(
            StateView { username: nick, screen: Screen::Dialog, ..s },
            plain_ticket(RequestTag::Authenticate),
            "login"@,
            Some(auth_json(nick)),
        );
        (r.0, Some(r.1))
    }
}

/// What asking for the history of the open chat does: nothing where no chat
/// is open.
pub open spec fn history_loaded(s: StateView) -> (StateView, Option<EffectView>) {
    match s.open_chat_id {
        Some(chat_id) => {
            let r = asked(s, plain_ticket(RequestTag::GetHistory), history_path(chat_id), None);
            (r.0, Some(r.1))
        },
        None => (s, None),
    }
}

/// What looking a user up by name does: nothing for an empty name.
pub open spec fn searched(s: StateView, name: Seq<char>) -> (StateView, Option<EffectView>) {
    if name.len() == 0 {
        (s, None)
    } else {
        let r = asked(s, plain_ticket(RequestTag::SearchUser), "users/"@ + name, None);
        (r.0, Some(r.1))
    }
}

/// The name under which a user shows: the display name, else the user name,
/// else, while the user is not known, the letter `U` and the identifier.
pub open spec fn person_name(s: StateView, user_id: i64) -> Seq<char> {
    if s.users.contains_key(user_id) {
        match s.users[user_id].display_name {
            Some(name) => name,
            None => s.users[user_id].username,
        }
    } else {
        "U"@ + decimal(user_id as int)
    }
}

/// The names of the participants other than the current user, in order.
pub open spec fn other_names(s: StateView, participants: Seq<i64>) -> Seq<Seq<char>>
    decreases participants.len(),
{
    if participants.len() == 0 {
        Seq::empty()
    } else {
        let before = other_names(s, participants.drop_last());
        if s.current_user_id == Some(participants.last()) {
            before
        } else {
            before.push(person_name(s, participants.last()))
        }
    }
}

/// Names joined by a comma and a blank.
pub open spec fn joined(names: Seq<Seq<char>>) -> Seq<char>
    decreases names.len(),
{
    if names.len() == 0 {
        Seq::empty()
    } else if names.len() == 1 {
        names[0]
    } else {
        joined(names.drop_last()) + ", "@ + names.last()
    }
}

/// The label of a chat that has only the current user in it.
pub open spec fn self_chat_label() -> Seq<char> {
    "Saved Messages"@
}

/// The name under which a chat shows.
/// - A chat that is not known shows as its identifier.
/// - A chat with a name that is not empty shows under it.
/// - Otherwise the other participants decide: a direct chat shows as the
///   first of them; a group as all of them, or as the first three and an
///   ellipsis where there are more.
/// - A chat with no other participant shows as the self-chat label when the
///   current user is in it, else as its identifier.
pub open spec fn chat_name(s: StateView, chat_id: i64) -> Seq<char> {
    if !s.chats.contains_key(chat_id) {
        decimal(chat_id as int)
    } else {
        let chat = s.chats[chat_id];
        if chat.name is Some && chat.name->0.len() > 0 {
            chat.name->0
        } else {
            let others = other_names(s, chat.participants);
            if others.len() == 0 {
                if s.current_user_id is Some && chat.participants.contains(
                    s.current_user_id->0,
                ) {
                    self_chat_label()
                } else {
                    decimal(chat_id as int)
                }
            } else if chat.chat_type == "direct"@ {
                others[0]
            } else if others.len() > 3 {
                others[0] + ", "@ + others[1] + ", "@ + others[2] + "..."@
            } else {
                joined(others)
            }
        }
    }
}

/// The text of the last message of a chat: empty where the chat has no
/// message, or the last has no text.
pub open spec fn last_message_text(s: StateView, chat_id: i64) -> Seq<char> {
    let list = messages_in(s, chat_id);
    if list.len() == 0 {
        Seq::empty()
    } else {
        match list.last().content {
            Some(text) => text,
            None => Seq::empty(),
        }
    }
}

/// Views of a list of texts, in order.
pub open spec fn texts_view(texts: Seq<String>) -> Seq<Seq<char>> {
    texts.map_values(|t: String| t@)
}

/// View of an optional effect.
pub open spec fn optional_effect_view(e: Option<Effect>) -> Option<EffectView> {
    match e {
        Some(effect) => Some(effect@),
        None => None,
    }
}

/// The effect that reports what became of asking for a request.
pub fn effect_of(r: Result<HttpCall, Failure>) -> (e: Effect)
    ensures
        e@ == request_effect(crate::client::call_view(r)),
{
    match r {
        Ok(call) => Effect::Http(call),
        Err(failure) => Effect::Emit(failure.into_action()),
    }
}

impl State {
    /// The state of an application that has just started: nothing is known,
    /// and the login screen shows.
    pub fn new(api_url: String, ws_url: String) -> (r: State)
        ensures
            r@.username == Seq::<char>::empty(),
            r@.chats == Map::<i64, ChatInfoView>::empty(),
            r@.messages == Map::<i64, Seq<ChatMessageView>>::empty(),
            r@.users == Map::<i64, UserInfoView>::empty(),
            r@.pending == Set::<i64>::empty(),
            r@.open_chat_id is None,
            r@.current_user_id is None,
            r@.screen == Screen::Auth,
            r@.client == (ClientView {
                api_url: api_url@,
                ws_url: ws_url@,
                socket: None,
                token: None,
                registry: Map::empty(),
                upcoming: 0,
                streams: Map::empty(),
            }),
    {
        let r = State {
            username: String::new(),
            chat_info: HashMap::new(),
            msg_history: HashMap::new(),
            user_info: HashMap::new(),
            pending_user_fetches: HashSet::new(),
            open_chat_id: None,
            current_user_id: None,
            screen: Screen::Auth,
            client: ShinDensenClient::new(api_url, ws_url),
        };
        r
    }

    /// The number of chats.
    pub fn get_chats_number(&self) -> (r: usize)
        ensures
            r == self@.chats.len(),
    {
        assert(self@.chats.dom() =~= self.chat_info@.dom());
        self.chat_info.len()
    }

    /// The number of messages of the open chat: zero where no chat is open.
    pub fn get_message_number(&self) -> (r: usize)
        ensures
            r == match self@.open_chat_id {
                Some(chat_id) => messages_in(self@, chat_id).len(),
                None => 0,
            },
    {
        match self.open_chat_id {
            Some(chat_id) => match self.msg_history.get(&chat_id) {
                Some(list) => list.len(),
                None => 0,
            },
            None => 0,
        }
    }

    /// Adds a message at the end of the list of its chat.
    pub fn add_message(&mut self, msg: ChatMessage)
        ensures
            final(self)@ == (StateView {
                messages: old(self)@.messages.insert(
                    msg.chat_id,
                    messages_in(old(self)@, msg.chat_id).push(msg@),
                ),
                ..old(self)@
            }),
    {
        let chat_id = msg.chat_id;
        let ghost added = msg@;
        let mut list = match self.msg_history.remove(&chat_id) {
            Some(list) => list,
            None => Vec::new(),
        };
        list.push(msg);
        assert(messages_view(list@) =~= messages_in(old(self)@, chat_id).push(added));
        self.msg_history.insert(chat_id, list);
        assert(self@.messages =~= old(self)@.messages.insert(
            chat_id,
            messages_in(old(self)@, chat_id).push(added),
        ));
    }

    /// Requests a user: a lookup by identifier goes out unless the user is
    /// known or is being looked up already.
    pub fn fetch_user(&mut self, user_id: i64) -> (r: Option<Effect>)
        ensures
            (final(self)@, optional_effect_view(r)) == fetched(old(self)@, user_id),
    {
        if self.user_info.contains_key(&user_id) || self.pending_user_fetches.contains(&user_id) {
            return None;
        }
        match self.client.user_get_by_id(user_id) {
            Ok(call) => {
                self.pending_user_fetches.insert(user_id);
                Some(Effect::Http(call))
            },
            Err(failure) => Some(Effect::Emit(failure.into_action())),
        }
    }

    /// Requests a run of users, one after the other.
    pub fn fetch_users(&mut self, user_ids: &Vec<i64>) -> (r: Vec<Effect>)
        ensures
            (final(self)@, effects_view(r@)) == fetched_all(old(self)@, user_ids@),
    {
        let mut out: Vec<Effect> = Vec::new();
        let mut at: usize = 0;
        while at < user_ids.len()
            invariant
                at <= user_ids.len(),
                (self@, effects_view(out@)) == fetched_all(old(self)@, user_ids@.take(at as int)),
            decreases user_ids.len() - at,
        {
            let step = self.fetch_user(user_ids[at]);
            assert(user_ids@.take(at as int + 1).drop_last() =~= user_ids@.take(at as int));
            match step {
                Some(effect) => {
                    out.push(effect);
                },
                None => {},
            }
            at = at + 1;
        }
        assert(user_ids@.take(at as int) =~= user_ids@);
        out
    }

    /// Records that the request of a ticket has ended: a user that was being
    /// looked up by identifier is no longer so, whatever the answer was.
    pub fn settle(&mut self, ticket: Option<Ticket>)
        ensures
            final(self)@ == settled(old(self)@, ticket),
    {
        match ticket {
            Some(t) => match t.tag {
                RequestTag::GetUserById => match t.user_id {
                    Some(id) => {
                        self.pending_user_fetches.remove(&id);
                    },
                    None => {},
                },
                _ => {},
            },
            None => {},
        }
    }

    /// Caches a user record.
    fn put_user(&mut self, user: UserInfoResponse)
        ensures
            final(self)@ == with_user(old(self)@, user@),
    {
        let ghost view = user@;
        if user.username == self.username {
            self.current_user_id = Some(user.id);
        }
        self.pending_user_fetches.remove(&user.id);
        self.user_info.insert(user.id, user);
        assert(self@.users =~= old(self)@.users.insert(view.id, view));
    }

    /// Folds a chat list into the chat map and hands out the participants of
    /// its chats.
    fn put_chats(&mut self, chats: Vec<ChatInfo>) -> (r: Vec<i64>)
        ensures
            final(self)@ == (StateView {
                chats: chats_after(old(self)@.chats, chats_view(chats@)),
                ..old(self)@
            }),
            r@ == participants_of(chats_view(chats@)),
    {
        let ghost items = chats@;
        let ghost list = chats_view(chats@);
        let mut ids: Vec<i64> = Vec::new();
        for chat in it: chats
            invariant
                it.seq() == items,
                list == chats_view(items),
                self@ == (StateView {
                    chats: chats_after(old(self)@.chats, list.take(it.index() as int)),
                    ..old(self)@
                }),
                ids@ == participants_of(list.take(it.index() as int)),
        {
            let ghost at = it.index() as int;
            let mut p: usize = 0;
            let ghost before = ids@;
            while p < chat.participants.len()
                invariant
                    p <= chat.participants.len(),
                    ids@ == before + chat.participants@.take(p as int),
                decreases chat.participants.len() - p,
            {
                ids.push(chat.participants[p]);
                p = p + 1;
            }
            assert(list.take(at + 1).drop_last() =~= list.take(at));
            let ghost view = chat@;
            let ghost map_before = self@.chats;
            self.chat_info.insert(chat.id, chat);
            assert(self@.chats =~= map_before.insert(view.id, view));
        }
        assert(list.take(list.len() as int) =~= list);
        ids
    }

    /// The senders of a run of messages, in order.
    fn senders(messages: &Vec<ChatMessage>) -> (r: Vec<i64>)
        ensures
            r@ == senders_of(messages_view(messages@)),
    {
        let mut ids: Vec<i64> = Vec::new();
        let mut at: usize = 0;
        while at < messages.len()
            invariant
                at <= messages.len(),
                ids@.len() == at,
                forall|k: int| 0 <= k < at ==> ids@[k] == (#[trigger] messages@[k]).sender_id,
            decreases messages.len() - at,
        {
            ids.push(messages[at].sender_id);
            at = at + 1;
        }
        ids
    }

    /// Folds an event into the state. Returns the effects that the event
    /// triggers, in order.
    pub fn apply(&mut self, action: ShinDensenClientAction) -> (r: Vec<Effect>)
        ensures
            (final(self)@, effects_view(r@)) == applied(old(self)@, action@),
    {
        match action {
            ShinDensenClientAction::Authenticated => {
                let mut out: Vec<Effect> = Vec::new();
                let first = effect_of(self.client.get_chats());
                let name = self.username.clone();
                let second = effect_of(self.client.user_search(name));
                out.push(first);
                out.push(second);
                out
            },
            ShinDensenClientAction::Chats(chats) => {
                let ids = self.put_chats(chats);
                self.fetch_users(&ids)
            },
            ShinDensenClientAction::History(history) => {
                let ids = State::senders(&history.messages);
                let ghost view = history@;
                self.msg_history.insert(history.chat_id, history.messages);
                assert(self@.messages =~= old(self)@.messages.insert(view.chat_id, view.messages));
                self.fetch_users(&ids)
            },
            ShinDensenClientAction::NewMessage(message) => {
                let mut ids: Vec<i64> = Vec::new();
                ids.push(message.sender_id);
                self.add_message(message);
                self.fetch_users(&ids)
            },
            ShinDensenClientAction::UserInfo(user) => {
                self.put_user(user);
                let out: Vec<Effect> = Vec::new();
                out
            },
            ShinDensenClientAction::UserSearchResponse(user) => {
                self.put_user(user);
                let out: Vec<Effect> = Vec::new();
                out
            },
            ShinDensenClientAction::InitiateChat(answer) => {
                self.open_chat_id = Some(answer.chat_id);
                let mut out: Vec<Effect> = Vec::new();
                let effect = effect_of(self.client.get_history(answer.chat_id));
                out.push(effect);
                out
            },
            _ => {
                let out: Vec<Effect> = Vec::new();
                out
            },
        }
    }

    /// Takes one report of the transport.
    pub fn handle_network_event(&mut self, event: &NetworkEvent) -> (r: Vec<Effect>)
        ensures
            (final(self)@, effects_view(r@)) == received(old(self)@, event@),
    {
        let resolution = self.client.handle_network_event(event);
        self.settle(resolution.ticket);
        resolution.effects
    }

    /// Takes the answer to a request.
    pub fn handle_response(&mut self, request_id: u64, status: u16, data: Vec<u8>) -> (r: Vec<
        Effect,
    >)
        ensures
            (final(self)@, effects_view(r@)) == received(
                old(self)@,
                NetworkEventView {
                    request_id,
                    response: crate::client::NetworkResponseView::HttpResponse {
                        status,
                        body: data@,
                    },
                },
            ),
    {
        let resolution = self.client.handle_response(request_id, status, data);
        self.settle(resolution.ticket);
        resolution.effects
    }

    /// Takes a batch of reports of the transport, each in turn.
    pub fn handle_network_responses(&mut self, responses: &Vec<NetworkEvent>) -> (r: Vec<Effect>)
        ensures
            (final(self)@, effects_view(r@)) == received_all(
                old(self)@,
                crate::client::events_view(responses@),
            ),
    {
        let ghost all = crate::client::events_view(responses@);
        let mut out: Vec<Effect> = Vec::new();
        let mut at: usize = 0;
        while at < responses.len()
            invariant
                at <= responses.len(),
                all == crate::client::events_view(responses@),
                all.len() == responses@.len(),
                (self@, effects_view(out@)) == received_all(old(self)@, all.take(at as int)),
            decreases responses.len() - at,
        {
            let mut effects = self.handle_network_event(&responses[at]);
            out.append(&mut effects);
            assert(all.take(at as int + 1).drop_last() =~= all.take(at as int));
            at = at + 1;
        }
        assert(all.take(at as int) =~= all);
        out
    }

    /// Runs one drain cycle on the frames that were polled from the socket.
    pub fn handle_signal(&mut self, frames: &Vec<SocketFrame>) -> (r: Vec<Effect>)
        ensures
            effects_view(r@) == drained(old(self)@.client, frames_view(frames@)).1,
            final(self)@ == (StateView {
                client: drained(old(self)@.client, frames_view(frames@)).0,
                ..old(self)@
            }),
    {
        self.client.handle_signal(frames)
    }

    /// Logs in under a name.
    pub fn login(&mut self, nick: String) -> (r: Option<Effect>)
        ensures
            (final(self)@, optional_effect_view(r)) == logged_in(old(self)@, nick@),
    {
        if nick.as_str().is_empty() {
            return None;
        }
        self.screen = Screen::Dialog;
        self.username = nick.clone();
        Some(effect_of(self.client.authorize(nick)))
    }

    /// Asks for the messages of the open chat.
    pub fn load_msg_history(&mut self) -> (r: Option<Effect>)
        ensures
            (final(self)@, optional_effect_view(r)) == history_loaded(old(self)@),
    {
        match self.open_chat_id {
            Some(chat_id) => Some(effect_of(self.client.get_history(chat_id))),
            None => None,
        }
    }

    /// Opens a chat and asks for its messages.
    pub fn open_chat(&mut self, chat_id: i64) -> (r: Option<Effect>)
        ensures
            (final(self)@, optional_effect_view(r)) == history_loaded(
                StateView { open_chat_id: Some(chat_id), ..old(self)@ },
            ),
    {
        self.open_chat_id = Some(chat_id);
        self.load_msg_history()
    }

    /// Looks a user up by name.
    pub fn user_search(&mut self, name: String) -> (r: Option<Effect>)
        ensures
            (final(self)@, optional_effect_view(r)) == searched(old(self)@, name@),
    {
        if name.as_str().is_empty() {
            return None;
        }
        Some(effect_of(self.client.user_search(name)))
    }
    /// The name under which a user shows.
    fn person(&self, user_id: i64) -> (r: String)
        ensures
            r@ == person_name(self@, user_id),
    {
        match self.user_info.get(&user_id) {
            Some(user) => match &user.display_name {
                Some(name) => name.clone(),
                None => user.username.clone(),
            },
            None => {
                let mut r = String::from_str("U");
                let id = decimal_text(user_id);
                r.append(id.as_str());
                r
            },
        }
    }

    /// The names of the participants other than the current user, in order.
    fn others(&self, participants: &Vec<i64>) -> (r: Vec<String>)
        ensures
            texts_view(r@) == other_names(self@, participants@),
    {
        let mut out: Vec<String> = Vec::new();
        let mut at: usize = 0;
        while at < participants.len()
            invariant
                at <= participants.len(),
                texts_view(out@) == other_names(self@, participants@.take(at as int)),
            decreases participants.len() - at,
        {
            let id = participants[at];
            assert(participants@.take(at as int + 1).drop_last() =~= participants@.take(
                at as int,
            ));
            let me = match self.current_user_id {
                Some(mine) => mine == id,
                None => false,
            };
            if !me {
                let name = self.person(id);
                out.push(name);
            }
            at = at + 1;
        }
        assert(participants@.take(at as int) =~= participants@);
        out
    }

    /// The name under which a chat shows.
    pub fn get_chat_name(&self, chat_id: i64) -> (r: String)
        ensures
            r@ == chat_name(self@, chat_id),
    {
        let chat = match self.chat_info.get(&chat_id) {
            Some(chat) => chat,
            None => {
                return decimal_text(chat_id);
            },
        };
        match &chat.name {
            Some(name) => {
                if !name.as_str().is_empty() {
                    return name.clone();
                }
            },
            None => {},
        }
        let others = self.others(&chat.participants);
        if others.len() == 0 {
            match self.current_user_id {
                Some(me) => {
                    if has_id(&chat.participants, me) {
                        return String::from_str("Saved Messages");
                    }
                },
                None => {},
            }
            return decimal_text(chat_id);
        }
        if same_text(&chat.chat_type, "direct") {
            return others[0].clone();
        }
        if others.len() > 3 {
            let mut r = others[0].clone();
            r.append(", ");
            r.append(others[1].as_str());
            r.append(", ");
            r.append(others[2].as_str());
            r.append("...");
            return r;
        }
        join(&others)
    }

    /// The text of the last message of a chat.
    pub fn get_last_message(&self, chat_id: i64) -> (r: String)
        ensures
            r@ == last_message_text(self@, chat_id),
    {
        match self.msg_history.get(&chat_id) {
            Some(list) => {
                if list.len() == 0 {
                    return String::new();
                }
                let last = &list[list.len() - 1];
                match &last.content {
                    Some(text) => text.clone(),
                    None => String::new(),
                }
            },
            None => String::new(),
        }
    }
}

/// Whether an identifier is in a list.
fn has_id(ids: &Vec<i64>, id: i64) -> (r: bool)
    ensures
        r == ids@.contains(id),
{
    let mut at: usize = 0;
    while at < ids.len()
        invariant
            at <= ids.len(),
            forall|k: int| 0 <= k < at ==> ids@[k] != id,
        decreases ids.len() - at,
    {
        if ids[at] == id {
            return true;
        }
        at = at + 1;
    }
    false
}

/// Joins names by a comma and a blank.
fn join(names: &Vec<String>) -> (r: String)
    ensures
        r@ == joined(texts_view(names@)),
{
    let ghost all = texts_view(names@);
    let mut out = String::new();
    let mut at: usize = 0;
    while at < names.len()
        invariant
            at <= names.len(),
            all == texts_view(names@),
            all.len() == names@.len(),
            out@ == joined(all.take(at as int)),
        decreases names.len() - at,
    {
        if at > 0 {
            out.append(", ");
        }
        out.append(names[at].as_str());
        assert(all.take(at as int + 1).drop_last() =~= all.take(at as int));
        at = at + 1;
    }
    assert(all.take(at as int) =~= all);
    out
}

} // verus!
