//! Laws of the session core, proved from the definitions that the contracts
//! of the functions use.

use crate::client::{
    advanced, advanced_all, can_issue, concluded, drained, frame_step, handshake,
    nothing_resolved, resolved, sent, ClientView, EffectView, NetworkEventView,
    NetworkResponseView,
};
use crate::decoder::decode_outcome;
use crate::reassembler::buffered_in;
use crate::request::{RequestTag, Ticket};
use crate::socket::{socket_error_event, FrameView, SocketPhase, SocketSessionView};
use crate::state::{
    applied, asked, chats_after, fetch_ticket, fetched, fetched_all, history_path, messages_in,
    needs_fetch, participants_of, plain_ticket, received, senders_of, settled, with_user,
    StateView,
};
use crate::wire::{ActionView, ChatInfoView, HistoryView, UserInfoView};
use vstd::prelude::*;

verus! {

/// Whether a chat list has a chat with this identifier.
pub open spec fn listed(list: Seq<ChatInfoView>, id: i64) -> bool {
    exists|i: int| 0 <= i < list.len() && (#[trigger] list[i]).id == id
}

/// Under an identifier that the list has, the folded map holds a chat of the
/// list, whatever the map held before.
proof fn lemma_chats_after_listed(
    first: Map<i64, ChatInfoView>,
    second: Map<i64, ChatInfoView>,
    list: Seq<ChatInfoView>,
    id: i64,
)
    requires
        listed(list, id),
    ensures
        chats_after(first, list).contains_key(id),
        chats_after(second, list).contains_key(id),
        chats_after(first, list)[id] == chats_after(second, list)[id],
    decreases list.len(),
{
    let rest = list.drop_last();
    assert(chats_after(first, list) == chats_after(first, rest).insert(list.last().id, list.last()));
    assert(chats_after(second, list) == chats_after(second, rest).insert(
        list.last().id,
        list.last(),
    ));
    if list.last().id != id {
        let i = choose|i: int| 0 <= i < list.len() && (#[trigger] list[i]).id == id;
        assert(rest[i] == list[i]);
        lemma_chats_after_listed(first, second, rest, id);
    }
}

/// Under an identifier that the list does not have, the folded map holds
/// what the map held before.
proof fn lemma_chats_after_unlisted(chats: Map<i64, ChatInfoView>, list: Seq<ChatInfoView>, id: i64)
    requires
        !listed(list, id),
    ensures
        chats_after(chats, list).contains_key(id) == chats.contains_key(id),
        chats.contains_key(id) ==> chats_after(chats, list)[id] == chats[id],
    decreases list.len(),
{
    if list.len() > 0 {
        let rest = list.drop_last();
        assert(chats_after(chats, list) == chats_after(chats, rest).insert(
            list.last().id,
            list.last(),
        ));
        assert(list[list.len() - 1].id != id);
        assert forall|i: int| 0 <= i < rest.len() implies (#[trigger] rest[i]).id != id by {
            assert(rest[i] == list[i]);
        }
        lemma_chats_after_unlisted(chats, rest, id);
    }
}

/// Folding a chat list into a chat map twice gives the map that folding it
/// once gives.
pub proof fn law_chat_map_fold_is_idempotent(chats: Map<i64, ChatInfoView>, list: Seq<ChatInfoView>)
    ensures
        chats_after(chats_after(chats, list), list) == chats_after(chats, list),
{
    let once = chats_after(chats, list);
    let twice = chats_after(once, list);
    assert forall|id: i64| #[trigger] twice.dom().contains(id) == once.dom().contains(id) by {
        if listed(list, id) {
            lemma_chats_after_listed(once, chats, list, id);
        } else {
            lemma_chats_after_unlisted(once, list, id);
        }
    }
    assert(twice.dom() =~= once.dom());
    assert forall|id: i64| once.dom().contains(id) implies #[trigger] twice[id] == once[id] by {
        if listed(list, id) {
            lemma_chats_after_listed(once, chats, list, id);
        } else {
            lemma_chats_after_unlisted(once, list, id);
        }
    }
    assert(twice =~= once);
}

/// Requesting users changes neither the chats, nor the messages, nor the
/// cache of users, nor who the local user is.
pub proof fn lemma_fetches_keep_collections(s: StateView, user_ids: Seq<i64>)
    ensures
        fetched_all(s, user_ids).0.chats == s.chats,
        fetched_all(s, user_ids).0.messages == s.messages,
        fetched_all(s, user_ids).0.users == s.users,
        fetched_all(s, user_ids).0.username == s.username,
        fetched_all(s, user_ids).0.current_user_id == s.current_user_id,
        fetched_all(s, user_ids).0.open_chat_id == s.open_chat_id,
    decreases user_ids.len(),
{
    if user_ids.len() > 0 {
        lemma_fetches_keep_collections(s, user_ids.drop_last());
    }
}

/// The fold is idempotent for chat lists: after the same `Chats` event was
/// applied twice, the chat map is the one that stood after the first.
pub proof fn law_chats_fold_is_idempotent(s: StateView, list: Seq<ChatInfoView>)
    ensures
        applied(applied(s, ActionView::Chats(list)).0, ActionView::Chats(list)).0.chats == applied(
            s,
            ActionView::Chats(list),
        ).0.chats,
{
    let once = applied(s, ActionView::Chats(list)).0;
    lemma_fetches_keep_collections(
        StateView { chats: chats_after(s.chats, list), ..s },
        participants_of(list),
    );
    lemma_fetches_keep_collections(
        StateView { chats: chats_after(once.chats, list), ..once },
        participants_of(list),
    );
    law_chat_map_fold_is_idempotent(s.chats, list);
}

/// A history replaces: after a `History` event, the list of its chat is
/// exactly the list of the event, whatever stood there before.
pub proof fn law_history_replaces(s: StateView, history: HistoryView)
    ensures
        messages_in(applied(s, ActionView::History(history)).0, history.chat_id)
            == history.messages,
{
    lemma_fetches_keep_collections(
        StateView { messages: s.messages.insert(history.chat_id, history.messages), ..s },
        senders_of(history.messages),
    );
}

/// Two histories for one chat, one after the other, leave the second: the
/// messages of the first are gone.
pub proof fn law_second_history_stays(s: StateView, first: HistoryView, second: HistoryView)
    requires
        first.chat_id == second.chat_id,
    ensures
        messages_in(
            applied(applied(s, ActionView::History(first)).0, ActionView::History(second)).0,
            second.chat_id,
        ) == second.messages,
{
    law_history_replaces(applied(s, ActionView::History(first)).0, second);
}

/// Whether an effect is an HTTP call.
pub open spec fn is_call(effect: Option<EffectView>) -> bool {
    effect matches Some(EffectView::Http(_))
}

/// Requesting a user twice before its lookup has ended sends at most one
/// lookup, and exactly one where the user was needed and the client let the
/// request out.
pub proof fn law_fetch_is_not_repeated(s: StateView, user_id: i64)
    ensures
        ({
            let first = fetched(s, user_id);
            let second = fetched(first.0, user_id);
            &&& is_call(first.1) <==> needs_fetch(s, user_id) && can_issue(
                s.client,
                RequestTag::GetUserById,
            )
            &&& is_call(first.1) ==> second.1 is None && second.0 == first.0
            &&& !needs_fetch(s, user_id) ==> first.1 is None && second.1 is None
        }),
{
}

/// After the lookup of a user has ended with its record, a further request
/// for the user sends nothing.
pub proof fn law_no_fetch_once_known(s: StateView, user: UserInfoView)
    ensures
        fetched(with_user(s, user), user.id) == (with_user(s, user), None::<EffectView>),
        fetched(applied(s, ActionView::UserInfo(user)).0, user.id).1 is None,
{
}

/// After the lookup of a user has ended, with whatever answer, a further
/// request for the user sends a new lookup only if the cache lacks the user:
/// the ended lookup no longer stands in the way, and a user in the cache is
/// not looked up.
pub proof fn law_fetch_after_resolution(s: StateView, user_id: i64)
    ensures
        ({
            let after = settled(s, Some(fetch_ticket(user_id)));
            &&& !after.pending.contains(user_id)
            &&& needs_fetch(after, user_id) <==> !s.users.contains_key(user_id)
            &&& is_call(fetched(after, user_id).1) <==> !s.users.contains_key(user_id) && can_issue(
                s.client,
                RequestTag::GetUserById,
            )
        }),
{
}

/// Whether an effect reports a transport failure.
pub open spec fn is_network_error(effect: EffectView) -> bool {
    effect matches EffectView::Emit(ActionView::NetworkError(_))
}

/// Whether an effect opens the socket.
pub open spec fn is_reopen(effect: EffectView) -> bool {
    effect is OpenSocket
}

/// The reports of transport failures among effects.
pub open spec fn network_errors(effects: Seq<EffectView>) -> Seq<EffectView> {
    effects.filter(|e: EffectView| is_network_error(e))
}

/// The attempts to open the socket among effects.
pub open spec fn reopens(effects: Seq<EffectView>) -> Seq<EffectView> {
    effects.filter(|e: EffectView| is_reopen(e))
}

/// What is picked out of no effects, of one effect and of two.
proof fn lemma_picked(first: EffectView, second: EffectView, pick: spec_fn(EffectView) -> bool)
    ensures
        Seq::<EffectView>::empty().filter(pick).len() == 0,
        seq![first].filter(pick).len() == if pick(first) {
            1nat
        } else {
            0nat
        },
        seq![first, second].filter(pick).len() == (if pick(first) {
            1nat
        } else {
            0nat
        }) + (if pick(second) {
            1nat
        } else {
            0nat
        }),
{
    reveal_with_fuel(Seq::filter, 3);
    assert(seq![first].drop_last() =~= Seq::<EffectView>::empty());
    assert(seq![first, second].drop_last() =~= seq![first]);
}

/// An `Error` frame on a live session gives exactly one `NetworkError`
/// event, then exactly one attempt to reopen the socket, with the
/// credential of the session; the drain cycle ends, and the session is being
/// opened. When the new connection reports `Opened`, the session is open
/// again and nothing else happens.
pub proof fn law_error_reopens_once(c: ClientView, detail: Seq<char>)
    requires
        c.socket is Some,
    ensures
        ({
            let token = c.socket->0.token;
            let failed = frame_step(c, FrameView::Error(detail));
            let reopened = frame_step(failed.0, FrameView::Opened);
            &&& failed.1 == seq![
                EffectView::Emit(socket_error_event(detail)),
                EffectView::OpenSocket(handshake(c, token)),
            ]
            &&& network_errors(failed.1).len() == 1
            &&& reopens(failed.1).len() == 1
            &&& !failed.2
            &&& failed.0.socket == Some(SocketSessionView { phase: SocketPhase::Opening, token })
            &&& reopened.1.len() == 0
            &&& reopened.0.socket == Some(SocketSessionView { phase: SocketPhase::Open, token })
        }),
{
    let token = c.socket->0.token;
    let first = EffectView::Emit(socket_error_event(detail));
    let second = EffectView::OpenSocket(handshake(c, token));
    lemma_picked(first, second, |e: EffectView| is_network_error(e));
    lemma_picked(first, second, |e: EffectView| is_reopen(e));
}

/// A drain cycle, on whatever frames, attempts to reopen the socket at most
/// once, and reports exactly as many transport failures as it makes such
/// attempts: one for the frame that ended the session, none when no frame
/// did.
pub proof fn law_drain_cycle_reopens_at_most_once(c: ClientView, frames: Seq<FrameView>)
    ensures
        reopens(drained(c, frames).1).len() <= 1,
        network_errors(drained(c, frames).1).len() == reopens(drained(c, frames).1).len(),
    decreases frames.len(),
{
    let errors = |e: EffectView| is_network_error(e);
    let opens = |e: EffectView| is_reopen(e);
    let nothing = EffectView::SendSocket(Seq::empty());
    lemma_picked(nothing, nothing, errors);
    lemma_picked(nothing, nothing, opens);
    if frames.len() > 0 {
        let step = frame_step(c, frames[0]);
        if step.2 {
            let rest = drained(step.0, frames.drop_first());
            law_drain_cycle_reopens_at_most_once(step.0, frames.drop_first());
            Seq::filter_distributes_over_add(step.1, rest.1, errors);
            Seq::filter_distributes_over_add(step.1, rest.1, opens);
            if step.1.len() > 0 {
                assert(step.1 =~= seq![step.1[0]]);
                lemma_picked(step.1[0], nothing, errors);
                lemma_picked(step.1[0], nothing, opens);
            } else {
                assert(step.1 =~= Seq::<EffectView>::empty());
            }
        } else if step.1.len() > 0 {
            assert(step.1 =~= seq![step.1[0], step.1[1]]);
            lemma_picked(step.1[0], step.1[1], errors);
            lemma_picked(step.1[0], step.1[1], opens);
        } else {
            assert(step.1 =~= Seq::<EffectView>::empty());
        }
    }
}

/// Whether a live socket session was opened with the credential that the
/// client holds.
pub open spec fn session_has_the_credential(c: ClientView) -> bool {
    c.socket is Some ==> c.token == Some(c.socket->0.token)
}

/// No socket session without the credential: a new client has no session,
/// and where a live session was opened with the credential that the client
/// holds, it is so again after any request that is let out, any report of the
/// transport and any frame of the socket.
pub proof fn law_session_has_the_credential(
    c: ClientView,
    ticket: Ticket,
    suffix: Seq<char>,
    payload: Option<Seq<char>>,
    event: NetworkEventView,
    frame: FrameView,
)
    requires
        session_has_the_credential(c),
    ensures
        session_has_the_credential(sent(c, ticket, suffix, payload).0),
        session_has_the_credential(advanced(c, event).0),
        session_has_the_credential(frame_step(c, frame).0),
{
}

/// Whether every partial body belongs to a request in flight.
pub open spec fn buffers_in_flight(c: ClientView) -> bool {
    c.streams.dom().subset_of(c.registry.dom())
}

/// No partial body outlives its request: where every partial body belongs to
/// a request in flight, it is so again after any report of the transport,
/// whether its answer could be decoded or not.
pub proof fn law_no_buffer_outlives_its_request(c: ClientView, event: NetworkEventView)
    requires
        buffers_in_flight(c),
    ensures
        buffers_in_flight(advanced(c, event).0),
{
}

/// Letting a request out leaves every partial body with a request in flight.
pub proof fn law_requests_keep_buffers_in_flight(
    c: ClientView,
    ticket: Ticket,
    suffix: Seq<char>,
    payload: Option<Seq<char>>,
)
    requires
        buffers_in_flight(c),
    ensures
        buffers_in_flight(sent(c, ticket, suffix, payload).0),
{
}

/// Whether every user that counts as being looked up has a lookup by
/// identifier in flight.
pub open spec fn lookups_in_flight(s: StateView) -> bool {
    forall|user_id: i64| #[trigger]
        s.pending.contains(user_id) ==> has_lookup(s.client.registry, user_id)
}

/// Whether a lookup by identifier for a user is in flight.
pub open spec fn has_lookup(registry: Map<u64, Ticket>, user_id: i64) -> bool {
    exists|request_id: u64|
        registry.contains_key(request_id) && #[trigger] registry[request_id] == fetch_ticket(
            user_id,
        )
}

/// Letting a request out keeps the lookups that are in flight.
proof fn lemma_sent_keeps_lookups(
    c: ClientView,
    ticket: Ticket,
    suffix: Seq<char>,
    payload: Option<Seq<char>>,
    user_id: i64,
)
    requires
        has_lookup(c.registry, user_id),
    ensures
        has_lookup(sent(c, ticket, suffix, payload).0.registry, user_id),
{
    let request_id = choose|request_id: u64|
        c.registry.contains_key(request_id) && #[trigger] c.registry[request_id] == fetch_ticket(
            user_id,
        );
    let after = sent(c, ticket, suffix, payload).0.registry;
    assert(after.contains_key(request_id) && after[request_id] == fetch_ticket(user_id));
}

/// Asking for a request leaves every user that is being looked up with a
/// lookup in flight.
pub proof fn law_asking_keeps_lookups_in_flight(
    s: StateView,
    ticket: Ticket,
    suffix: Seq<char>,
    payload: Option<Seq<char>>,
)
    requires
        lookups_in_flight(s),
    ensures
        lookups_in_flight(asked(s, ticket, suffix, payload).0),
{
    let after = asked(s, ticket, suffix, payload).0;
    assert forall|user_id: i64| #[trigger] after.pending.contains(user_id) implies has_lookup(
        after.client.registry,
        user_id,
    ) by {
        assert(s.pending.contains(user_id));
        lemma_sent_keeps_lookups(s.client, ticket, suffix, payload, user_id);
    }
}

/// Requesting a user leaves every user that is being looked up with a lookup
/// in flight: the user that is newly looked up has the lookup that went out.
pub proof fn law_fetch_keeps_lookups_in_flight(s: StateView, user_id: i64)
    requires
        lookups_in_flight(s),
    ensures
        lookups_in_flight(fetched(s, user_id).0),
{
    let after = fetched(s, user_id).0;
    let path = "users/"@ + crate::text::decimal(user_id as int);
    assert forall|other: i64| #[trigger] after.pending.contains(other) implies has_lookup(
        after.client.registry,
        other,
    ) by {
        if s.pending.contains(other) {
            lemma_sent_keeps_lookups(s.client, fetch_ticket(user_id), path, None, other);
        } else {
            let request_id = s.client.upcoming;
            assert(after.client.registry.contains_key(request_id) && after.client.registry[request_id]
                == fetch_ticket(user_id));
        }
    }
}

/// Requesting a run of users leaves every user that is being looked up with
/// a lookup in flight.
pub proof fn law_fetches_keep_lookups_in_flight(s: StateView, user_ids: Seq<i64>)
    requires
        lookups_in_flight(s),
    ensures
        lookups_in_flight(fetched_all(s, user_ids).0),
    decreases user_ids.len(),
{
    if user_ids.len() > 0 {
        law_fetches_keep_lookups_in_flight(s, user_ids.drop_last());
        law_fetch_keeps_lookups_in_flight(
            fetched_all(s, user_ids.drop_last()).0,
            user_ids.last(),
        );
    }
}

/// A report of the transport leaves every user that is being looked up with
/// a lookup in flight: the lookup that the report ended is settled, however
/// it ended, so no user stays blocked behind a request that is gone.
pub proof fn law_reports_keep_lookups_in_flight(s: StateView, event: NetworkEventView)
    requires
        lookups_in_flight(s),
    ensures
        lookups_in_flight(received(s, event).0),
{
    let after = received(s, event).0;
    assert forall|user_id: i64| #[trigger] after.pending.contains(user_id) implies has_lookup(
        after.client.registry,
        user_id,
    ) by {
        assert(s.pending.contains(user_id));
        let request_id = choose|request_id: u64|
            s.client.registry.contains_key(request_id) && #[trigger] s.client.registry[request_id]
                == fetch_ticket(user_id);
        assert(after.client.registry.contains_key(request_id) && after.client.registry[request_id]
            == fetch_ticket(user_id));
    }
}

/// Folding an event leaves every user that is being looked up with a lookup
/// in flight.
pub proof fn law_fold_keeps_lookups_in_flight(s: StateView, action: ActionView)
    requires
        lookups_in_flight(s),
    ensures
        lookups_in_flight(applied(s, action).0),
{
    match action {
        ActionView::Authenticated => {
            let first = asked(s, plain_ticket(RequestTag::ListChats), "chats"@, None);
            law_asking_keeps_lookups_in_flight(
                s,
                plain_ticket(RequestTag::ListChats),
                "chats"@,
                None,
            );
            law_asking_keeps_lookups_in_flight(
                first.0,
                plain_ticket(RequestTag::SearchUser),
                "users/"@ + s.username,
                None,
            );
        },
        ActionView::Chats(list) => {
            law_fetches_keep_lookups_in_flight(
                StateView { chats: chats_after(s.chats, list), ..s },
                participants_of(list),
            );
        },
        ActionView::History(history) => {
            law_fetches_keep_lookups_in_flight(
                StateView { messages: s.messages.insert(history.chat_id, history.messages), ..s },
                senders_of(history.messages),
            );
        },
        ActionView::NewMessage(message) => {
            law_fetches_keep_lookups_in_flight(
                StateView {
                    messages: s.messages.insert(
                        message.chat_id,
                        messages_in(s, message.chat_id).push(message),
                    ),
                    ..s
                },
                seq![message.sender_id],
            );
        },
        ActionView::InitiateChat(answer) => {
            law_asking_keeps_lookups_in_flight(
                StateView { open_chat_id: Some(answer.chat_id), ..s },
                plain_ticket(RequestTag::GetHistory),
                history_path(answer.chat_id),
                None,
            );
        },
        _ => {},
    }
}

/// The reports of the chunks of one streamed body, in order.
pub open spec fn chunk_reports(request_id: u64, chunks: Seq<Seq<u8>>) -> Seq<NetworkEventView> {
    chunks.map_values(
        |chunk: Seq<u8>|
            NetworkEventView {
                request_id,
                response: NetworkResponseView::HttpStreamResponse { chunk },
            },
    )
}

/// Chunks joined in order.
pub open spec fn joined_chunks(chunks: Seq<Seq<u8>>) -> Seq<u8>
    decreases chunks.len(),
{
    if chunks.len() == 0 {
        Seq::empty()
    } else {
        joined_chunks(chunks.drop_last()) + chunks.last()
    }
}

/// The chunks of a streamed body change nothing but what is gathered for
/// their request, and that grows by the chunks in the order of their arrival.
pub proof fn lemma_chunks_are_gathered(c: ClientView, request_id: u64, chunks: Seq<Seq<u8>>)
    requires
        c.registry.contains_key(request_id),
    ensures
        ({
            let after = advanced_all(c, chunk_reports(request_id, chunks)).0;
            &&& after == ClientView { streams: after.streams, ..c }
            &&& buffered_in(after.streams, request_id) == buffered_in(c.streams, request_id)
                + joined_chunks(chunks)
        }),
    decreases chunks.len(),
{
    let reports = chunk_reports(request_id, chunks);
    if chunks.len() > 0 {
        lemma_chunks_are_gathered(c, request_id, chunks.drop_last());
        assert(reports.drop_last() =~= chunk_reports(request_id, chunks.drop_last()));
        assert(reports.last().response == NetworkResponseView::HttpStreamResponse {
            chunk: chunks.last(),
        });
        let before = advanced_all(c, reports.drop_last()).0;
        assert(buffered_in(before.streams, request_id) + chunks.last() =~= buffered_in(
            c.streams,
            request_id,
        ) + joined_chunks(chunks));
    } else {
        assert(buffered_in(c.streams, request_id) + joined_chunks(chunks) =~= buffered_in(
            c.streams,
            request_id,
        ));
    }
}

/// A streamed answer reaches the decoder whole and in order: after the chunks
/// of a request in flight, in whatever sizes, the end of the stream resolves
/// the request with exactly the chunks joined in the order of their arrival,
/// and the answer is decoded from these bytes under the operation of the
/// request.
pub proof fn law_streamed_answer_reaches_the_decoder(
    c: ClientView,
    request_id: u64,
    chunks: Seq<Seq<u8>>,
    status: u16,
)
    requires
        c.registry.contains_key(request_id),
        !c.streams.contains_key(request_id),
    ensures
        ({
            let gathered = advanced_all(c, chunk_reports(request_id, chunks)).0;
            let end = NetworkEventView {
                request_id,
                response: NetworkResponseView::HttpStreamComplete { status },
            };
            let ticket = c.registry[request_id];
            &&& advanced(gathered, end) == resolved(gathered, request_id, status, joined_chunks(chunks))
            &&& advanced(gathered, end) == concluded(
                ClientView {
                    registry: c.registry.remove(request_id),
                    streams: gathered.streams.remove(request_id),
                    ..c
                },
                ticket,
                decode_outcome(ticket.tag, status, joined_chunks(chunks)),
            )
        }),
{
    lemma_chunks_are_gathered(c, request_id, chunks);
    assert(Seq::<u8>::empty() + joined_chunks(chunks) =~= joined_chunks(chunks));
}

/// A request identifier is consumed once: after an answer was taken for it,
/// a second delivery under the same identifier is passed over and changes
/// nothing.
pub proof fn law_second_delivery_is_passed_over(
    c: ClientView,
    request_id: u64,
    status: u16,
    body: Seq<u8>,
    again_status: u16,
    again_body: Seq<u8>,
)
    ensures
        ({
            let first = resolved(c, request_id, status, body);
            resolved(first.0, request_id, again_status, again_body) == (first.0, nothing_resolved())
        }),
{
    let first = resolved(c, request_id, status, body);
    assert(first.0.streams.remove(request_id) =~= first.0.streams);
    assert(!first.0.registry.contains_key(request_id));
}

} // verus!
