//! Request tags, the registry that correlates answers with the operations
//! that asked for them, and the description of an HTTP call.

use crate::wire::text_of;
use std::collections::HashMap;
use vstd::prelude::*;

verus! {

broadcast use vstd::std_specs::hash::group_hash_axioms;

/// The operation that an outgoing request stands for.
#[derive(Clone, Copy, Debug, PartialEq, Eq, Structural)]
pub enum RequestTag {
    Authenticate,
    ListChats,
    GetHistory,
    SearchUser,
    GetUserById,
    InitiateChat,
}

impl RequestTag {
    /// The two user lookups, for which "not found" is an answer and no
    /// failure.
    pub open spec fn is_lookup(self) -> bool {
        self is SearchUser || self is GetUserById
    }

    /// The name under which the operation appears in messages.
    pub open spec fn label(self) -> Seq<char> {
        match self {
            RequestTag::Authenticate => "AuthRequest"@,
            RequestTag::ListChats => "GetChats"@,
            RequestTag::GetHistory => "GetHistory"@,
            RequestTag::SearchUser => "UserInfo"@,
            RequestTag::GetUserById => "GetUserInfo"@,
            RequestTag::InitiateChat => "InitiateChat"@,
        }
    }

    /// The name under which the operation appears in messages.
    pub fn name(self) -> (r: &'static str)
        ensures
            r@ == self.label(),
    {
        match self {
            RequestTag::Authenticate => "AuthRequest",
            RequestTag::ListChats => "GetChats",
            RequestTag::GetHistory => "GetHistory",
            RequestTag::SearchUser => "UserInfo",
            RequestTag::GetUserById => "GetUserInfo",
            RequestTag::InitiateChat => "InitiateChat",
        }
    }
}

/// What the registry remembers of a request in flight: its operation and,
/// for a lookup by identifier, the user that is looked up.
#[derive(Clone, Copy, Debug, PartialEq, Eq, Structural)]
pub struct Ticket {
    pub tag: RequestTag,
    pub user_id: Option<i64>,
}

/// The requests in flight, by request identifier.
pub struct TagRegistry {
    next_id: u64,
    in_flight: HashMap<u64, Ticket>,
}

impl View for TagRegistry {
    type V = Map<u64, Ticket>;

    closed spec fn view(&self) -> Map<u64, Ticket> {
        self.in_flight@
    }
}

impl TagRegistry {
    /// The identifier that the next allocation hands out.
    pub closed spec fn upcoming(&self) -> u64 {
        self.next_id
    }

    /// Whether another request identifier can be allocated: the identifiers
    /// are not used up, and the upcoming one is not in flight.
    pub open spec fn has_room(&self) -> bool {
        self.upcoming() < u64::MAX && !self@.contains_key(self.upcoming())
    }

    /// A registry with no request in flight.
    pub fn new() -> (r: TagRegistry)
        ensures
            r@ == Map::<u64, Ticket>::empty(),
            r.upcoming() == 0,
    {
        TagRegistry { next_id: 0, in_flight: HashMap::new() }
    }

    /// Allocates a request identifier and records the ticket under it. The
    /// identifier is not that of any request in flight. Fails only when there
    /// is no room, and then changes nothing.
    pub fn issue(&mut self, ticket: Ticket) -> (r: Option<u64>)
        ensures
            old(self).has_room() ==> {
                &&& r == Some(old(self).upcoming())
                &&& final(self)@ == old(self)@.insert(old(self).upcoming(), ticket)
                &&& final(self).upcoming() == old(self).upcoming() + 1
            },
            !old(self).has_room() ==> {
                &&& r is None
                &&& final(self)@ == old(self)@
                &&& final(self).upcoming() == old(self).upcoming()
            },
    {
        let id = self.next_id;
        if id == u64::MAX || self.in_flight.contains_key(&id) {
            return None;
        }
        self.in_flight.insert(id, ticket);
        self.next_id = id + 1;
        Some(id)
    }

    /// Ends the life of a request identifier: hands back the ticket recorded
    /// under it and forgets it. A second delivery of the same identifier finds
    /// nothing.
    pub fn take(&mut self, request_id: u64) -> (r: Option<Ticket>)
        ensures
            final(self)@ == old(self)@.remove(request_id),
            final(self).upcoming() == old(self).upcoming(),
            match r {
                Some(ticket) => old(self)@.contains_key(request_id) && old(self)@[request_id]
                    == ticket,
                None => !old(self)@.contains_key(request_id),
            },
    {
        self.in_flight.remove(&request_id)
    }

    /// Whether a request with this identifier is in flight.
    pub fn contains(&self, request_id: u64) -> (r: bool)
        ensures
            r == self@.contains_key(request_id),
    {
        self.in_flight.contains_key(&request_id)
    }

    /// The number of requests in flight.
    pub fn len(&self) -> (r: usize)
        ensures
            r == self@.len(),
    {
        self.in_flight.len()
    }
}

/// The method of an HTTP call.
#[derive(Clone, Copy, Debug, PartialEq, Eq, Structural)]
pub enum HttpMethod {
    Get,
    Post,
}

/// An HTTP call for the transport to make.
#[derive(Clone, Debug, PartialEq)]
pub struct HttpCall {
    pub request_id: u64,
    pub method: HttpMethod,
    pub url: String,
    pub headers: Vec<(String, String)>,
    pub body: Option<String>,
}

/// What [`HttpCall`] holds, with texts and lists as sequences.
pub struct HttpCallView {
    pub request_id: u64,
    pub method: HttpMethod,
    pub url: Seq<char>,
    pub headers: Seq<(Seq<char>, Seq<char>)>,
    pub body: Option<Seq<char>>,
}

/// Views of a list of headers, in order.
pub open spec fn headers_view(headers: Seq<(String, String)>) -> Seq<(Seq<char>, Seq<char>)> {
    headers.map_values(|h: (String, String)| (h.0@, h.1@))
}

impl View for HttpCall {
    type V = HttpCallView;

    open spec fn view(&self) -> HttpCallView {
        HttpCallView {
            request_id: self.request_id,
            method: self.method,
            url: self.url@,
            headers: headers_view(self.headers@),
            body: text_of(self.body),
        }
    }
}

/// The request that opens the socket.
#[derive(Clone, Debug, PartialEq)]
pub struct Handshake {
    pub url: String,
    pub headers: Vec<(String, String)>,
}

/// What [`Handshake`] holds, with texts and lists as sequences.
pub struct HandshakeView {
    pub url: Seq<char>,
    pub headers: Seq<(Seq<char>, Seq<char>)>,
}

impl View for Handshake {
    type V = HandshakeView;

    open spec fn view(&self) -> HandshakeView {
        HandshakeView { url: self.url@, headers: headers_view(self.headers@) }
    }
}

} // verus!
