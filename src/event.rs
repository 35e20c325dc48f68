use vstd::prelude::*;
use crate::input::same_text;
use crate::payload::{
    int_member, list_member_of, int_member_of, members_of, members_view, only_strings, opt_text,
    parse_members, strings_in, strings_member, text_member, text_member_of, Field, FieldView,
};
use crate::roster::names_of;

verus! {

/// The named events that the server sends, and the transport's own two.
#[derive(Debug, Clone, Copy, PartialEq, Eq, Structural)]
pub enum Topic {
    Connect,
    Welcome,
    ChatPublic,
    UsersList,
    UserJoined,
    UserLeft,
    ServerError,
    Disconnect,
}

/// The name of each event on the wire.
pub open spec fn topic_name(t: Topic) -> Seq<char> {
    match t {
        Topic::Connect => "connect"@,
        Topic::Welcome => "welcome"@,
        Topic::ChatPublic => "chat:public"@,
        Topic::UsersList => "users:list"@,
        Topic::UserJoined => "user_joined"@,
        Topic::UserLeft => "user_left"@,
        Topic::ServerError => "server:error"@,
        Topic::Disconnect => "disconnect"@,
    }
}

impl Topic {
    /// The event's name on the wire.
    pub fn name(&self) -> (r: &'static str)
        ensures
            r@ == topic_name(*self),
    {
        match self {
            Topic::Connect => "connect",
            Topic::Welcome => "welcome",
            Topic::ChatPublic => "chat:public",
            Topic::UsersList => "users:list",
            Topic::UserJoined => "user_joined",
            Topic::UserLeft => "user_left",
            Topic::ServerError => "server:error",
            Topic::Disconnect => "disconnect",
        }
    }
}

/// The event of the given wire name, if there is one.
pub fn topic_of(name: &str) -> (r: Option<Topic>)
    ensures
        r matches Some(t) ==> name@ == topic_name(t),
        r is None ==> forall|t: Topic| name@ != #[trigger] topic_name(t),
{
    if same_text(name, "connect") {
        Some(Topic::Connect)
    } else if same_text(name, "welcome") {
        Some(Topic::Welcome)
    } else if same_text(name, "chat:public") {
        Some(Topic::ChatPublic)
    } else if same_text(name, "users:list") {
        Some(Topic::UsersList)
    } else if same_text(name, "user_joined") {
        Some(Topic::UserJoined)
    } else if same_text(name, "user_left") {
        Some(Topic::UserLeft)
    } else if same_text(name, "server:error") {
        Some(Topic::ServerError)
    } else if same_text(name, "disconnect") {
        Some(Topic::Disconnect)
    } else {
        None
    }
}

/// An inbound event, decoded once from its name and payload.
#[derive(Debug, Clone)]
pub enum InboundEvent {
    /// The transport is connected.
    Connected,
    /// The server accepted the handshake.
    Welcome { username: String, users: Vec<String> },
    /// A `welcome` whose payload is JSON but not of the expected shape.
    WelcomeUnexpected,
    /// A public chat message; any field may be missing.
    Chat { username: Option<String>, text: Option<String>, sent_at: Option<i64> },
    /// The full list of connected users.
    UsersList(Vec<String>),
    /// A `users:list` whose payload has no array under `users`.
    UsersListUnexpected,
    UserJoined(Option<String>),
    UserLeft(Option<String>),
    /// An error that the server reports; never fatal.
    ServerError { code: Option<String>, message: Option<String> },
    /// An event whose payload is not JSON.
    NotJson(Topic),
    /// The transport closed, with its reason when it came as text.
    Disconnected(Option<String>),
}

/// The event name that an inbound event was decoded from.
pub open spec fn event_topic(e: InboundEvent) -> Topic {
    match e {
        InboundEvent::Connected => Topic::Connect,
        InboundEvent::Welcome { .. } => Topic::Welcome,
        InboundEvent::WelcomeUnexpected => Topic::Welcome,
        InboundEvent::Chat { .. } => Topic::ChatPublic,
        InboundEvent::UsersList(_) => Topic::UsersList,
        InboundEvent::UsersListUnexpected => Topic::UsersList,
        InboundEvent::UserJoined(_) => Topic::UserJoined,
        InboundEvent::UserLeft(_) => Topic::UserLeft,
        InboundEvent::ServerError { .. } => Topic::ServerError,
        InboundEvent::NotJson(t) => t,
        InboundEvent::Disconnected(_) => Topic::Disconnect,
    }
}

/// Whether an event of this topic carries a JSON payload.
pub open spec fn carries_json(t: Topic) -> bool {
    t != Topic::Connect && t != Topic::Disconnect
}

/// The key under which a chat message carries its time, in milliseconds
/// since the Unix epoch.
pub open spec fn time_key() -> Seq<char> {
    "sentAtEpochMillis"@
}

/// `e` is the event that an object with members `ms` gives for `topic`:
/// a welcome needs a string `username` and an array of strings only under
/// `connectedUsers`; a chat message takes its sender, text and time where
/// present; a user list keeps the strings of its `users` array and skips
/// the rest; joins and leaves take `username`; a server error takes `code`
/// and `message`.
pub open spec fn decodes_to(topic: Topic, ms: Seq<(Seq<char>, FieldView)>, e: InboundEvent) -> bool {
    match topic {
        Topic::Welcome => {
            let name = text_member_of(ms, "username"@);
            let users = list_member_of(ms, "connectedUsers"@);
            if name is Some && users is Some && only_strings(users->0) {
                match e {
                    InboundEvent::Welcome { username, users: us } => username@ == name->0
                        && names_of(us@) == strings_in(users->0),
                    _ => false,
                }
            } else {
                e is WelcomeUnexpected
            }
        },
        Topic::ChatPublic => match e {
            InboundEvent::Chat { username, text, sent_at } => opt_text(username)
                == text_member_of(ms, "username"@) && opt_text(text) == text_member_of(
                ms,
                "text"@,
            ) && sent_at == int_member_of(ms, time_key()),
            _ => false,
        },
        Topic::UsersList => match list_member_of(ms, "users"@) {
            Some(items) => match e {
                InboundEvent::UsersList(us) => names_of(us@) == strings_in(items),
                _ => false,
            },
            None => e is UsersListUnexpected,
        },
        Topic::UserJoined => match e {
            InboundEvent::UserJoined(u) => opt_text(u) == text_member_of(ms, "username"@),
            _ => false,
        },
        Topic::UserLeft => match e {
            InboundEvent::UserLeft(u) => opt_text(u) == text_member_of(ms, "username"@),
            _ => false,
        },
        Topic::ServerError => match e {
            InboundEvent::ServerError { code, message } => opt_text(code) == text_member_of(
                ms,
                "code"@,
            ) && opt_text(message) == text_member_of(ms, "message"@),
            _ => false,
        },
        _ => false,
    }
}

/// Decodes the members of a JSON payload into the event of `topic`.
pub fn decode_fields(topic: Topic, ms: &Vec<(String, Field)>) -> (r: InboundEvent)
    requires
        carries_json(topic),
    ensures
        decodes_to(topic, members_view(ms@), r),
{
    match topic {
        Topic::Welcome => {
            let name = text_member(ms, "username");
            let users = strings_member(ms, "connectedUsers");
            match (name, users) {
                (Some(username), Some((users, true))) => InboundEvent::Welcome { username, users },
                _ => InboundEvent::WelcomeUnexpected,
            }
        },
        Topic::ChatPublic => InboundEvent::Chat {
            username: text_member(ms, "username"),
            text: text_member(ms, "text"),
            sent_at: int_member(ms, "sentAtEpochMillis"),
        },
        Topic::UsersList => match strings_member(ms, "users") {
            Some((users, _)) => InboundEvent::UsersList(users),
            None => InboundEvent::UsersListUnexpected,
        },
        Topic::UserJoined => InboundEvent::UserJoined(text_member(ms, "username")),
        Topic::UserLeft => InboundEvent::UserLeft(text_member(ms, "username")),
        _ => InboundEvent::ServerError {
            code: text_member(ms, "code"),
            message: text_member(ms, "message"),
        },
    }
}

/// Decodes the payload of an event whose name is known. `payload` is the
/// payload as text, `None` where the transport handed over something else.
pub fn decode_event(topic: Topic, payload: Option<String>) -> (r: InboundEvent)
    ensures
        event_topic(r) == topic,
        topic == Topic::Connect ==> r is Connected,
        carries_json(topic) ==> match payload {
            Some(p) => match members_of(p@) {
                Some(ms) => decodes_to(topic, ms, r),
                None => r == InboundEvent::NotJson(topic),
            },
            None => r == InboundEvent::NotJson(topic),
        },
        topic == Topic::Disconnect ==> (match (r, payload) {
            (InboundEvent::Disconnected(Some(reason)), Some(p)) => reason@ == p@,
            (InboundEvent::Disconnected(None), None) => true,
            _ => false,
        }),
{
    match topic {
        Topic::Connect => InboundEvent::Connected,
        Topic::Disconnect => InboundEvent::Disconnected(payload),
        _ => match payload {
            Some(p) => match parse_members(p.as_str()) {
                Some(ms) => decode_fields(topic, &ms),
                None => InboundEvent::NotJson(topic),
            },
            None => InboundEvent::NotJson(topic),
        },
    }
}

} // verus!
