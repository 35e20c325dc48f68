use vstd::prelude::*;
use crate::clock::{offset_for_message, time_text, time_text_with_offset, timed, valid_offset};
use crate::event::{decodes_to, time_key, InboundEvent, Topic};
use crate::payload::{
    int_member_of, list_member_of, only_strings, opt_text, strings_in, text_member_of, FieldView,
};
use crate::input::{classify_line, list_trigger, quit_trigger, trim_of, LineAction};
use crate::roster::{
    distinct_names, first_occurrences, lemma_first_occurrences_distinct, names_of, roster_line,
    roster_text, unique_names,
};
use crate::username::{is_valid_username, valid_username};

verus! {

/// Where the session stands with the server.
#[derive(Debug, Clone, Copy, PartialEq, Eq, Structural)]
pub enum ConnectionState {
    Disconnected,
    Connecting,
    Connected,
}

/// The operator's output stream a notice goes to.
#[derive(Debug, Clone, Copy, PartialEq, Eq, Structural)]
pub enum Channel {
    Output,
    Error,
}

/// A line for the operator.
#[derive(Debug, Clone)]
pub struct Notice {
    pub channel: Channel,
    pub text: String,
}

/// A fire-and-forget command to the server.
#[derive(Debug, Clone)]
pub enum OutboundCommand {
    Hello { username: String },
    PublicMessage { text: String },
    ListUsersRequest,
    QuitRequest,
}

/// The wire event name of each command.
pub open spec fn command_event(c: OutboundCommand) -> Seq<char> {
    match c {
        OutboundCommand::Hello { .. } => "hello"@,
        OutboundCommand::PublicMessage { .. } => "chat:public"@,
        OutboundCommand::ListUsersRequest => "command:list"@,
        OutboundCommand::QuitRequest => "command:quit"@,
    }
}

impl OutboundCommand {
    /// The event name the command is sent under.
    pub fn event_name(&self) -> (r: &'static str)
        ensures
            r@ == command_event(*self),
    {
        match self {
            OutboundCommand::Hello { .. } => "hello",
            OutboundCommand::PublicMessage { .. } => "chat:public",
            OutboundCommand::ListUsersRequest => "command:list",
            OutboundCommand::QuitRequest => "command:quit",
        }
    }
}

/// What the caller is to do with the transport, in order.
#[derive(Debug, Clone)]
pub enum Step {
    Emit(OutboundCommand),
    /// Close the transport.
    Disconnect,
}

/// What an inbound event asks of the caller: a notice to show and a
/// command to send, each possibly absent.
#[derive(Debug, Clone)]
pub struct Reaction {
    pub notice: Option<Notice>,
    pub command: Option<OutboundCommand>,
}

/// The abstract state of a session.
pub struct SessionView {
    pub username: Seq<char>,
    pub state: ConnectionState,
    pub roster: Seq<Seq<char>>,
    /// The transport has been released; nothing more is sent.
    pub released: bool,
}

/// A valid username and a roster without repeats.
pub open spec fn well_formed(s: SessionView) -> bool {
    valid_username(s.username) && distinct_names(s.roster)
}

/// The client's side of one chat session.
pub struct Session {
    username: String,
    state: ConnectionState,
    roster: Vec<String>,
    released: bool,
}

impl View for Session {
    type V = SessionView;

    closed spec fn view(&self) -> SessionView {
        SessionView {
            username: self.username@,
            state: self.state,
            roster: names_of(self.roster@),
            released: self.released,
        }
    }
}

/// A roster as the session keeps it: repeats dropped, order of arrival kept.
pub open spec fn roster_from(users: Seq<String>) -> Seq<Seq<char>> {
    first_occurrences(names_of(users))
}

/// The session after an inbound event.
pub open spec fn after_event(s: SessionView, e: InboundEvent) -> SessionView {
    match e {
        InboundEvent::Welcome { users, .. } => SessionView {
            state: ConnectionState::Connected,
            roster: roster_from(users@),
            ..s
        },
        InboundEvent::UsersList(users) => SessionView { roster: roster_from(users@), ..s },
        InboundEvent::Disconnected(_) => SessionView { state: ConnectionState::Disconnected, ..s },
        _ => s,
    }
}

/// An optional text as shown, with `p` in place of a missing one.
pub open spec fn or_default(o: Option<Seq<char>>, p: Seq<char>) -> Seq<char> {
    match o {
        Some(v) => v,
        None => p,
    }
}

/// An optional field as shown, with `p` in place of a missing one.
pub open spec fn or_else(o: Option<String>, p: Seq<char>) -> Seq<char> {
    or_default(opt_text(o), p)
}

/// Shown for a user name that a payload lacks.
pub open spec fn unknown_user() -> Seq<char> {
    "¿?"@
}

/// The line of a chat message, with its time shown for the given offset.
pub open spec fn chat_text(
    username: Option<String>,
    text: Option<String>,
    sent_at: Option<i64>,
    offset: Option<i32>,
) -> Seq<char> {
    "["@ + time_text(sent_at, offset) + "] "@ + or_else(username, unknown_user()) + ": "@
        + or_else(text, Seq::empty())
}

/// The notice that an event produces, where the local clock runs `offset`
/// seconds ahead of UTC at the time that a chat message carries.
pub open spec fn notice_for(e: InboundEvent, offset: Option<i32>) -> Option<(Channel, Seq<char>)> {
    match e {
        InboundEvent::Connected => Some(
            (Channel::Output, "Connected to the server. Sending handshake…"@),
        ),
        InboundEvent::Welcome { username, users } => Some(
            (
                Channel::Output,
                "✅ Connected as \""@ + username@ + "\". Users online: "@ + roster_text(
                    roster_from(users@),
                ),
            ),
        ),
        InboundEvent::WelcomeUnexpected => Some((Channel::Output, "(welcome) unexpected payload"@)),
        InboundEvent::Chat { username, text, sent_at } => Some(
            (Channel::Output, chat_text(username, text, sent_at, offset)),
        ),
        InboundEvent::UsersList(users) => Some(
            (Channel::Output, "👥 Users online: "@ + roster_text(roster_from(users@))),
        ),
        InboundEvent::UsersListUnexpected => Some(
            (Channel::Output, "(users:list) unexpected payload"@),
        ),
        InboundEvent::UserJoined(u) => Some(
            (Channel::Output, "➕ "@ + or_else(u, unknown_user()) + " joined"@),
        ),
        InboundEvent::UserLeft(u) => Some(
            (Channel::Output, "➖ "@ + or_else(u, unknown_user()) + " left"@),
        ),
        InboundEvent::ServerError { code, message } => Some(
            (
                Channel::Error,
                "⚠️  server:error ["@ + or_else(code, "UNKNOWN"@) + "] "@ + or_else(
                    message,
                    Seq::empty(),
                ),
            ),
        ),
        InboundEvent::NotJson(t) => match t {
            Topic::Welcome => Some((Channel::Output, "(welcome) payload is not JSON"@)),
            Topic::ServerError => Some(
                (Channel::Error, "⚠️  server:error (payload is not JSON)"@),
            ),
            _ => None,
        },
        InboundEvent::Disconnected(reason) => match reason {
            Some(r) => Some((Channel::Error, "🔌 Disconnected: "@ + r@)),
            None => Some((Channel::Error, "🔌 Disconnected (binary payload)"@)),
        },
    }
}

/// An offset that the time zone lookup can give for the time of event `e`:
/// less than a day, and present for a positive time that has a local time.
pub open spec fn offset_fits(e: InboundEvent, offset: Option<i32>) -> bool {
    valid_offset(offset) && match e {
        InboundEvent::Chat { sent_at, .. } => timed(sent_at) ==> offset is Some,
        _ => true,
    }
}

/// A notice as channel and text.
pub open spec fn notice_view(n: Option<Notice>) -> Option<(Channel, Seq<char>)> {
    match n {
        Some(n) => Some((n.channel, n.text@)),
        None => None,
    }
}

/// The session after one trimmed line of operator input.
pub open spec fn after_line(s: SessionView, t: Seq<char>) -> SessionView {
    if !s.released && t == quit_trigger() {
        released(s)
    } else {
        s
    }
}

/// The session once its transport is released.
pub open spec fn released(s: SessionView) -> SessionView {
    SessionView { state: ConnectionState::Disconnected, released: true, ..s }
}

/// The steps of the quit command: one quit request, then one disconnect.
pub open spec fn quit_steps() -> Seq<Step> {
    seq![Step::Emit(OutboundCommand::QuitRequest), Step::Disconnect]
}

/// `steps` is what one trimmed line `t` of input asks for in session `s`.
pub open spec fn steps_for(s: SessionView, t: Seq<char>, steps: Seq<Step>) -> bool {
    if s.released || t.len() == 0 {
        steps.len() == 0
    } else if t == list_trigger() {
        steps == seq![Step::Emit(OutboundCommand::ListUsersRequest)]
    } else if t == quit_trigger() {
        steps == quit_steps()
    } else {
        steps.len() == 1 && (match steps[0] {
            Step::Emit(OutboundCommand::PublicMessage { text }) => text@ == t,
            _ => false,
        })
    }
}

fn text_or(o: Option<String>, placeholder: &str) -> (r: String)
    ensures
        r@ == match o {
            Some(v) => v@,
            None => placeholder@,
        },
{
    match o {
        Some(v) => v,
        None => String::from_str(placeholder),
    }
}

fn out_notice(text: String) -> (r: Option<Notice>)
    ensures
        notice_view(r) == Some((Channel::Output, text@)),
{
    Some(Notice { channel: Channel::Output, text })
}

fn err_notice(text: String) -> (r: Option<Notice>)
    ensures
        notice_view(r) == Some((Channel::Error, text@)),
{
    Some(Notice { channel: Channel::Error, text })
}

/// Renders the notice of an event, for a local clock `offset` seconds ahead
/// of UTC at the time a chat message carries.
pub fn render_notice(e: &InboundEvent, offset: Option<i32>) -> (r: Option<Notice>)
    requires
        valid_offset(offset),
    ensures
        notice_view(r) == notice_for(*e, offset),
{
    match e {
        InboundEvent::Connected => out_notice(
            String::from_str("Connected to the server. Sending handshake…"),
        ),
        InboundEvent::Welcome { username, users } => {
            let mut t = String::from_str("✅ Connected as \"");
            t.append(username.as_str());
            t.append("\". Users online: ");
            let kept = unique_names(users);
            let line = roster_line(&kept);
            t.append(line.as_str());
            out_notice(t)
        },
        InboundEvent::WelcomeUnexpected => out_notice(
            String::from_str("(welcome) unexpected payload"),
        ),
        InboundEvent::Chat { username, text, sent_at } => {
            let mut t = String::from_str("[");
            let time = time_text_with_offset(*sent_at, offset);
            t.append(time.as_str());
            t.append("] ");
            let who = text_or(username.clone(), "¿?");
            t.append(who.as_str());
            t.append(": ");
            let said = text_or(text.clone(), "");
            t.append(said.as_str());
            proof {
                reveal_strlit("");
            }
            out_notice(t)
        },
        InboundEvent::UsersList(users) => {
            let mut t = String::from_str("👥 Users online: ");
            let kept = unique_names(users);
            let line = roster_line(&kept);
            t.append(line.as_str());
            out_notice(t)
        },
        InboundEvent::UsersListUnexpected => out_notice(
            String::from_str("(users:list) unexpected payload"),
        ),
        InboundEvent::UserJoined(u) => {
            let mut t = String::from_str("➕ ");
            let who = text_or(u.clone(), "¿?");
            t.append(who.as_str());
            t.append(" joined");
            out_notice(t)
        },
        InboundEvent::UserLeft(u) => {
            let mut t = String::from_str("➖ ");
            let who = text_or(u.clone(), "¿?");
            t.append(who.as_str());
            t.append(" left");
            out_notice(t)
        },
        InboundEvent::ServerError { code, message } => {
            let mut t = String::from_str("⚠️  server:error [");
            let c = text_or(code.clone(), "UNKNOWN");
            t.append(c.as_str());
            t.append("] ");
            let m = text_or(message.clone(), "");
            t.append(m.as_str());
            proof {
                reveal_strlit("");
            }
            err_notice(t)
        },
        InboundEvent::NotJson(topic) => match topic {
            Topic::Welcome => out_notice(String::from_str("(welcome) payload is not JSON")),
            Topic::ServerError => err_notice(
                String::from_str("⚠️  server:error (payload is not JSON)"),
            ),
            _ => None,
        },
        InboundEvent::Disconnected(reason) => match reason {
            Some(r) => {
                let mut t = String::from_str("🔌 Disconnected: ");
                t.append(r.as_str());
                err_notice(t)
            },
            None => err_notice(String::from_str("🔌 Disconnected (binary payload)")),
        },
    }
}

impl Session {
    /// A new, disconnected session for `username`, or `None` when the name is
    /// not a valid username.
    pub fn new(username: &str) -> (r: Option<Session>)
        ensures
            r is Some <==> valid_username(username@),
            r matches Some(s) ==> s@ == (SessionView {
                username: username@,
                state: ConnectionState::Disconnected,
                roster: Seq::empty(),
                released: false,
            }),
            r matches Some(s) ==> well_formed(s@),
    {
        if !is_valid_username(username) {
            return None;
        }
        let s = Session {
            username: String::from_str(username),
            state: ConnectionState::Disconnected,
            roster: Vec::new(),
            released: false,
        };
        assert(names_of(s.roster@) =~= Seq::empty());
        Some(s)
    }

    pub fn username(&self) -> (r: &str)
        ensures
            r@ == self@.username,
    {
        self.username.as_str()
    }

    pub fn state(&self) -> (r: ConnectionState)
        ensures
            r == self@.state,
    {
        self.state
    }

    /// The users last reported as connected, in order of arrival.
    pub fn roster(&self) -> (r: &Vec<String>)
        ensures
            names_of(r@) == self@.roster,
    {
        &self.roster
    }

    /// Whether the transport has been released; the session sends nothing more.
    pub fn is_finished(&self) -> (r: bool)
        ensures
            r == self@.released,
    {
        self.released
    }

    /// The transport connection came up: a disconnected session is now
    /// connecting. A released session stays as it is.
    pub fn connection_opened(&mut self)
        ensures
            final(self)@ == (if old(self)@.state == ConnectionState::Disconnected
                && !old(self)@.released {
                SessionView { state: ConnectionState::Connecting, ..old(self)@ }
            } else {
                old(self)@
            }),
    {
        if self.state == ConnectionState::Disconnected && !self.released {
            self.state = ConnectionState::Connecting;
        }
    }

    /// Applies one inbound event: updates the state and roster, and returns
    /// the notice to show and the command to send. The transport's `connect`
    /// asks for the handshake; a chat message's time is shown in local time.
    pub fn handle_event(&mut self, e: InboundEvent) -> (r: Reaction)
        requires
            well_formed(old(self)@),
        ensures
            final(self)@ == after_event(old(self)@, e),
            well_formed(final(self)@),
            exists|offset: Option<i32>|
                offset_fits(e, offset) && notice_view(r.notice) == #[trigger] notice_for(e, offset),
            !(e is Chat) ==> notice_view(r.notice) == notice_for(e, None),
            e is Connected ==> (match r.command {
                Some(OutboundCommand::Hello { username }) => username@ == old(self)@.username,
                _ => false,
            }),
            !(e is Connected) ==> r.command is None,
    {
        let offset = match &e {
            InboundEvent::Chat { sent_at, .. } => offset_for_message(*sent_at),
            _ => None,
        };
        let notice = render_notice(&e, offset);
        assert(offset_fits(e, offset) && notice_view(notice) == notice_for(e, offset));
        let ghost e0 = e;
        let command = match e {
            InboundEvent::Connected => Some(
                OutboundCommand::Hello { username: self.username.clone() },
            ),
            InboundEvent::Welcome { users, .. } => {
                self.state = ConnectionState::Connected;
                self.roster = unique_names(&users);
                proof {
                    lemma_first_occurrences_distinct(names_of(users@));
                }
                None
            },
            InboundEvent::UsersList(users) => {
                self.roster = unique_names(&users);
                proof {
                    lemma_first_occurrences_distinct(names_of(users@));
                }
                None
            },
            InboundEvent::Disconnected(_) => {
                self.state = ConnectionState::Disconnected;
                None
            },
            _ => None,
        };
        assert(self@ == after_event(old(self)@, e0));
        Reaction { notice, command }
    }

    /// Handles one line of operator input: nothing for an empty line, a
    /// list request for the list command, a chat message for any other text,
    /// and for the quit command a quit request followed by a disconnect,
    /// after which the session is released. A released session sends nothing.
    pub fn handle_line(&mut self, line: &str) -> (r: Vec<Step>)
        requires
            well_formed(old(self)@),
        ensures
            final(self)@ == after_line(old(self)@, trim_of(line@)),
            well_formed(final(self)@),
            steps_for(old(self)@, trim_of(line@), r@),
    {
        let action = classify_line(line);
        if self.released {
            return Vec::new();
        }
        match action {
            LineAction::Skip => Vec::new(),
            LineAction::ListUsers => {
                let r = vec![Step::Emit(OutboundCommand::ListUsersRequest)];
                assert(r@ =~= seq![Step::Emit(OutboundCommand::ListUsersRequest)]);
                r
            },
            LineAction::Quit => {
                self.released = true;
                self.state = ConnectionState::Disconnected;
                let r = vec![Step::Emit(OutboundCommand::QuitRequest), Step::Disconnect];
                assert(r@ =~= quit_steps());
                r
            },
            LineAction::Say(text) => vec![Step::Emit(OutboundCommand::PublicMessage { text })],
        }
    }

    /// Releases the session on any way out: returns whether the transport
    /// is still to be closed, which is so exactly once.
    pub fn shutdown(&mut self) -> (r: bool)
        ensures
            r == !old(self)@.released,
            final(self)@ == released(old(self)@),
    {
        let r = !self.released;
        self.released = true;
        self.state = ConnectionState::Disconnected;
        r
    }
}

/// The quit command, sent once, emits one quit request and then one
/// disconnect, whether or not the handshake ever completed; afterwards no
/// line sends anything and shutting down closes nothing more.
pub proof fn lemma_quit_releases_once(s: SessionView, steps: Seq<Step>, t: Seq<char>, more: Seq<Step>)
    requires
        !s.released,
    ensures
        steps_for(s, quit_trigger(), steps) <==> steps == quit_steps(),
        after_line(s, quit_trigger()).released,
        steps_for(after_line(s, quit_trigger()), t, more) <==> more.len() == 0,
        after_line(after_line(s, quit_trigger()), t) == after_line(s, quit_trigger()),
{
    assert(quit_trigger().len() > 0);
    assert(quit_trigger()[1] != list_trigger()[1]);
}

/// Two full user lists in a row leave exactly the strings of the second
/// one, each once, as the roster: lists replace the roster, they are never
/// merged.
pub proof fn lemma_latest_list_wins(
    s: SessionView,
    first: Seq<(Seq<char>, FieldView)>,
    second: Seq<(Seq<char>, FieldView)>,
    e1: InboundEvent,
    e2: InboundEvent,
)
    requires
        decodes_to(Topic::UsersList, first, e1),
        decodes_to(Topic::UsersList, second, e2),
        list_member_of(second, "users"@) is Some,
    ensures
        after_event(after_event(s, e1), e2).roster == first_occurrences(
            strings_in(list_member_of(second, "users"@)->0),
        ),
{
}

/// An empty user list empties the roster and is shown with the placeholder.
pub proof fn lemma_empty_users_list(s: SessionView, ms: Seq<(Seq<char>, FieldView)>, e: InboundEvent)
    requires
        decodes_to(Topic::UsersList, ms, e),
        list_member_of(ms, "users"@) == Some(Seq::<Option<Seq<char>>>::empty()),
    ensures
        after_event(s, e).roster.len() == 0,
        notice_for(e, None) == Some((Channel::Output, "👥 Users online: "@ + "—"@)),
{
    assert(strings_in(Seq::<Option<Seq<char>>>::empty()) =~= Seq::empty());
}

/// Keeping names where they first occur changes nothing in a list without
/// repeats.
pub proof fn lemma_first_occurrences_of_distinct(v: Seq<Seq<char>>)
    requires
        distinct_names(v),
    ensures
        first_occurrences(v) == v,
    decreases v.len(),
{
    if v.len() > 0 {
        let d = v.drop_last();
        assert(distinct_names(d));
        lemma_first_occurrences_of_distinct(d);
        if d.contains(v.last()) {
            let k = choose|k: int| 0 <= k < d.len() && d[k] == v.last();
            assert(v[k] == v[v.len() - 1]);
        }
        assert(d.push(v.last()) =~= v);
    }
}

/// A welcome with a user name and an array of strings only connects the
/// session, with those users, each once and in their order, as the roster.
pub proof fn lemma_welcome_connects(s: SessionView, ms: Seq<(Seq<char>, FieldView)>, e: InboundEvent)
    requires
        decodes_to(Topic::Welcome, ms, e),
        text_member_of(ms, "username"@) is Some,
        list_member_of(ms, "connectedUsers"@) matches Some(items) && only_strings(items),
    ensures
        after_event(s, e).state == ConnectionState::Connected,
        after_event(s, e).roster == first_occurrences(
            strings_in(list_member_of(ms, "connectedUsers"@)->0),
        ),
        distinct_names(strings_in(list_member_of(ms, "connectedUsers"@)->0)) ==> after_event(
            s,
            e,
        ).roster == strings_in(list_member_of(ms, "connectedUsers"@)->0),
{
    let users = strings_in(list_member_of(ms, "connectedUsers"@)->0);
    if distinct_names(users) {
        lemma_first_occurrences_of_distinct(users);
    }
}

/// A chat message without a sender and a text is shown with both
/// placeholders and changes neither the roster nor the connection state.
pub proof fn lemma_bare_chat_message(
    s: SessionView,
    ms: Seq<(Seq<char>, FieldView)>,
    e: InboundEvent,
    offset: Option<i32>,
)
    requires
        decodes_to(Topic::ChatPublic, ms, e),
        text_member_of(ms, "username"@) is None,
        text_member_of(ms, "text"@) is None,
    ensures
        after_event(s, e) == s,
        notice_for(e, offset) == Some(
            (
                Channel::Output,
                "["@ + time_text(int_member_of(ms, time_key()), offset) + "] "@ + unknown_user()
                    + ": "@,
            ),
        ),
{
    let t = time_text(int_member_of(ms, time_key()), offset);
    assert("["@ + t + "] "@ + unknown_user() + ": "@ + Seq::<char>::empty() =~= "["@ + t + "] "@
        + unknown_user() + ": "@);
}

/// A chat message whose time is zero or missing shows `--:--` as its time,
/// whatever the local time zone.
pub proof fn lemma_untimed_chat_message(
    ms: Seq<(Seq<char>, FieldView)>,
    e: InboundEvent,
    offset: Option<i32>,
)
    requires
        decodes_to(Topic::ChatPublic, ms, e),
        int_member_of(ms, time_key()) == Some(0i64) || int_member_of(ms, time_key()) is None,
    ensures
        notice_for(e, offset) == Some(
            (
                Channel::Output,
                "[--:--] "@ + or_default(text_member_of(ms, "username"@), unknown_user()) + ": "@
                    + or_default(text_member_of(ms, "text"@), Seq::empty()),
            ),
        ),
{
    reveal_strlit("[");
    reveal_strlit("] ");
    reveal_strlit("[--:--] ");
    assert("[--:--] "@ =~= "["@ + crate::clock::no_time() + "] "@);
    let u = or_default(text_member_of(ms, "username"@), unknown_user());
    let x = or_default(text_member_of(ms, "text"@), Seq::empty());
    assert("["@ + crate::clock::no_time() + "] "@ + u + ": "@ + x =~= "[--:--] "@ + u + ": "@ + x);
}

} // verus!
