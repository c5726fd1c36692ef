//! The session: what the state becomes with every event, and what has to be
//! done in answer.
//!
//! The session does no I/O. Whoever drives it opens the socket, reads the
//! frames and performs the actions that come back; the session decides.

use vstd::prelude::*;
use vstd::string::StringExecFns;
use crate::data::{calculate_hash, state_digest, ConnState, ConnStateView};
use crate::frames::{decode_frame, frame_of, DecodeError, Frame, FrameView};
use crate::json::{
    items_view, lemma_items_view, parse, parsed_text, render, rendered_text, Json, JsonView,
};
use crate::packets::{
    auth2_tree, auth_tree, frame_text, packet_auth, packet_auth2, packet_req_all_guilds,
    packet_req_selected_voice, packet_sub_server, packet_sub_voice_channel,
    req_all_guilds_tree, req_selected_voice_tree, sub_server_trees, sub_voice_channel_trees,
    token_request, token_request_tree, wire_text, CLIENT_ID,
};
use crate::text::{opt_str_view, opt_view, same_text};

verus! {

/// The address of the RPC socket, with the version and the application id.
pub const SOCKET_URL: &'static str = "ws://127.0.0.1:6463/?v=1&client_id=207646673902501888";

/// The origin that the handshake names.
pub const ORIGIN: &'static str = "https://streamkit.discord.com";

/// Where an authorization code is exchanged for an access token.
pub const TOKEN_URL: &'static str = "https://streamkit.discord.com/overlay/token";

/// How long to wait before the socket is tried again, in milliseconds.
pub const RETRY_MS: u64 = 1000;

/// The packets that ask for the selected channel again where none is
/// tracked; none where one is.
pub open spec fn resync_trees(s: ConnStateView) -> Seq<JsonView> {
    if s.voice_channel is None {
        seq![req_selected_voice_tree()]
    } else {
        Seq::empty()
    }
}

/// The state after a frame.
pub open spec fn state_after(s: ConnStateView, f: FrameView) -> ConnStateView {
    match f {
        FrameView::Authenticate { local_id } => s.with_user_id(local_id),
        FrameView::Channel { id, members } => s.with_channel(id).with_members(members),
        FrameView::NoChannel => s.left_channel(),
        FrameView::SpeakingStart { user_id } => s.with_talking(user_id, true),
        FrameView::SpeakingStop { user_id } => s.with_talking(user_id, false),
        FrameView::VoiceStateUpdate(u) => s.with_update(u),
        FrameView::VoiceStateDelete { user_id } => if s.user_id == Some(user_id) {
            s.left_channel()
        } else {
            s
        },
        _ => s,
    }
}

/// The packets sent in answer to a frame, in order.
pub open spec fn packets_after(s: ConnStateView, f: FrameView) -> Seq<JsonView> {
    match f {
        FrameView::Authenticate { .. } => seq![req_all_guilds_tree(), req_selected_voice_tree()]
            + sub_server_trees(),
        FrameView::Channel { id, .. } => sub_voice_channel_trees(id),
        FrameView::Ready => seq![auth_tree(CLIENT_ID@)],
        FrameView::SpeakingStart { .. } => resync_trees(s),
        FrameView::SpeakingStop { .. } => resync_trees(s),
        FrameView::VoiceStateCreate => resync_trees(s),
        FrameView::VoiceChannelSelect => seq![req_selected_voice_tree()],
        _ => Seq::empty(),
    }
}

/// The authorization code that a frame asks to exchange, if it does.
pub open spec fn exchange_after(f: FrameView) -> Option<Seq<char>> {
    match f {
        FrameView::Authorize { code } => Some(code),
        _ => None,
    }
}

/// What a frame asks for besides the change of state.
#[derive(Debug)]
pub struct Reaction {
    /// The packets to send, in order.
    pub packets: Vec<Json>,
    /// The authorization code to exchange for a token.
    pub exchange: Option<String>,
}

/// Applies a decoded frame to the state and says what to send in answer.
pub fn apply_frame(state: &mut ConnState, frame: Frame) -> (r: Reaction)
    ensures
        final(state)@ == state_after(old(state)@, frame@),
        items_view(r.packets@) == packets_after(old(state)@, frame@),
        opt_view(r.exchange) == exchange_after(frame@),
{
    let mut packets: Vec<Json> = Vec::new();
    let mut exchange: Option<String> = None;
    let outside = state.voice_channel().is_none();
    match frame {
        Frame::Authorize { code } => {
            exchange = Some(code);
        },
        Frame::Authenticate { local_id } => {
            let mut subs = packet_sub_server();
            packets.push(packet_req_all_guilds());
            packets.push(packet_req_selected_voice());
            proof {
                lemma_items_view(subs@);
            }
            packets.append(&mut subs);
            proof {
                lemma_items_view(packets@);
                assert(items_view(packets@) =~= packets_after(old(state)@, frame@));
            }
            state.set_user_id(local_id);
        },
        Frame::Channel { id, members } => {
            packets = packet_sub_voice_channel(id.as_str());
            state.set_voice_channel(id);
            state.update_state_from_voice_state_list(&members);
        },
        Frame::NoChannel => {
            state.user_left_channel();
        },
        Frame::Ready => {
            packets.push(packet_auth(CLIENT_ID));
        },
        Frame::SpeakingStart { user_id } => {
            if outside {
                packets.push(packet_req_selected_voice());
            }
            state.set_user_talking(user_id.as_str(), true);
        },
        Frame::SpeakingStop { user_id } => {
            if outside {
                packets.push(packet_req_selected_voice());
            }
            state.set_user_talking(user_id.as_str(), false);
        },
        Frame::VoiceStateCreate => {
            if outside {
                packets.push(packet_req_selected_voice());
            }
        },
        Frame::VoiceStateUpdate(update) => {
            state.update_state_from_voice_state(&update);
        },
        Frame::VoiceStateDelete { user_id } => {
            let local = match state.user_id() {
                Some(me) => same_text(me.as_str(), user_id.as_str()),
                None => false,
            };
            if local {
                state.user_left_channel();
            }
        },
        Frame::VoiceChannelSelect => {
            packets.push(packet_req_selected_voice());
        },
        _ => {},
    }
    proof {
        lemma_items_view(packets@);
        assert(items_view(packets@) =~= packets_after(old(state)@, frame@));
    }
    Reaction { packets, exchange }
}

/// Where a session stands.
#[derive(Debug, Clone, Copy, PartialEq, Eq, Structural)]
pub enum Phase {
    /// No socket.
    Disconnected,
    /// The handshake is under way.
    Connecting,
    /// The socket is open; no access token was obtained yet.
    AwaitingAuthorize,
    /// The access token was sent; its answer is awaited.
    AwaitingAuthenticate,
    /// The session is open and the user is in no voice channel.
    Subscribed,
    /// The session is open and a voice channel is tracked.
    InChannel,
}

impl Phase {
    /// Whether a socket is open in this phase.
    pub open spec fn connected(self) -> bool {
        self != Phase::Disconnected && self != Phase::Connecting
    }

    /// Whether a socket is open in this phase.
    pub fn is_connected(self) -> (r: bool)
        ensures
            r == self.connected(),
    {
        match self {
            Phase::Disconnected => false,
            Phase::Connecting => false,
            _ => true,
        }
    }
}

/// What the driver of a session is asked to do.
#[derive(Debug)]
pub enum Action {
    /// Open the socket at [`SOCKET_URL`] and report how the handshake went.
    Connect,
    /// Drop the socket.
    Disconnect,
    /// Wait for so many milliseconds, then start again.
    Wait(u64),
    /// Send a text frame.
    Send(String),
    /// Post the body to [`TOKEN_URL`] and report the answer.
    Exchange(String),
    /// Hand the snapshot to whoever watches the state.
    Notify(ConnState),
}

/// The value of an [`Action`].
pub enum ActionView {
    Connect,
    Disconnect,
    Wait(u64),
    Send(Seq<char>),
    Exchange(Seq<char>),
    Notify(ConnStateView),
}

impl View for Action {
    type V = ActionView;

    open spec fn view(&self) -> ActionView {
        match self {
            Action::Connect => ActionView::Connect,
            Action::Disconnect => ActionView::Disconnect,
            Action::Wait(ms) => ActionView::Wait(*ms),
            Action::Send(text) => ActionView::Send(text@),
            Action::Exchange(body) => ActionView::Exchange(body@),
            Action::Notify(state) => ActionView::Notify(state@),
        }
    }
}

/// The values of a list of actions, in order.
pub open spec fn actions_view(actions: Seq<Action>) -> Seq<ActionView> {
    actions.map_values(|a: Action| a@)
}

/// One text frame for each packet, in order.
pub open spec fn sends(packets: Seq<JsonView>) -> Seq<ActionView> {
    packets.map_values(|p: JsonView| ActionView::Send(frame_text(p)))
}

/// The token request for an authorization code, if there is one.
pub open spec fn exchanges(code: Option<Seq<char>>) -> Seq<ActionView> {
    match code {
        Some(c) => seq![ActionView::Exchange(rendered_text(token_request_tree(c)))],
        None => Seq::empty(),
    }
}

/// The notification of a change: the new state where its digest differs
/// from that of the old one, nothing where it does not.
pub open spec fn notices(before: ConnStateView, after: ConnStateView) -> Seq<ActionView> {
    if state_digest(before) != state_digest(after) {
        seq![ActionView::Notify(after)]
    } else {
        Seq::empty()
    }
}

/// Whether the phase follows the channel after a frame: it does after the
/// session was opened, after a channel answer, and after the local user left.
pub open spec fn settles(s: ConnStateView, f: FrameView) -> bool {
    match f {
        FrameView::Authenticate { .. } => true,
        FrameView::Channel { .. } => true,
        FrameView::NoChannel => true,
        FrameView::VoiceStateDelete { user_id } => s.user_id == Some(user_id),
        _ => false,
    }
}

/// The phase after a frame.
pub open spec fn phase_after(phase: Phase, s: ConnStateView, f: FrameView) -> Phase {
    if settles(s, f) {
        if state_after(s, f).voice_channel is Some {
            Phase::InChannel
        } else {
            Phase::Subscribed
        }
    } else {
        phase
    }
}

/// The value of a [`Session`].
pub struct SessionView {
    pub phase: Phase,
    pub state: ConnStateView,
}

impl SessionView {
    /// A session that has not started.
    pub open spec fn fresh() -> SessionView {
        SessionView { phase: Phase::Disconnected, state: ConnStateView::empty() }
    }

    /// Nothing changes and nothing is to be done.
    pub open spec fn idle(self) -> (SessionView, Seq<ActionView>) {
        (self, Seq::empty())
    }

    /// Starting, at first or after the wait: a session without a socket
    /// goes on to connect.
    pub open spec fn on_start(self) -> (SessionView, Seq<ActionView>) {
        if self.phase == Phase::Disconnected {
            (SessionView { phase: Phase::Connecting, ..self }, seq![ActionView::Connect])
        } else {
            self.idle()
        }
    }

    /// The end of a handshake: with a socket the session waits to be
    /// authorized; without one it waits and tries again.
    pub open spec fn on_handshake(self, ok: bool) -> (SessionView, Seq<ActionView>) {
        if self.phase != Phase::Connecting {
            self.idle()
        } else if ok {
            (SessionView { phase: Phase::AwaitingAuthorize, ..self }, Seq::empty())
        } else {
            (SessionView { phase: Phase::Disconnected, ..self }, seq![ActionView::Wait(RETRY_MS)])
        }
    }

    /// The socket failed or was closed: everything is forgotten, and the
    /// session waits and tries again.
    pub open spec fn on_lost(self) -> (SessionView, Seq<ActionView>) {
        if self.phase.connected() {
            (SessionView::fresh(), seq![ActionView::Wait(RETRY_MS)])
        } else {
            self.idle()
        }
    }

    /// A decoded frame: the state changes as the frame says, the packets
    /// in answer are sent, an authorization code goes to be exchanged, and
    /// a changed state is announced.
    pub open spec fn on_frame(self, f: FrameView) -> (SessionView, Seq<ActionView>) {
        if self.phase.connected() {
            let state = state_after(self.state, f);
            (
                SessionView { phase: phase_after(self.phase, self.state, f), state },
                sends(packets_after(self.state, f)) + exchanges(exchange_after(f)) + notices(
                    self.state,
                    state,
                ),
            )
        } else {
            self.idle()
        }
    }

    /// A frame as a JSON value: one that cannot be decoded is passed over.
    pub open spec fn on_tree(self, tree: JsonView) -> (SessionView, Seq<ActionView>) {
        match frame_of(tree) {
            Ok(f) => self.on_frame(f),
            Err(_) => self.idle(),
        }
    }

    /// A text frame that is no JSON: the socket is dropped, everything is
    /// forgotten, and the session waits and tries again.
    pub open spec fn on_garbage(self) -> (SessionView, Seq<ActionView>) {
        if self.phase.connected() {
            (
                SessionView::fresh(),
                seq![ActionView::Disconnect] + notices(self.state, ConnStateView::empty())
                    + seq![ActionView::Wait(RETRY_MS)],
            )
        } else {
            self.idle()
        }
    }

    /// A text frame.
    pub open spec fn on_text(self, text: Seq<char>) -> (SessionView, Seq<ActionView>) {
        match parsed_text(text) {
            Some(tree) => self.on_tree(tree),
            None => self.on_garbage(),
        }
    }

    /// The answer of the token exchange as a JSON value: while the session
    /// waits to be authorized, an access token in it is sent on.
    pub open spec fn on_token_tree(self, tree: JsonView) -> (SessionView, Seq<ActionView>) {
        match tree.member("access_token"@).as_str() {
            Some(token) => if self.phase == Phase::AwaitingAuthorize {
                (
                    SessionView { phase: Phase::AwaitingAuthenticate, ..self },
                    seq![ActionView::Send(frame_text(auth2_tree(token)))],
                )
            } else {
                self.idle()
            },
            None => self.idle(),
        }
    }

    /// The end of the token exchange: the body of the answer, or nothing
    /// where the request failed.
    pub open spec fn on_token(self, body: Option<Seq<char>>) -> (SessionView, Seq<ActionView>) {
        match body {
            Some(text) => match parsed_text(text) {
                Some(tree) => self.on_token_tree(tree),
                None => self.idle(),
            },
            None => self.idle(),
        }
    }

    /// A command that somebody else encoded: it is sent as it is, with a
    /// line end, while there is a socket.
    pub open spec fn on_command(self, text: Seq<char>) -> (SessionView, Seq<ActionView>) {
        if self.phase.connected() {
            (self, seq![ActionView::Send(text + "\n"@)])
        } else {
            self.idle()
        }
    }
}

/// What can happen to a session.
#[derive(Debug)]
pub enum Event {
    /// The session is started, or the wait before a new try is over.
    Start,
    /// The handshake ended, well or not.
    Handshake(bool),
    /// A text frame came from the socket.
    Text(String),
    /// A frame of another kind came from the socket.
    Other,
    /// The socket failed or was closed.
    Lost,
    /// The token exchange ended, with the body of its answer or without one.
    Token(Option<String>),
    /// Somebody handed in an encoded command for the socket.
    Command(String),
}

/// The value of an [`Event`].
pub enum EventView {
    Start,
    Handshake(bool),
    Text(Seq<char>),
    Other,
    Lost,
    Token(Option<Seq<char>>),
    Command(Seq<char>),
}

impl View for Event {
    type V = EventView;

    open spec fn view(&self) -> EventView {
        match self {
            Event::Start => EventView::Start,
            Event::Handshake(ok) => EventView::Handshake(*ok),
            Event::Text(text) => EventView::Text(text@),
            Event::Other => EventView::Other,
            Event::Lost => EventView::Lost,
            Event::Token(body) => EventView::Token(opt_view(*body)),
            Event::Command(text) => EventView::Command(text@),
        }
    }
}

impl SessionView {
    /// The session after an event, and what is to be done.
    pub open spec fn step(self, event: EventView) -> (SessionView, Seq<ActionView>) {
        match event {
            EventView::Start => self.on_start(),
            EventView::Handshake(ok) => self.on_handshake(ok),
            EventView::Text(text) => self.on_text(text),
            EventView::Other => self.idle(),
            EventView::Lost => self.on_lost(),
            EventView::Token(body) => self.on_token(body),
            EventView::Command(text) => self.on_command(text),
        }
    }
}

/// A session with the RPC socket.
#[derive(Debug)]
pub struct Session {
    phase: Phase,
    state: ConnState,
}

impl View for Session {
    type V = SessionView;

    closed spec fn view(&self) -> SessionView {
        SessionView { phase: self.phase, state: self.state@ }
    }
}

/// One text frame for each packet.
fn send_all(packets: &Vec<Json>) -> (r: Vec<Action>)
    ensures
        actions_view(r@) == sends(items_view(packets@)),
{
    let mut actions: Vec<Action> = Vec::new();
    let n = packets.len();
    let mut i: usize = 0;
    proof {
        lemma_items_view(packets@);
    }
    while i < n
        invariant
            n == packets@.len(),
            i <= n,
            actions@.len() == i,
            forall|k: int|
                0 <= k < i ==> (#[trigger] actions@[k])@ == ActionView::Send(
                    frame_text(packets@[k]@),
                ),
        decreases n - i,
    {
        actions.push(Action::Send(wire_text(&packets[i])));
        i += 1;
    }
    assert(actions_view(actions@) =~= sends(items_view(packets@)));
    actions
}

impl Session {
    /// A session that has not started.
    pub fn new() -> (r: Session)
        ensures
            r@ == SessionView::fresh(),
    {
        Session { phase: Phase::Disconnected, state: ConnState::new() }
    }

    /// Where the session stands.
    pub fn phase(&self) -> (r: Phase)
        ensures
            r == self@.phase,
    {
        self.phase
    }

    /// The connection state.
    pub fn state(&self) -> (r: &ConnState)
        ensures
            r@ == self@.state,
    {
        &self.state
    }

    /// Starts the session, at first or after a wait.
    pub fn start(&mut self) -> (r: Vec<Action>)
        ensures
            final(self)@ == old(self)@.on_start().0,
            actions_view(r@) == old(self)@.on_start().1,
    {
        let mut actions: Vec<Action> = Vec::new();
        if self.phase == Phase::Disconnected {
            self.phase = Phase::Connecting;
            actions.push(Action::Connect);
        }
        assert(actions_view(actions@) =~= old(self)@.on_start().1);
        actions
    }

    /// Takes note of how the handshake went.
    pub fn handshake_done(&mut self, ok: bool) -> (r: Vec<Action>)
        ensures
            final(self)@ == old(self)@.on_handshake(ok).0,
            actions_view(r@) == old(self)@.on_handshake(ok).1,
    {
        let mut actions: Vec<Action> = Vec::new();
        if self.phase == Phase::Connecting {
            if ok {
                self.phase = Phase::AwaitingAuthorize;
            } else {
                self.phase = Phase::Disconnected;
                actions.push(Action::Wait(RETRY_MS));
            }
        }
        assert(actions_view(actions@) =~= old(self)@.on_handshake(ok).1);
        actions
    }

    /// Takes note that the socket failed or was closed.
    pub fn connection_lost(&mut self) -> (r: Vec<Action>)
        ensures
            final(self)@ == old(self)@.on_lost().0,
            actions_view(r@) == old(self)@.on_lost().1,
    {
        let mut actions: Vec<Action> = Vec::new();
        if self.phase.is_connected() {
            self.state.clear();
            self.phase = Phase::Disconnected;
            actions.push(Action::Wait(RETRY_MS));
        }
        assert(actions_view(actions@) =~= old(self)@.on_lost().1);
        actions
    }

    /// Takes in a decoded frame.
    pub fn receive_frame(&mut self, frame: Frame) -> (r: Vec<Action>)
        ensures
            final(self)@ == old(self)@.on_frame(frame@).0,
            actions_view(r@) == old(self)@.on_frame(frame@).1,
    {
        if !self.phase.is_connected() {
            let actions: Vec<Action> = Vec::new();
            assert(actions_view(actions@) =~= Seq::empty());
            return actions;
        }
        let before = calculate_hash(&self.state);
        let follows = match &frame {
            Frame::Authenticate { .. } => true,
            Frame::Channel { .. } => true,
            Frame::NoChannel => true,
            Frame::VoiceStateDelete { user_id } => match self.state.user_id() {
                Some(me) => same_text(me.as_str(), user_id.as_str()),
                None => false,
            },
            _ => false,
        };
        let reaction = apply_frame(&mut self.state, frame);
        if follows {
            if self.state.voice_channel().is_some() {
                self.phase = Phase::InChannel;
            } else {
                self.phase = Phase::Subscribed;
            }
        }
        let mut actions = send_all(&reaction.packets);
        let ghost sent = actions@;
        match reaction.exchange {
            Some(code) => {
                let body = render(&token_request(code.as_str()));
                actions.push(Action::Exchange(body));
            },
            None => {},
        }
        let ghost asked = actions@;
        if calculate_hash(&self.state) != before {
            actions.push(Action::Notify(self.state.duplicate()));
        }
        proof {
            let s = old(self)@;
            let f = frame@;
            assert(actions_view(asked) =~= actions_view(sent) + exchanges(exchange_after(f)));
            assert(actions_view(actions@) =~= actions_view(asked) + notices(
                s.state,
                state_after(s.state, f),
            ));
        }
        actions
    }

    /// Takes in a frame as a JSON value.
    pub fn receive_json(&mut self, tree: &Json) -> (r: Vec<Action>)
        ensures
            final(self)@ == old(self)@.on_tree(tree@).0,
            actions_view(r@) == old(self)@.on_tree(tree@).1,
    {
        match decode_frame(tree) {
            Ok(frame) => self.receive_frame(frame),
            Err(_) => {
                let actions: Vec<Action> = Vec::new();
                assert(actions_view(actions@) =~= Seq::empty());
                actions
            },
        }
    }

    /// Takes note of a text frame that is no JSON.
    fn receive_garbage(&mut self) -> (r: Vec<Action>)
        ensures
            final(self)@ == old(self)@.on_garbage().0,
            actions_view(r@) == old(self)@.on_garbage().1,
    {
        let mut actions: Vec<Action> = Vec::new();
        if self.phase.is_connected() {
            let before = calculate_hash(&self.state);
            self.state.clear();
            self.phase = Phase::Disconnected;
            actions.push(Action::Disconnect);
            if calculate_hash(&self.state) != before {
                actions.push(Action::Notify(self.state.duplicate()));
            }
            actions.push(Action::Wait(RETRY_MS));
        }
        assert(actions_view(actions@) =~= old(self)@.on_garbage().1);
        actions
    }

    /// Takes in a text frame from the socket.
    pub fn receive_text(&mut self, text: &str) -> (r: Vec<Action>)
        ensures
            final(self)@ == old(self)@.on_text(text@).0,
            actions_view(r@) == old(self)@.on_text(text@).1,
    {
        match parse(text) {
            Ok(tree) => self.receive_json(&tree),
            Err(_) => self.receive_garbage(),
        }
    }

    /// Takes in the answer of the token exchange as a JSON value.
    pub fn receive_token_json(&mut self, tree: &Json) -> (r: Vec<Action>)
        ensures
            final(self)@ == old(self)@.on_token_tree(tree@).0,
            actions_view(r@) == old(self)@.on_token_tree(tree@).1,
    {
        let mut actions: Vec<Action> = Vec::new();
        let token = match tree.get("access_token") {
            Some(t) => t.as_str(),
            None => None,
        };
        match token {
            Some(token) => {
                if self.phase == Phase::AwaitingAuthorize {
                    self.phase = Phase::AwaitingAuthenticate;
                    actions.push(Action::Send(wire_text(&packet_auth2(token))));
                }
            },
            None => {},
        }
        assert(actions_view(actions@) =~= old(self)@.on_token_tree(tree@).1);
        actions
    }

    /// Takes in the end of the token exchange: the body of the answer, or
    /// `None` where the request failed.
    pub fn receive_token(&mut self, body: Option<&str>) -> (r: Vec<Action>)
        ensures
            final(self)@ == old(self)@.on_token(opt_str_view(body)).0,
            actions_view(r@) == old(self)@.on_token(opt_str_view(body)).1,
    {
        let tree = match body {
            Some(text) => match parse(text) {
                Ok(tree) => Some(tree),
                Err(_) => None,
            },
            None => None,
        };
        match tree {
            Some(tree) => self.receive_token_json(&tree),
            None => {
                let actions: Vec<Action> = Vec::new();
                assert(actions_view(actions@) =~= Seq::empty());
                actions
            },
        }
    }

    /// Takes in an event and says what is to be done.
    pub fn step(&mut self, event: Event) -> (r: Vec<Action>)
        ensures
            final(self)@ == old(self)@.step(event@).0,
            actions_view(r@) == old(self)@.step(event@).1,
    {
        match event {
            Event::Start => self.start(),
            Event::Handshake(ok) => self.handshake_done(ok),
            Event::Text(text) => self.receive_text(text.as_str()),
            Event::Other => {
                let actions: Vec<Action> = Vec::new();
                assert(actions_view(actions@) =~= Seq::empty());
                actions
            },
            Event::Lost => self.connection_lost(),
            Event::Token(body) => match body {
                Some(text) => self.receive_token(Some(text.as_str())),
                None => self.receive_token(None),
            },
            Event::Command(text) => self.forward(text.as_str()),
        }
    }

    /// Passes on a command that somebody else encoded.
    pub fn forward(&self, command: &str) -> (r: Vec<Action>)
        ensures
            actions_view(r@) == self@.on_command(command@).1,
    {
        let mut actions: Vec<Action> = Vec::new();
        if self.phase.is_connected() {
            let mut text = command.to_string();
            text.append("\n");
            actions.push(Action::Send(text));
        }
        assert(actions_view(actions@) =~= self@.on_command(command@).1);
        actions
    }
}

} // verus!
