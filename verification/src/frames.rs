//! The frames that come from the RPC socket, decoded into typed events.
//!
//! A frame is a JSON object with a `cmd`; a pushed notification has the
//! `cmd` `DISPATCH` and names its event under `evt`. What a frame carries
//! is under `data`. A frame that lacks what its kind needs is not decoded,
//! and the error says what was missing.

use vstd::prelude::*;
use crate::data::{
    updates_view, DiscordUserData, UserView, VoiceStateUpdate, VoiceUpdateView,
};
use crate::json::{items_view, lemma_items_view, Json, JsonView};
use crate::text::{opt_view, same_text};

verus! {

/// What a frame lacked. A field counts as missing where it is absent and
/// where it holds a value of the wrong type.
#[derive(Debug, Clone, Copy, PartialEq, Eq, Structural)]
pub enum DecodeError {
    /// No string `cmd`.
    MissingCmd,
    /// A `DISPATCH` without a string `evt`.
    MissingEvt,
    /// An `AUTHORIZE` answer without a string `data.code`.
    MissingCode,
    /// A channel answer whose `data.id` is no string.
    BadChannelId,
    /// A channel answer whose `data.voice_states` is no array.
    BadVoiceStates,
    /// A speaking event without a string `data.user_id`.
    MissingSpeaker,
    /// A voice state without a string `user.id`.
    MissingUserId,
    /// A voice state without a string `user.username`.
    MissingUsername,
    /// A voice state without a boolean `voice_state.mute`.
    MissingMute,
    /// A voice state without a boolean `voice_state.deaf`.
    MissingDeaf,
    /// A voice state without a boolean `voice_state.self_mute`.
    MissingSelfMute,
    /// A voice state without a boolean `voice_state.self_deaf`.
    MissingSelfDeaf,
    /// A voice state without a boolean `voice_state.suppress`.
    MissingSuppress,
}

/// A decoded frame.
#[derive(Debug)]
pub enum Frame {
    /// The answer to `AUTHORIZE`: the code to exchange for a token.
    Authorize { code: String },
    /// The answer to `AUTHENTICATE` that carries an access token: the
    /// session is open. The local user's id comes with it, if it was sent.
    Authenticate { local_id: Option<String> },
    /// The answer to `AUTHENTICATE` without an access token.
    Unauthorized,
    /// The answer to `GET_GUILDS`.
    Guilds,
    /// The answer to `GET_SELECTED_VOICE_CHANNEL` inside a channel: the
    /// channel's id and everybody in it.
    Channel { id: String, members: Vec<VoiceStateUpdate> },
    /// The answer to `GET_SELECTED_VOICE_CHANNEL` outside any channel.
    NoChannel,
    /// The socket is ready for commands.
    Ready,
    SpeakingStart { user_id: String },
    SpeakingStop { user_id: String },
    /// A user came into the channel.
    VoiceStateCreate,
    /// A user's voice state changed.
    VoiceStateUpdate(VoiceStateUpdate),
    /// A user left the channel.
    VoiceStateDelete { user_id: String },
    /// The local user picked another channel.
    VoiceChannelSelect,
    VoiceConnectionStatus,
    /// Any other command or event.
    Unknown,
}

/// The value of a [`Frame`].
pub enum FrameView {
    Authorize { code: Seq<char> },
    Authenticate { local_id: Option<Seq<char>> },
    Unauthorized,
    Guilds,
    Channel { id: Seq<char>, members: Seq<VoiceUpdateView> },
    NoChannel,
    Ready,
    SpeakingStart { user_id: Seq<char> },
    SpeakingStop { user_id: Seq<char> },
    VoiceStateCreate,
    VoiceStateUpdate(VoiceUpdateView),
    VoiceStateDelete { user_id: Seq<char> },
    VoiceChannelSelect,
    VoiceConnectionStatus,
    Unknown,
}

impl View for Frame {
    type V = FrameView;

    open spec fn view(&self) -> FrameView {
        match self {
            Frame::Authorize { code } => FrameView::Authorize { code: code@ },
            Frame::Authenticate { local_id } => FrameView::Authenticate {
                local_id: opt_view(*local_id),
            },
            Frame::Unauthorized => FrameView::Unauthorized,
            Frame::Guilds => FrameView::Guilds,
            Frame::Channel { id, members } => FrameView::Channel {
                id: id@,
                members: updates_view(members@),
            },
            Frame::NoChannel => FrameView::NoChannel,
            Frame::Ready => FrameView::Ready,
            Frame::SpeakingStart { user_id } => FrameView::SpeakingStart { user_id: user_id@ },
            Frame::SpeakingStop { user_id } => FrameView::SpeakingStop { user_id: user_id@ },
            Frame::VoiceStateCreate => FrameView::VoiceStateCreate,
            Frame::VoiceStateUpdate(u) => FrameView::VoiceStateUpdate(u@),
            Frame::VoiceStateDelete { user_id } => FrameView::VoiceStateDelete {
                user_id: user_id@,
            },
            Frame::VoiceChannelSelect => FrameView::VoiceChannelSelect,
            Frame::VoiceConnectionStatus => FrameView::VoiceConnectionStatus,
            Frame::Unknown => FrameView::Unknown,
        }
    }
}

/// The nickname of a voice-state payload: the `nick` of the payload itself
/// where it has one, else the `nick` of its `voice_state`.
pub open spec fn nick_of(j: JsonView) -> Option<Seq<char>> {
    match j.member("nick"@).as_str() {
        Some(n) => Some(n),
        None => j.member("voice_state"@).member("nick"@).as_str(),
    }
}

/// What a voice-state payload says of its user, or what it lacks. The
/// fields are looked at in the order user id, user name, `mute`, `deaf`,
/// `self_mute`, `self_deaf`, `suppress`, and the first one missing is
/// reported.
pub open spec fn voice_state_of(j: JsonView) -> Result<VoiceUpdateView, DecodeError> {
    let user = j.member("user"@);
    let vs = j.member("voice_state"@);
    if user.member("id"@).as_str() is None {
        Err(DecodeError::MissingUserId)
    } else if user.member("username"@).as_str() is None {
        Err(DecodeError::MissingUsername)
    } else if vs.member("mute"@).as_bool() is None {
        Err(DecodeError::MissingMute)
    } else if vs.member("deaf"@).as_bool() is None {
        Err(DecodeError::MissingDeaf)
    } else if vs.member("self_mute"@).as_bool() is None {
        Err(DecodeError::MissingSelfMute)
    } else if vs.member("self_deaf"@).as_bool() is None {
        Err(DecodeError::MissingSelfDeaf)
    } else if vs.member("suppress"@).as_bool() is None {
        Err(DecodeError::MissingSuppress)
    } else {
        Ok(
            VoiceUpdateView {
                user: UserView {
                    avatar: user.member("avatar"@).as_str(),
                    id: user.member("id"@).as_str()->0,
                    username: user.member("username"@).as_str()->0,
                },
                nick: nick_of(j),
                mute: vs.member("mute"@).as_bool()->0,
                self_mute: vs.member("self_mute"@).as_bool()->0,
                deaf: vs.member("deaf"@).as_bool()->0,
                self_deaf: vs.member("self_deaf"@).as_bool()->0,
                suppress: vs.member("suppress"@).as_bool()->0,
            },
        )
    }
}

/// What a list of voice-state payloads says, entry by entry, or what the
/// first entry that cannot be decoded lacks.
pub open spec fn voice_states_of(items: Seq<JsonView>) -> Result<Seq<VoiceUpdateView>, DecodeError>
    decreases items.len(),
{
    if items.len() == 0 {
        Ok(Seq::empty())
    } else {
        match voice_states_of(items.drop_last()) {
            Err(e) => Err(e),
            Ok(front) => match voice_state_of(items.last()) {
                Err(e) => Err(e),
                Ok(u) => Ok(front.push(u)),
            },
        }
    }
}

/// The frame that a pushed notification with the given event stands for.
pub open spec fn dispatch_of(evt: Seq<char>, data: JsonView) -> Result<FrameView, DecodeError> {
    if evt == "READY"@ {
        Ok(FrameView::Ready)
    } else if evt == "SPEAKING_START"@ {
        match data.member("user_id"@).as_str() {
            Some(id) => Ok(FrameView::SpeakingStart { user_id: id }),
            None => Err(DecodeError::MissingSpeaker),
        }
    } else if evt == "SPEAKING_STOP"@ {
        match data.member("user_id"@).as_str() {
            Some(id) => Ok(FrameView::SpeakingStop { user_id: id }),
            None => Err(DecodeError::MissingSpeaker),
        }
    } else if evt == "VOICE_STATE_DELETE"@ {
        match data.member("user"@).member("id"@).as_str() {
            Some(id) => Ok(FrameView::VoiceStateDelete { user_id: id }),
            None => Err(DecodeError::MissingUserId),
        }
    } else if evt == "VOICE_STATE_CREATE"@ {
        Ok(FrameView::VoiceStateCreate)
    } else if evt == "VOICE_STATE_UPDATE"@ {
        match voice_state_of(data) {
            Ok(u) => Ok(FrameView::VoiceStateUpdate(u)),
            Err(e) => Err(e),
        }
    } else if evt == "VOICE_CHANNEL_SELECT"@ {
        Ok(FrameView::VoiceChannelSelect)
    } else if evt == "VOICE_CONNECTION_STATUS"@ {
        Ok(FrameView::VoiceConnectionStatus)
    } else {
        Ok(FrameView::Unknown)
    }
}

/// The frame that the answer to `GET_SELECTED_VOICE_CHANNEL` stands for.
pub open spec fn channel_of(data: JsonView) -> Result<FrameView, DecodeError> {
    match data.field("id"@) {
        None => Ok(FrameView::NoChannel),
        Some(id) => match id.as_str() {
            None => Err(DecodeError::BadChannelId),
            Some(channel) => match data.member("voice_states"@).as_array() {
                None => Err(DecodeError::BadVoiceStates),
                Some(items) => match voice_states_of(items) {
                    Err(e) => Err(e),
                    Ok(members) => Ok(FrameView::Channel { id: channel, members }),
                },
            },
        },
    }
}

/// The frame that a JSON value stands for, or what it lacks to be one.
pub open spec fn frame_of(j: JsonView) -> Result<FrameView, DecodeError> {
    let data = j.member("data"@);
    match j.member("cmd"@).as_str() {
        None => Err(DecodeError::MissingCmd),
        Some(cmd) => if cmd == "AUTHORIZE"@ {
            match data.member("code"@).as_str() {
                Some(code) => Ok(FrameView::Authorize { code }),
                None => Err(DecodeError::MissingCode),
            }
        } else if cmd == "AUTHENTICATE"@ {
            if data.field("access_token"@) is Some {
                Ok(FrameView::Authenticate { local_id: data.member("user"@).member("id"@).as_str() })
            } else {
                Ok(FrameView::Unauthorized)
            }
        } else if cmd == "GET_GUILDS"@ {
            Ok(FrameView::Guilds)
        } else if cmd == "GET_SELECTED_VOICE_CHANNEL"@ {
            channel_of(data)
        } else if cmd == "DISPATCH"@ {
            match j.member("evt"@).as_str() {
                None => Err(DecodeError::MissingEvt),
                Some(evt) => dispatch_of(evt, data),
            }
        } else {
            Ok(FrameView::Unknown)
        },
    }
}

/// The value that an optional reference into a tree stands for: `Null`
/// where there is nothing.
pub open spec fn at(o: Option<&Json>) -> JsonView {
    match o {
        Some(j) => j@,
        None => JsonView::Null,
    }
}

/// The member under a key of a value that may be absent.
pub(crate) fn member<'a>(parent: Option<&'a Json>, key: &str) -> (r: Option<&'a Json>)
    ensures
        at(r) == at(parent).member(key@),
{
    match parent {
        Some(p) => p.get(key),
        None => None,
    }
}

/// A copy of the text of a value that may be absent, if it is a string.
pub(crate) fn text_at(o: Option<&Json>) -> (r: Option<String>)
    ensures
        opt_view(r) == at(o).as_str(),
{
    match o {
        Some(j) => match j.as_str() {
            Some(s) => Some(s.to_string()),
            None => None,
        },
        None => None,
    }
}

/// The truth value of a value that may be absent, if it is a boolean.
pub(crate) fn flag_at(o: Option<&Json>) -> (r: Option<bool>)
    ensures
        r == at(o).as_bool(),
{
    match o {
        Some(j) => j.as_bool(),
        None => None,
    }
}

/// Decodes a voice-state payload, as it comes in a channel answer and in a
/// `VOICE_STATE_UPDATE`.
pub fn decode_voice_state(j: &Json) -> (r: Result<VoiceStateUpdate, DecodeError>)
    ensures
        match r {
            Ok(u) => voice_state_of(j@) == Ok::<VoiceUpdateView, DecodeError>(u@),
            Err(e) => voice_state_of(j@) == Err::<VoiceUpdateView, DecodeError>(e),
        },
{
    let user = member(Some(j), "user");
    let vs = member(Some(j), "voice_state");
    let id = match text_at(member(user, "id")) {
        Some(v) => v,
        None => { return Err(DecodeError::MissingUserId); },
    };
    let username = match text_at(member(user, "username")) {
        Some(v) => v,
        None => { return Err(DecodeError::MissingUsername); },
    };
    let mute = match flag_at(member(vs, "mute")) {
        Some(v) => v,
        None => { return Err(DecodeError::MissingMute); },
    };
    let deaf = match flag_at(member(vs, "deaf")) {
        Some(v) => v,
        None => { return Err(DecodeError::MissingDeaf); },
    };
    let self_mute = match flag_at(member(vs, "self_mute")) {
        Some(v) => v,
        None => { return Err(DecodeError::MissingSelfMute); },
    };
    let self_deaf = match flag_at(member(vs, "self_deaf")) {
        Some(v) => v,
        None => { return Err(DecodeError::MissingSelfDeaf); },
    };
    let suppress = match flag_at(member(vs, "suppress")) {
        Some(v) => v,
        None => { return Err(DecodeError::MissingSuppress); },
    };
    let avatar = text_at(member(user, "avatar"));
    let nick = match text_at(member(Some(j), "nick")) {
        Some(n) => Some(n),
        None => text_at(member(vs, "nick")),
    };
    Ok(
        VoiceStateUpdate {
            user: DiscordUserData { avatar, id, username },
            nick,
            mute,
            self_mute,
            deaf,
            self_deaf,
            suppress,
        },
    )
}

/// Decodes a list of voice-state payloads.
pub fn decode_voice_states(items: &Vec<Json>) -> (r: Result<Vec<VoiceStateUpdate>, DecodeError>)
    ensures
        match r {
            Ok(members) => voice_states_of(items_view(items@)) == Ok::<
                Seq<VoiceUpdateView>,
                DecodeError,
            >(updates_view(members@)),
            Err(e) => voice_states_of(items_view(items@)) == Err::<
                Seq<VoiceUpdateView>,
                DecodeError,
            >(e),
        },
{
    let ghost all = items_view(items@);
    let mut members: Vec<VoiceStateUpdate> = Vec::new();
    let n = items.len();
    let mut i: usize = 0;
    proof {
        lemma_items_view(items@);
        assert(all.take(0) =~= Seq::empty());
        assert(updates_view(members@) =~= Seq::empty());
    }
    while i < n
        invariant
            n == items@.len(),
            i <= n,
            all == items_view(items@),
            all.len() == n,
            forall|k: int| 0 <= k < n ==> #[trigger] all[k] == items@[k]@,
            voice_states_of(all.take(i as int)) == Ok::<Seq<VoiceUpdateView>, DecodeError>(
                updates_view(members@),
            ),
        decreases n - i,
    {
        proof {
            assert(all.take(i + 1).drop_last() =~= all.take(i as int));
            assert(all.take(i + 1).last() == items@[i as int]@);
        }
        let ghost before = members@;
        match decode_voice_state(&items[i]) {
            Ok(u) => {
                members.push(u);
                assert(updates_view(members@) =~= updates_view(before).push(u@));
            },
            Err(e) => {
                proof {
                    lemma_voice_states_error(all, i + 1, e);
                }
                return Err(e);
            },
        }
        i += 1;
    }
    assert(all.take(n as int) =~= all);
    Ok(members)
}

/// An error in a front part of a list is the error of the whole list.
proof fn lemma_voice_states_error(items: Seq<JsonView>, n: int, e: DecodeError)
    requires
        0 <= n <= items.len(),
        voice_states_of(items.take(n)) == Err::<Seq<VoiceUpdateView>, DecodeError>(e),
    ensures
        voice_states_of(items) == Err::<Seq<VoiceUpdateView>, DecodeError>(e),
    decreases items.len() - n,
{
    if n < items.len() {
        assert(items.take(n + 1).drop_last() =~= items.take(n));
        lemma_voice_states_error(items, n + 1, e);
    } else {
        assert(items.take(n) =~= items);
    }
}

/// Decodes the answer to `GET_SELECTED_VOICE_CHANNEL` from its `data`.
fn decode_channel(data: Option<&Json>) -> (r: Result<Frame, DecodeError>)
    ensures
        match r {
            Ok(f) => channel_of(at(data)) == Ok::<FrameView, DecodeError>(f@),
            Err(e) => channel_of(at(data)) == Err::<FrameView, DecodeError>(e),
        },
{
    let id = match data {
        Some(d) => d.get("id"),
        None => None,
    };
    match id {
        None => Ok(Frame::NoChannel),
        Some(id) => match id.as_str() {
            None => Err(DecodeError::BadChannelId),
            Some(channel) => {
                let items = match member(data, "voice_states") {
                    Some(v) => v.as_array(),
                    None => None,
                };
                match items {
                    None => Err(DecodeError::BadVoiceStates),
                    Some(items) => match decode_voice_states(items) {
                        Err(e) => Err(e),
                        Ok(members) => Ok(Frame::Channel { id: channel.to_string(), members }),
                    },
                }
            },
        },
    }
}

/// Decodes a pushed notification from its event name and its `data`.
fn decode_dispatch(evt: &str, data: Option<&Json>) -> (r: Result<Frame, DecodeError>)
    ensures
        match r {
            Ok(f) => dispatch_of(evt@, at(data)) == Ok::<FrameView, DecodeError>(f@),
            Err(e) => dispatch_of(evt@, at(data)) == Err::<FrameView, DecodeError>(e),
        },
{
    if same_text(evt, "READY") {
        Ok(Frame::Ready)
    } else if same_text(evt, "SPEAKING_START") {
        match text_at(member(data, "user_id")) {
            Some(user_id) => Ok(Frame::SpeakingStart { user_id }),
            None => Err(DecodeError::MissingSpeaker),
        }
    } else if same_text(evt, "SPEAKING_STOP") {
        match text_at(member(data, "user_id")) {
            Some(user_id) => Ok(Frame::SpeakingStop { user_id }),
            None => Err(DecodeError::MissingSpeaker),
        }
    } else if same_text(evt, "VOICE_STATE_DELETE") {
        match text_at(member(member(data, "user"), "id")) {
            Some(user_id) => Ok(Frame::VoiceStateDelete { user_id }),
            None => Err(DecodeError::MissingUserId),
        }
    } else if same_text(evt, "VOICE_STATE_CREATE") {
        Ok(Frame::VoiceStateCreate)
    } else if same_text(evt, "VOICE_STATE_UPDATE") {
        match data {
            Some(d) => match decode_voice_state(d) {
                Ok(u) => Ok(Frame::VoiceStateUpdate(u)),
                Err(e) => Err(e),
            },
            None => Err(DecodeError::MissingUserId),
        }
    } else if same_text(evt, "VOICE_CHANNEL_SELECT") {
        Ok(Frame::VoiceChannelSelect)
    } else if same_text(evt, "VOICE_CONNECTION_STATUS") {
        Ok(Frame::VoiceConnectionStatus)
    } else {
        Ok(Frame::Unknown)
    }
}

/// Decodes a frame.
pub fn decode_frame(j: &Json) -> (r: Result<Frame, DecodeError>)
    ensures
        match r {
            Ok(f) => frame_of(j@) == Ok::<FrameView, DecodeError>(f@),
            Err(e) => frame_of(j@) == Err::<FrameView, DecodeError>(e),
        },
{
    let data = member(Some(j), "data");
    let cmd = match j.get("cmd") {
        Some(c) => c.as_str(),
        None => None,
    };
    match cmd {
        None => Err(DecodeError::MissingCmd),
        Some(cmd) => {
            if same_text(cmd, "AUTHORIZE") {
                match text_at(member(data, "code")) {
                    Some(code) => Ok(Frame::Authorize { code }),
                    None => Err(DecodeError::MissingCode),
                }
            } else if same_text(cmd, "AUTHENTICATE") {
                let token = match data {
                    Some(d) => d.get("access_token"),
                    None => None,
                };
                if token.is_some() {
                    Ok(Frame::Authenticate { local_id: text_at(member(member(data, "user"), "id")) })
                } else {
                    Ok(Frame::Unauthorized)
                }
            } else if same_text(cmd, "GET_GUILDS") {
                Ok(Frame::Guilds)
            } else if same_text(cmd, "GET_SELECTED_VOICE_CHANNEL") {
                decode_channel(data)
            } else if same_text(cmd, "DISPATCH") {
                let evt = match j.get("evt") {
                    Some(e) => e.as_str(),
                    None => None,
                };
                match evt {
                    None => Err(DecodeError::MissingEvt),
                    Some(evt) => decode_dispatch(evt, data),
                }
            } else {
                Ok(Frame::Unknown)
            }
        },
    }
}

} // verus!
