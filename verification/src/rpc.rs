//! The one-shot remote control: what to print and send for a request, frame
//! by frame, and when the request is done.
//!
//! A request asks one thing of the running client: the id or the name of
//! the voice channel, who is in it, to move to another channel, or to read
//! or change the mute and deaf settings.

use vstd::prelude::*;
use crate::json::{items_view, lemma_items_view, Json, JsonView};
use crate::packets::{
    packet_req_devices, packet_set_channel, packet_set_devices, req_devices_tree,
    set_channel_tree, set_devices_tree, NONCE,
};
use crate::frames::{at, flag_at, member, text_at};
use crate::text::{bool_text, opt_str_view, opt_view, same_text, texts_view, truth};

verus! {

/// What a request wants of an audio setting.
#[derive(Debug, Clone, Copy, PartialEq, Eq, Structural)]
pub enum AudioAction {
    /// Switch it on.
    True,
    /// Switch it off.
    False,
    /// Switch it over.
    Toggle,
    /// Print it.
    Get,
}

/// A request.
#[derive(Debug)]
pub struct Args {
    pub get_room_id: bool,
    pub get_room_name: bool,
    pub get_room_userlist: bool,
    pub get_room_idlist: bool,
    pub set_room: Option<String>,
    pub mute: Option<AudioAction>,
    pub deaf: Option<AudioAction>,
}

/// The value of an [`Args`].
pub struct ArgsView {
    pub get_room_id: bool,
    pub get_room_name: bool,
    pub get_room_userlist: bool,
    pub get_room_idlist: bool,
    pub set_room: Option<Seq<char>>,
    pub mute: Option<AudioAction>,
    pub deaf: Option<AudioAction>,
}

impl View for Args {
    type V = ArgsView;

    open spec fn view(&self) -> ArgsView {
        ArgsView {
            get_room_id: self.get_room_id,
            get_room_name: self.get_room_name,
            get_room_userlist: self.get_room_userlist,
            get_room_idlist: self.get_room_idlist,
            set_room: opt_view(self.set_room),
            mute: self.mute,
            deaf: self.deaf,
        }
    }
}

impl ArgsView {
    /// The request that asks nothing.
    pub open spec fn nothing() -> ArgsView {
        ArgsView {
            get_room_id: false,
            get_room_name: false,
            get_room_userlist: false,
            get_room_idlist: false,
            set_room: None,
            mute: None,
            deaf: None,
        }
    }
}

/// What the value of `--set` asks of a setting: `true`, `false`, `toggle`,
/// or, where the option is absent, to print the setting. Any other value
/// is no request.
pub open spec fn audio_action_of(value: Option<Seq<char>>) -> Option<AudioAction> {
    match value {
        None => Some(AudioAction::Get),
        Some(v) => if v == "true"@ {
            Some(AudioAction::True)
        } else if v == "false"@ {
            Some(AudioAction::False)
        } else if v == "toggle"@ {
            Some(AudioAction::Toggle)
        } else {
            None
        },
    }
}

/// The request that a command line stands for: a group (`channel` or
/// `devices`), an item of the group, and the item's value, if it has one.
/// `None` where the command line is no request.
pub open spec fn args_of(
    group: Option<Seq<char>>,
    item: Option<Seq<char>>,
    value: Option<Seq<char>>,
) -> Option<ArgsView> {
    if group is None || item is None {
        None
    } else if group->0 == "channel"@ {
        if item->0 == "id"@ {
            Some(ArgsView { get_room_id: true, ..ArgsView::nothing() })
        } else if item->0 == "name"@ {
            Some(ArgsView { get_room_name: true, ..ArgsView::nothing() })
        } else if item->0 == "useridlist"@ {
            Some(ArgsView { get_room_idlist: true, ..ArgsView::nothing() })
        } else if item->0 == "usernamelist"@ {
            Some(ArgsView { get_room_userlist: true, ..ArgsView::nothing() })
        } else if item->0 == "move"@ && value is Some {
            Some(ArgsView { set_room: value, ..ArgsView::nothing() })
        } else {
            None
        }
    } else if group->0 == "devices"@ {
        if item->0 == "mute"@ {
            match audio_action_of(value) {
                Some(a) => Some(ArgsView { mute: Some(a), ..ArgsView::nothing() }),
                None => None,
            }
        } else if item->0 == "deaf"@ {
            match audio_action_of(value) {
                Some(a) => Some(ArgsView { deaf: Some(a), ..ArgsView::nothing() }),
                None => None,
            }
        } else {
            None
        }
    } else {
        None
    }
}

fn nothing() -> (r: Args)
    ensures
        r@ == ArgsView::nothing(),
{
    Args {
        get_room_id: false,
        get_room_name: false,
        get_room_userlist: false,
        get_room_idlist: false,
        set_room: None,
        mute: None,
        deaf: None,
    }
}

/// Reads what `--set` asks of a setting.
pub fn audio_action(value: Option<&str>) -> (r: Option<AudioAction>)
    ensures
        r == audio_action_of(opt_str_view(value)),
{
    match value {
        None => Some(AudioAction::Get),
        Some(v) => {
            if same_text(v, "true") {
                Some(AudioAction::True)
            } else if same_text(v, "false") {
                Some(AudioAction::False)
            } else if same_text(v, "toggle") {
                Some(AudioAction::Toggle)
            } else {
                None
            }
        },
    }
}

/// Reads a request from the parts of a command line.
pub fn decant(group: Option<&str>, item: Option<&str>, value: Option<&str>) -> (r: Option<Args>)
    ensures
        match r {
            Some(args) => args_of(
                opt_str_view(group),
                opt_str_view(item),
                opt_str_view(value),
            ) == Some(args@),
            None => args_of(
                opt_str_view(group),
                opt_str_view(item),
                opt_str_view(value),
            ) is None,
        },
{
    let (group, item) = match (group, item) {
        (Some(g), Some(i)) => (g, i),
        _ => {
            return None;
        },
    };
    let mut args = nothing();
    if same_text(group, "channel") {
        if same_text(item, "id") {
            args.get_room_id = true;
        } else if same_text(item, "name") {
            args.get_room_name = true;
        } else if same_text(item, "useridlist") {
            args.get_room_idlist = true;
        } else if same_text(item, "usernamelist") {
            args.get_room_userlist = true;
        } else if same_text(item, "move") {
            match value {
                Some(room) => {
                    args.set_room = Some(room.to_string());
                },
                None => {
                    return None;
                },
            }
        } else {
            return None;
        }
    } else if same_text(group, "devices") {
        if same_text(item, "mute") {
            match audio_action(value) {
                Some(a) => {
                    args.mute = Some(a);
                },
                None => {
                    return None;
                },
            }
        } else if same_text(item, "deaf") {
            match audio_action(value) {
                Some(a) => {
                    args.deaf = Some(a);
                },
                None => {
                    return None;
                },
            }
        } else {
            return None;
        }
    } else {
        return None;
    }
    Some(args)
}

/// What a frame asks of the remote control.
#[derive(Debug)]
pub struct Reply {
    /// The packets to send, first.
    pub packets: Vec<Json>,
    /// The lines to print, after that.
    pub lines: Vec<String>,
    /// Whether the request is done and the program ends.
    pub exit: bool,
}

/// The value of a [`Reply`].
pub struct ReplyView {
    pub packets: Seq<JsonView>,
    pub lines: Seq<Seq<char>>,
    pub exit: bool,
}

impl View for Reply {
    type V = ReplyView;

    open spec fn view(&self) -> ReplyView {
        ReplyView {
            packets: items_view(self.packets@),
            lines: texts_view(self.lines@),
            exit: self.exit,
        }
    }
}

impl ReplyView {
    /// Nothing to send, nothing to print, and the request goes on.
    pub open spec fn nothing() -> ReplyView {
        ReplyView { packets: Seq::empty(), lines: Seq::empty(), exit: false }
    }

    /// The request is done.
    pub open spec fn done() -> ReplyView {
        ReplyView { packets: Seq::empty(), lines: Seq::empty(), exit: true }
    }

    /// One line is printed and the request is done.
    pub open spec fn answer(line: Seq<char>) -> ReplyView {
        ReplyView { packets: Seq::empty(), lines: seq![line], exit: true }
    }

    /// One reply after another; nothing follows a reply that is done.
    pub open spec fn followed_by(self, next: ReplyView) -> ReplyView {
        if self.exit {
            self
        } else {
            ReplyView {
                packets: self.packets + next.packets,
                lines: self.lines + next.lines,
                exit: next.exit,
            }
        }
    }
}

/// One text for every voice state of a list whose user has a string
/// under the given key, in order.
pub open spec fn member_texts(items: Seq<JsonView>, key: Seq<char>) -> Seq<Seq<char>>
    decreases items.len(),
{
    if items.len() == 0 {
        Seq::empty()
    } else {
        let front = member_texts(items.drop_last(), key);
        match items.last().member("user"@).member(key).as_str() {
            Some(text) => front.push(text),
            None => front,
        }
    }
}

/// The texts of the members of a channel answer; none where the answer
/// has no list of voice states.
pub open spec fn room_texts(data: JsonView, key: Seq<char>) -> Seq<Seq<char>> {
    match data.member("voice_states"@).as_array() {
        Some(items) => member_texts(items, key),
        None => Seq::empty(),
    }
}

/// The reply to a channel answer.
pub open spec fn room_reply(args: ArgsView, data: JsonView) -> ReplyView {
    if args.get_room_id {
        ReplyView::answer(
            match data.member("id"@).as_str() {
                Some(id) => id,
                None => "0"@,
            },
        )
    } else if args.get_room_name {
        ReplyView::answer(
            match data.member("name"@).as_str() {
                Some(name) => name,
                None => Seq::empty(),
            },
        )
    } else if args.get_room_idlist {
        ReplyView { packets: Seq::empty(), lines: room_texts(data, "id"@), exit: true }
    } else if args.get_room_userlist {
        ReplyView { packets: Seq::empty(), lines: room_texts(data, "username"@), exit: true }
    } else {
        ReplyView::nothing()
    }
}

/// The reply to the settings for one device: a setting to switch over is
/// sent back switched over, a setting to print is printed.
pub open spec fn setting_reply(
    action: Option<AudioAction>,
    device: Seq<char>,
    data: JsonView,
) -> ReplyView {
    match data.member(device).as_bool() {
        None => ReplyView::nothing(),
        Some(on) => match action {
            Some(AudioAction::Toggle) => ReplyView {
                packets: seq![set_devices_tree(device, JsonView::Bool(!on), NONCE@)],
                lines: Seq::empty(),
                exit: false,
            },
            Some(AudioAction::Get) => ReplyView::answer(bool_text(on)),
            _ => ReplyView::nothing(),
        },
    }
}

/// What is sent for one device once the session is open.
pub open spec fn opening_packets(action: Option<AudioAction>, device: Seq<char>) -> Seq<JsonView> {
    match action {
        Some(AudioAction::True) => seq![set_devices_tree(device, JsonView::Bool(true), NONCE@)],
        Some(AudioAction::False) => seq![set_devices_tree(device, JsonView::Bool(false), NONCE@)],
        Some(AudioAction::Toggle) => seq![req_devices_tree()],
        Some(AudioAction::Get) => seq![req_devices_tree()],
        None => Seq::empty(),
    }
}

/// What is sent to move to a room.
pub open spec fn move_packets(room: Option<Seq<char>>) -> Seq<JsonView> {
    match room {
        Some(id) => seq![set_channel_tree(id)],
        None => Seq::empty(),
    }
}

/// The reply to a frame.
pub open spec fn reply_of(args: ArgsView, frame: JsonView) -> ReplyView {
    let data = frame.member("data"@);
    match frame.member("cmd"@).as_str() {
        None => ReplyView::nothing(),
        Some(cmd) => if cmd == "SELECT_VOICE_CHANNEL"@ {
            ReplyView::done()
        } else if cmd == "GET_SELECTED_VOICE_CHANNEL"@ {
            room_reply(args, data)
        } else if cmd == "SET_VOICE_SETTINGS"@ {
            ReplyView::done()
        } else if cmd == "GET_VOICE_SETTINGS"@ {
            setting_reply(args.mute, "mute"@, data).followed_by(setting_reply(args.deaf, "deaf"@, data))
        } else if cmd == "AUTHENTICATE"@ {
            ReplyView {
                packets: opening_packets(args.mute, "mute"@) + opening_packets(args.deaf, "deaf"@)
                    + move_packets(args.set_room),
                lines: Seq::empty(),
                exit: false,
            }
        } else {
            ReplyView::nothing()
        },
    }
}

fn room_lines(data: Option<&Json>, key: &str) -> (r: Vec<String>)
    ensures
        texts_view(r@) == room_texts(at(data), key@),
{
    let mut lines: Vec<String> = Vec::new();
    assert(texts_view(lines@) =~= Seq::empty());
    let items = match member(data, "voice_states") {
        Some(v) => v.as_array(),
        None => None,
    };
    match items {
        None => lines,
        Some(items) => {
            let ghost all = items_view(items@);
            let n = items.len();
            let mut i: usize = 0;
            proof {
                lemma_items_view(items@);
                assert(all.take(0) =~= Seq::empty());
            }
            while i < n
                invariant
                    n == items@.len(),
                    i <= n,
                    all == items_view(items@),
                    all.len() == n,
                    forall|k: int| 0 <= k < n ==> #[trigger] all[k] == items@[k]@,
                    texts_view(lines@) == member_texts(all.take(i as int), key@),
                decreases n - i,
            {
                proof {
                    assert(all.take(i + 1).drop_last() =~= all.take(i as int));
                    assert(all.take(i + 1).last() == items@[i as int]@);
                }
                let ghost before = texts_view(lines@);
                match text_at(member(member(Some(&items[i]), "user"), key)) {
                    Some(text) => {
                        lines.push(text);
                        assert(texts_view(lines@) =~= before.push(text@));
                    },
                    None => {},
                }
                i += 1;
            }
            assert(all.take(n as int) =~= all);
            lines
        },
    }
}

fn one_line(line: String) -> (r: Vec<String>)
    ensures
        texts_view(r@) == seq![line@],
{
    let mut lines: Vec<String> = Vec::new();
    lines.push(line);
    assert(texts_view(lines@) =~= seq![line@]);
    lines
}

fn no_lines() -> (r: Vec<String>)
    ensures
        texts_view(r@) == Seq::<Seq<char>>::empty(),
{
    let lines: Vec<String> = Vec::new();
    assert(texts_view(lines@) =~= Seq::<Seq<char>>::empty());
    lines
}

fn no_packets() -> (r: Vec<Json>)
    ensures
        items_view(r@) == Seq::<JsonView>::empty(),
{
    Vec::new()
}

fn one_packet(packet: Json) -> (r: Vec<Json>)
    ensures
        items_view(r@) == seq![packet@],
{
    let mut packets: Vec<Json> = Vec::new();
    packets.push(packet);
    proof {
        lemma_items_view(packets@);
        assert(items_view(packets@) =~= seq![packet@]);
    }
    packets
}

fn answer_room(args: &Args, data: Option<&Json>) -> (r: Reply)
    ensures
        r@ == room_reply(args@, at(data)),
{
    if args.get_room_id {
        let line = match text_at(member(data, "id")) {
            Some(id) => id,
            None => "0".to_string(),
        };
        Reply { packets: no_packets(), lines: one_line(line), exit: true }
    } else if args.get_room_name {
        let line = match text_at(member(data, "name")) {
            Some(name) => name,
            None => String::new(),
        };
        Reply { packets: no_packets(), lines: one_line(line), exit: true }
    } else if args.get_room_idlist {
        Reply { packets: no_packets(), lines: room_lines(data, "id"), exit: true }
    } else if args.get_room_userlist {
        Reply { packets: no_packets(), lines: room_lines(data, "username"), exit: true }
    } else {
        Reply { packets: no_packets(), lines: no_lines(), exit: false }
    }
}

fn answer_setting(action: Option<AudioAction>, device: &str, data: Option<&Json>) -> (r: Reply)
    ensures
        r@ == setting_reply(action, device@, at(data)),
{
    let on = flag_at(member(data, device));
    match (on, action) {
        (Some(on), Some(AudioAction::Toggle)) => Reply {
            packets: one_packet(packet_set_devices(device, Json::Bool(!on), NONCE)),
            lines: no_lines(),
            exit: false,
        },
        (Some(on), Some(AudioAction::Get)) => Reply {
            packets: no_packets(),
            lines: one_line(truth(on).to_string()),
            exit: true,
        },
        _ => Reply { packets: no_packets(), lines: no_lines(), exit: false },
    }
}

fn open_device(action: Option<AudioAction>, device: &str) -> (r: Vec<Json>)
    ensures
        items_view(r@) == opening_packets(action, device@),
{
    match action {
        Some(AudioAction::True) => one_packet(packet_set_devices(device, Json::Bool(true), NONCE)),
        Some(AudioAction::False) => one_packet(
            packet_set_devices(device, Json::Bool(false), NONCE),
        ),
        Some(AudioAction::Toggle) => one_packet(packet_req_devices()),
        Some(AudioAction::Get) => one_packet(packet_req_devices()),
        None => no_packets(),
    }
}

fn join(mut a: Vec<Json>, mut b: Vec<Json>) -> (r: Vec<Json>)
    ensures
        items_view(r@) == items_view(a@) + items_view(b@),
{
    proof {
        lemma_items_view(a@);
        lemma_items_view(b@);
    }
    let ghost a0 = a@;
    let ghost b0 = b@;
    a.append(&mut b);
    proof {
        lemma_items_view(a@);
        assert(items_view(a@) =~= items_view(a0) + items_view(b0));
    }
    a
}

fn join_lines(mut a: Vec<String>, mut b: Vec<String>) -> (r: Vec<String>)
    ensures
        texts_view(r@) == texts_view(a@) + texts_view(
            b@,
        ),
{
    let ghost a0 = a@;
    let ghost b0 = b@;
    a.append(&mut b);
    assert(texts_view(a@) =~= texts_view(a0)
        + texts_view(b0));
    a
}

/// Says what to send and print for a frame, and whether the request is done.
pub fn respond(args: &Args, frame: &Json) -> (r: Reply)
    ensures
        r@ == reply_of(args@, frame@),
{
    let data = member(Some(frame), "data");
    let cmd = match frame.get("cmd") {
        Some(c) => c.as_str(),
        None => None,
    };
    let cmd = match cmd {
        Some(cmd) => cmd,
        None => {
            return Reply { packets: no_packets(), lines: no_lines(), exit: false };
        },
    };
    if same_text(cmd, "SELECT_VOICE_CHANNEL") {
        Reply { packets: no_packets(), lines: no_lines(), exit: true }
    } else if same_text(cmd, "GET_SELECTED_VOICE_CHANNEL") {
        answer_room(args, data)
    } else if same_text(cmd, "SET_VOICE_SETTINGS") {
        Reply { packets: no_packets(), lines: no_lines(), exit: true }
    } else if same_text(cmd, "GET_VOICE_SETTINGS") {
        let mute = answer_setting(args.mute, "mute", data);
        if mute.exit {
            mute
        } else {
            let deaf = answer_setting(args.deaf, "deaf", data);
            Reply {
                packets: join(mute.packets, deaf.packets),
                lines: join_lines(mute.lines, deaf.lines),
                exit: deaf.exit,
            }
        }
    } else if same_text(cmd, "AUTHENTICATE") {
        let room = match &args.set_room {
            Some(id) => one_packet(packet_set_channel(id.as_str())),
            None => no_packets(),
        };
        Reply {
            packets: join(join(open_device(args.mute, "mute"), open_device(args.deaf, "deaf")), room),
            lines: no_lines(),
            exit: false,
        }
    } else {
        Reply { packets: no_packets(), lines: no_lines(), exit: false }
    }
}

} // verus!
