use discern::avatar::{
    avatar_key, avatar_url, AvatarLedger, AVATAR_REFERER, AVATAR_USER_AGENT,
};
use discern::clispam::{status_line, status_lines};
use discern::data::{ConnState, DiscordUserData, RosterEntry, VoiceStateUpdate};
use discern::json::{parse, render};
use discern::launcher::{executable_name, pick_front_end, FrontEnd};
use discern::rpc::{audio_action, decant, respond, Args, AudioAction};
use discern::statefile::{decimal, statefile_text};
use discern::text::{holds, same_opt, same_text, truth};

fn update(id: &str, name: &str, avatar: Option<&str>) -> VoiceStateUpdate {
    VoiceStateUpdate {
        user: DiscordUserData {
            avatar: avatar.map(|a| a.to_string()),
            id: id.to_string(),
            username: name.to_string(),
        },
        nick: None,
        mute: false,
        self_mute: false,
        deaf: false,
        self_deaf: false,
        suppress: false,
    }
}

#[test]
fn avatar_names_and_addresses() {
    assert_eq!(avatar_key("7", "abc"), "7/abc");
    assert_eq!(avatar_url("7/abc"), "https://cdn.discordapp.com/avatars/7/abc.png");
    assert_eq!(AVATAR_REFERER, "https://streamkit.discord.com/overlay/voice");
    assert_eq!(AVATAR_USER_AGENT, "Mozilla/5.0");
}

#[test]
fn ledger_asks_for_each_avatar_once() {
    let mut state = ConnState::new();
    state.update_state_from_voice_state(&update("1", "One", Some("a")));
    state.update_state_from_voice_state(&update("2", "Two", None));
    state.update_state_from_voice_state(&update("3", "Three", Some("c")));
    let mut ledger = AvatarLedger::new();
    assert_eq!(ledger.wanted(&state), vec!["1/a".to_string(), "3/c".to_string()]);
    assert!(!ledger.is_done("1/a"));
    ledger.mark_done("1/a".to_string());
    assert!(ledger.is_done("1/a"));
    assert_eq!(ledger.wanted(&state), vec!["3/c".to_string()]);
    ledger.mark_done("3/c".to_string());
    ledger.mark_done("3/c".to_string());
    assert!(ledger.wanted(&state).is_empty());
    state.update_state_from_voice_state(&update("1", "One", Some("b")));
    assert_eq!(ledger.wanted(&state), vec!["1/b".to_string()]);
}

#[test]
fn ledger_of_an_empty_state_wants_nothing() {
    assert!(AvatarLedger::new().wanted(&ConnState::new()).is_empty());
}

#[test]
fn decimal_writes_numbers() {
    assert_eq!(decimal(0), "0");
    assert_eq!(decimal(7), "7");
    assert_eq!(decimal(10), "10");
    assert_eq!(decimal(12345), "12345");
    assert_eq!(decimal(9007199254740991), "9007199254740991");
    assert_eq!(decimal(usize::MAX), usize::MAX.to_string());
}

#[test]
fn statefile_outside_a_channel_is_zero() {
    let mut state = ConnState::new();
    assert_eq!(statefile_text(&state), "0\n");
    state.set_user_id(Some("42".to_string()));
    assert_eq!(statefile_text(&state), "0\n");
    let mut state = ConnState::new();
    state.set_voice_channel("99".to_string());
    assert_eq!(statefile_text(&state), "0\n");
}

#[test]
fn statefile_lists_the_users_in_the_channel() {
    let mut state = ConnState::new();
    state.set_user_id(Some("42".to_string()));
    state.set_voice_channel("99".to_string());
    let mut a = update("7", "Alice", Some("av"));
    a.nick = Some("Al".to_string());
    a.self_mute = true;
    state.update_state_from_voice_state(&a);
    let mut b = update("8", "Bob", None);
    b.deaf = true;
    state.update_state_from_voice_state(&b);
    state.set_user_talking("8", true);
    state.update_state_from_voice_state(&update("9", "Gone", None));
    state.update_state_from_voice_state_list(&vec![a, b]);
    assert_eq!(
        statefile_text(&state),
        "99\n3\nAl\nm..\nhttps://cdn.discordapp.com/avatars/7/av.png\nBob\n.dt\n\n"
    );
}

#[test]
fn statefile_of_an_empty_channel() {
    let mut state = ConnState::new();
    state.set_user_id(Some("42".to_string()));
    state.set_voice_channel("99".to_string());
    assert_eq!(statefile_text(&state), "99\n0\n");
}

#[test]
fn status_line_of_a_user() {
    let e = RosterEntry {
        id: "7".to_string(),
        name: "Alice".to_string(),
        avatar: None,
        muted: true,
        deafened: false,
        talking: true,
    };
    assert_eq!(status_line(&e), "Alice : Mute(true) Deaf(false) Talking(true)");
}

#[test]
fn status_lines_of_a_state() {
    let mut state = ConnState::new();
    state.update_state_from_voice_state(&update("7", "Alice", None));
    let mut b = update("8", "Bob", None);
    b.nick = Some("Bobby".to_string());
    b.self_deaf = true;
    state.update_state_from_voice_state(&b);
    assert_eq!(
        status_lines(&state),
        vec![
            "Alice : Mute(false) Deaf(false) Talking(false)".to_string(),
            "Bobby : Mute(false) Deaf(true) Talking(false)".to_string(),
        ]
    );
}

#[test]
fn front_end_by_environment() {
    assert_eq!(pick_front_end(true, true, true, true), FrontEnd::Statefile);
    assert_eq!(pick_front_end(false, true, true, true), FrontEnd::Gamescope);
    assert_eq!(pick_front_end(false, false, true, true), FrontEnd::Wlroots);
    assert_eq!(pick_front_end(false, false, false, true), FrontEnd::X11);
    assert_eq!(pick_front_end(false, false, false, false), FrontEnd::Clispam);
    assert_eq!(executable_name(FrontEnd::Statefile), "discern-statefile");
    assert_eq!(executable_name(FrontEnd::Gamescope), "discern-gamescope");
    assert_eq!(executable_name(FrontEnd::Wlroots), "discern-wlr");
    assert_eq!(executable_name(FrontEnd::X11), "discern-x11");
    assert_eq!(executable_name(FrontEnd::Clispam), "discern-clispam");
}

#[test]
fn audio_actions_are_read_from_the_option() {
    assert_eq!(audio_action(None), Some(AudioAction::Get));
    assert_eq!(audio_action(Some("true")), Some(AudioAction::True));
    assert_eq!(audio_action(Some("false")), Some(AudioAction::False));
    assert_eq!(audio_action(Some("toggle")), Some(AudioAction::Toggle));
    assert_eq!(audio_action(Some("maybe")), None);
    assert_eq!(audio_action(Some("")), None);
}

fn flags(a: &Args) -> (bool, bool, bool, bool, Option<String>, Option<AudioAction>, Option<AudioAction>) {
    (
        a.get_room_id,
        a.get_room_name,
        a.get_room_userlist,
        a.get_room_idlist,
        a.set_room.clone(),
        a.mute,
        a.deaf,
    )
}

#[test]
fn requests_are_read_from_the_command_line() {
    let none = (false, false, false, false, None, None, None);
    let a = decant(Some("channel"), Some("id"), None).unwrap();
    assert_eq!(flags(&a), (true, false, false, false, None, None, None));
    let a = decant(Some("channel"), Some("name"), None).unwrap();
    assert_eq!(flags(&a), (false, true, false, false, None, None, None));
    let a = decant(Some("channel"), Some("usernamelist"), None).unwrap();
    assert_eq!(flags(&a), (false, false, true, false, None, None, None));
    let a = decant(Some("channel"), Some("useridlist"), None).unwrap();
    assert_eq!(flags(&a), (false, false, false, true, None, None, None));
    let a = decant(Some("channel"), Some("move"), Some("1234")).unwrap();
    assert_eq!(flags(&a), (false, false, false, false, Some("1234".to_string()), None, None));
    let a = decant(Some("devices"), Some("mute"), Some("toggle")).unwrap();
    assert_eq!(flags(&a), (false, false, false, false, None, Some(AudioAction::Toggle), None));
    let a = decant(Some("devices"), Some("deaf"), None).unwrap();
    assert_eq!(flags(&a), (false, false, false, false, None, None, Some(AudioAction::Get)));
    assert!(decant(Some("channel"), Some("move"), None).is_none());
    assert!(decant(Some("channel"), Some("other"), None).is_none());
    assert!(decant(Some("devices"), Some("mute"), Some("loud")).is_none());
    assert!(decant(Some("devices"), Some("volume"), None).is_none());
    assert!(decant(Some("rooms"), Some("id"), None).is_none());
    assert!(decant(Some("channel"), None, None).is_none());
    assert!(decant(None, None, None).is_none());
    assert_ne!(flags(&decant(Some("channel"), Some("id"), None).unwrap()), none);
}

const ROOM: &str = "{\"cmd\":\"GET_SELECTED_VOICE_CHANNEL\",\"data\":{\"id\":\"99\",\
    \"name\":\"General\",\"voice_states\":[{\"user\":{\"id\":\"7\",\"username\":\"Alice\"}},\
    {\"user\":{\"id\":8}},{\"user\":{\"id\":\"9\",\"username\":\"Carol\"}}]}}";

fn reply(args: &Args, text: &str) -> (Vec<String>, Vec<String>, bool) {
    let r = respond(args, &parse(text).unwrap());
    (r.packets.iter().map(render).collect(), r.lines, r.exit)
}

fn none() -> (Vec<String>, Vec<String>, bool) {
    (vec![], vec![], false)
}

#[test]
fn room_requests_are_answered_from_the_channel_answer() {
    let id = decant(Some("channel"), Some("id"), None).unwrap();
    assert_eq!(reply(&id, ROOM), (vec![], vec!["99".to_string()], true));
    assert_eq!(
        reply(&id, "{\"cmd\":\"GET_SELECTED_VOICE_CHANNEL\",\"data\":null}"),
        (vec![], vec!["0".to_string()], true)
    );
    let name = decant(Some("channel"), Some("name"), None).unwrap();
    assert_eq!(reply(&name, ROOM), (vec![], vec!["General".to_string()], true));
    assert_eq!(
        reply(&name, "{\"cmd\":\"GET_SELECTED_VOICE_CHANNEL\",\"data\":null}"),
        (vec![], vec!["".to_string()], true)
    );
    let ids = decant(Some("channel"), Some("useridlist"), None).unwrap();
    assert_eq!(reply(&ids, ROOM), (vec![], vec!["7".to_string(), "9".to_string()], true));
    let names = decant(Some("channel"), Some("usernamelist"), None).unwrap();
    assert_eq!(reply(&names, ROOM), (vec![], vec!["Alice".to_string(), "Carol".to_string()], true));
    assert_eq!(
        reply(&names, "{\"cmd\":\"GET_SELECTED_VOICE_CHANNEL\",\"data\":null}"),
        (vec![], vec![], true)
    );
    let mute = decant(Some("devices"), Some("mute"), None).unwrap();
    assert_eq!(reply(&mute, ROOM), none());
}

#[test]
fn settings_are_printed_or_switched_over() {
    let settings = "{\"cmd\":\"GET_VOICE_SETTINGS\",\"data\":{\"mute\":false,\"deaf\":true}}";
    let get_mute = decant(Some("devices"), Some("mute"), None).unwrap();
    assert_eq!(reply(&get_mute, settings), (vec![], vec!["false".to_string()], true));
    let get_deaf = decant(Some("devices"), Some("deaf"), None).unwrap();
    assert_eq!(reply(&get_deaf, settings), (vec![], vec!["true".to_string()], true));
    let toggle_mute = decant(Some("devices"), Some("mute"), Some("toggle")).unwrap();
    assert_eq!(
        reply(&toggle_mute, settings),
        (
            vec!["{\"args\":{\"mute\":true},\"cmd\":\"SET_VOICE_SETTINGS\",\"nonce\":\"deadbeef\"}"
                .to_string()],
            vec![],
            false
        )
    );
    let toggle_deaf = decant(Some("devices"), Some("deaf"), Some("toggle")).unwrap();
    assert_eq!(
        reply(&toggle_deaf, settings),
        (
            vec!["{\"args\":{\"deaf\":false},\"cmd\":\"SET_VOICE_SETTINGS\",\"nonce\":\"deadbeef\"}"
                .to_string()],
            vec![],
            false
        )
    );
    let set_mute = decant(Some("devices"), Some("mute"), Some("true")).unwrap();
    assert_eq!(reply(&set_mute, settings), none());
    assert_eq!(reply(&get_mute, "{\"cmd\":\"GET_VOICE_SETTINGS\",\"data\":{}}"), none());
    let both = Args {
        get_room_id: false,
        get_room_name: false,
        get_room_userlist: false,
        get_room_idlist: false,
        set_room: None,
        mute: Some(AudioAction::Toggle),
        deaf: Some(AudioAction::Get),
    };
    assert_eq!(
        reply(&both, settings),
        (
            vec!["{\"args\":{\"mute\":true},\"cmd\":\"SET_VOICE_SETTINGS\",\"nonce\":\"deadbeef\"}"
                .to_string()],
            vec!["true".to_string()],
            true
        )
    );
    let both = Args { mute: Some(AudioAction::Get), deaf: Some(AudioAction::Toggle), ..both };
    assert_eq!(reply(&both, settings), (vec![], vec!["false".to_string()], true));
}

#[test]
fn the_first_call_is_made_once_the_session_is_open() {
    let open = "{\"cmd\":\"AUTHENTICATE\",\"data\":{\"access_token\":\"t\"}}";
    let devices = "{\"args\":{},\"cmd\":\"GET_VOICE_SETTINGS\",\"nonce\":\"deadbeef\"}".to_string();
    let get_mute = decant(Some("devices"), Some("mute"), None).unwrap();
    assert_eq!(reply(&get_mute, open), (vec![devices.clone()], vec![], false));
    let toggle_deaf = decant(Some("devices"), Some("deaf"), Some("toggle")).unwrap();
    assert_eq!(reply(&toggle_deaf, open), (vec![devices], vec![], false));
    let mute_on = decant(Some("devices"), Some("mute"), Some("true")).unwrap();
    assert_eq!(
        reply(&mute_on, open),
        (
            vec!["{\"args\":{\"mute\":true},\"cmd\":\"SET_VOICE_SETTINGS\",\"nonce\":\"deadbeef\"}"
                .to_string()],
            vec![],
            false
        )
    );
    let deaf_off = decant(Some("devices"), Some("deaf"), Some("false")).unwrap();
    assert_eq!(
        reply(&deaf_off, open),
        (
            vec!["{\"args\":{\"deaf\":false},\"cmd\":\"SET_VOICE_SETTINGS\",\"nonce\":\"deadbeef\"}"
                .to_string()],
            vec![],
            false
        )
    );
    let go = decant(Some("channel"), Some("move"), Some("1234")).unwrap();
    assert_eq!(
        reply(&go, open),
        (
            vec!["{\"args\":{\"channel_id\":\"1234\",\"force\":true},\
                  \"cmd\":\"SELECT_VOICE_CHANNEL\",\"nonce\":\"deadbeef\"}"
                .to_string()],
            vec![],
            false
        )
    );
    let id = decant(Some("channel"), Some("id"), None).unwrap();
    assert_eq!(reply(&id, open), none());
}

#[test]
fn acknowledgements_end_the_request() {
    let id = decant(Some("channel"), Some("id"), None).unwrap();
    assert_eq!(reply(&id, "{\"cmd\":\"SELECT_VOICE_CHANNEL\",\"data\":{}}"), (vec![], vec![], true));
    assert_eq!(reply(&id, "{\"cmd\":\"SET_VOICE_SETTINGS\",\"data\":{}}"), (vec![], vec![], true));
    assert_eq!(reply(&id, "{\"cmd\":\"DISPATCH\",\"evt\":\"READY\"}"), none());
    assert_eq!(reply(&id, "{}"), none());
    assert_eq!(reply(&id, "[]"), none());
}

#[test]
fn text_helpers() {
    assert!(same_text("abc", "abc"));
    assert!(!same_text("abc", "abd"));
    assert!(!same_text("abc", "ab"));
    assert!(same_opt(&None, &None));
    assert!(same_opt(&Some("a".to_string()), &Some("a".to_string())));
    assert!(!same_opt(&Some("a".to_string()), &None));
    assert!(!same_opt(&Some("a".to_string()), &Some("b".to_string())));
    assert_eq!(truth(true), "true");
    assert_eq!(truth(false), "false");
    assert!(holds(&vec!["a".to_string(), "b".to_string()], "b"));
    assert!(!holds(&vec!["a".to_string(), "b".to_string()], "c"));
    assert!(!holds(&vec![], ""));
}
