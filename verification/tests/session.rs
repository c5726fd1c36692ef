use discern::data::ConnState;
use discern::frames::Frame;
use discern::json::parse;
use discern::session::{
    apply_frame, Action, Event, Phase, Session, ORIGIN, RETRY_MS, SOCKET_URL, TOKEN_URL,
};

const AUTHORIZE: &str = "{\"args\":{\"client_id\":\"207646673902501888\",\"prompt\":\"none\",\
    \"scopes\":[\"rpc\",\"messages.read\",\"rpc.notifications.read\"]},\
    \"cmd\":\"AUTHORIZE\",\"nonce\":\"deadbeef\"}\n";
const SELECTED: &str = "{\"args\":{},\"cmd\":\"GET_SELECTED_VOICE_CHANNEL\",\"nonce\":\"deadbeef\"}\n";
const GUILDS: &str = "{\"args\":{},\"cmd\":\"GET_GUILDS\",\"nonce\":\"deadbeef\"}\n";

fn member(id: &str, name: &str) -> String {
    format!(
        "{{\"user\":{{\"id\":\"{}\",\"username\":\"{}\"}},\"voice_state\":{{\"mute\":false,\
         \"deaf\":false,\"self_mute\":false,\"self_deaf\":false,\"suppress\":false}}}}",
        id, name
    )
}

fn channel(id: &str, members: &[String]) -> String {
    format!(
        "{{\"cmd\":\"GET_SELECTED_VOICE_CHANNEL\",\"data\":{{\"id\":\"{}\",\"voice_states\":[{}]}}}}",
        id,
        members.join(",")
    )
}

fn dispatch(evt: &str, data: &str) -> String {
    format!("{{\"cmd\":\"DISPATCH\",\"evt\":\"{}\",\"data\":{}}}", evt, data)
}

fn sent(actions: &[Action]) -> Vec<String> {
    actions
        .iter()
        .filter_map(|a| match a {
            Action::Send(text) => Some(text.clone()),
            _ => None,
        })
        .collect()
}

fn notified(actions: &[Action]) -> Vec<&ConnState> {
    actions
        .iter()
        .filter_map(|a| match a {
            Action::Notify(state) => Some(state),
            _ => None,
        })
        .collect()
}

fn connected() -> Session {
    let mut s = Session::new();
    s.start();
    s.handshake_done(true);
    s
}

fn opened() -> Session {
    let mut s = connected();
    s.receive_text("{\"cmd\":\"AUTHENTICATE\",\"data\":{\"access_token\":\"tok\",\"user\":{\"id\":\"42\"}}}");
    s
}

#[test]
fn constants_of_the_socket() {
    assert_eq!(SOCKET_URL, "ws://127.0.0.1:6463/?v=1&client_id=207646673902501888");
    assert_eq!(ORIGIN, "https://streamkit.discord.com");
    assert_eq!(TOKEN_URL, "https://streamkit.discord.com/overlay/token");
    assert_eq!(RETRY_MS, 1000);
}

#[test]
fn a_fresh_session_connects_on_start() {
    let mut s = Session::new();
    assert_eq!(s.phase(), Phase::Disconnected);
    let actions = s.start();
    assert!(matches!(actions.as_slice(), [Action::Connect]));
    assert_eq!(s.phase(), Phase::Connecting);
    assert!(s.start().is_empty());
    assert_eq!(s.phase(), Phase::Connecting);
}

#[test]
fn a_failed_handshake_waits_and_tries_again() {
    let mut s = Session::new();
    s.start();
    let actions = s.handshake_done(false);
    assert!(matches!(actions.as_slice(), [Action::Wait(1000)]));
    assert_eq!(s.phase(), Phase::Disconnected);
    assert!(matches!(s.start().as_slice(), [Action::Connect]));
    assert!(s.handshake_done(true).is_empty());
    assert_eq!(s.phase(), Phase::AwaitingAuthorize);
    assert!(s.handshake_done(true).is_empty());
    assert_eq!(s.phase(), Phase::AwaitingAuthorize);
}

#[test]
fn ready_is_answered_with_authorize() {
    let mut s = connected();
    let actions = s.receive_text("{\"cmd\":\"DISPATCH\",\"evt\":\"READY\"}");
    assert_eq!(sent(&actions), vec![AUTHORIZE.to_string()]);
    assert_eq!(actions.len(), 1);
    assert_eq!(s.phase(), Phase::AwaitingAuthorize);
}

#[test]
fn authorization_code_is_exchanged_and_the_token_sent() {
    let mut s = connected();
    s.receive_text("{\"cmd\":\"DISPATCH\",\"evt\":\"READY\"}");
    let actions = s.receive_text("{\"cmd\":\"AUTHORIZE\",\"data\":{\"code\":\"abc\"}}");
    match actions.as_slice() {
        [Action::Exchange(body)] => assert_eq!(body, "{\"code\":\"abc\"}"),
        other => panic!("{:?}", other),
    }
    assert_eq!(s.phase(), Phase::AwaitingAuthorize);
    let actions = s.receive_token(Some("{\"access_token\":\"tok\"}"));
    assert_eq!(
        sent(&actions),
        vec!["{\"args\":{\"access_token\":\"tok\"},\"cmd\":\"AUTHENTICATE\",\"nonce\":\"deadbeef\"}\n"
            .to_string()]
    );
    assert_eq!(actions.len(), 1);
    assert_eq!(s.phase(), Phase::AwaitingAuthenticate);
}

#[test]
fn a_failed_token_exchange_changes_nothing() {
    let mut s = connected();
    assert!(s.receive_token(None).is_empty());
    assert!(s.receive_token(Some("{\"message\":\"no\"}")).is_empty());
    assert!(s.receive_token(Some("not json")).is_empty());
    assert!(s.receive_token(Some("{\"access_token\":null}")).is_empty());
    assert_eq!(s.phase(), Phase::AwaitingAuthorize);
}

#[test]
fn a_late_token_is_dropped() {
    let mut s = connected();
    s.connection_lost();
    assert!(s.receive_token(Some("{\"access_token\":\"tok\"}")).is_empty());
    assert_eq!(s.phase(), Phase::Disconnected);
    let mut s = opened();
    assert!(s.receive_token(Some("{\"access_token\":\"tok\"}")).is_empty());
    assert_eq!(s.phase(), Phase::Subscribed);
}

#[test]
fn authenticate_opens_the_session() {
    let mut s = connected();
    let actions = s.receive_text(
        "{\"cmd\":\"AUTHENTICATE\",\"data\":{\"access_token\":\"tok\",\"user\":{\"id\":\"42\"}}}",
    );
    assert_eq!(s.state().user_id().as_deref(), Some("42"));
    assert_eq!(
        sent(&actions),
        vec![
            GUILDS.to_string(),
            SELECTED.to_string(),
            "{\"args\":{},\"cmd\":\"SUBSCRIBE\",\"evt\":\"VOICE_CHANNEL_SELECT\",\
             \"nonce\":\"VOICE_CHANNEL_SELECT\"}\n"
                .to_string(),
            "{\"args\":{},\"cmd\":\"SUBSCRIBE\",\"evt\":\"VOICE_CONNECTION_STATUS\",\
             \"nonce\":\"VOICE_CONNECTION_STATUS\"}\n"
                .to_string(),
        ]
    );
    let told = notified(&actions);
    assert_eq!(told.len(), 1);
    assert_eq!(told[0].user_id().as_deref(), Some("42"));
    assert_eq!(actions.len(), 5);
    assert_eq!(s.phase(), Phase::Subscribed);
}

#[test]
fn authenticate_without_token_changes_nothing() {
    let mut s = connected();
    let actions = s.receive_text("{\"cmd\":\"AUTHENTICATE\",\"data\":{\"code\":4006}}");
    assert!(actions.is_empty());
    assert!(s.state().user_id().is_none());
    assert_eq!(s.phase(), Phase::AwaitingAuthorize);
}

#[test]
fn channel_answer_fills_the_state() {
    let mut s = opened();
    let actions = s.receive_text(&channel("99", &[member("7", "Alice")]));
    assert_eq!(s.state().voice_channel().as_deref(), Some("99"));
    assert_eq!(s.state().users().get("7").unwrap().username, "Alice");
    assert!(!s.state().voice_states().get("7").unwrap().talking);
    assert_eq!(s.phase(), Phase::InChannel);
    let texts = sent(&actions);
    assert_eq!(texts.len(), 5);
    assert_eq!(
        texts[0],
        "{\"args\":{\"channel_id\":\"99\"},\"cmd\":\"SUBSCRIBE\",\"evt\":\"VOICE_STATE_CREATE\",\
         \"nonce\":\"99\"}\n"
    );
    assert_eq!(
        texts[4],
        "{\"args\":{\"channel_id\":\"99\"},\"cmd\":\"SUBSCRIBE\",\"evt\":\"SPEAKING_STOP\",\
         \"nonce\":\"99\"}\n"
    );
    let told = notified(&actions);
    assert_eq!(told.len(), 1);
    assert!(told[0].same_as(s.state()));
    assert_eq!(actions.len(), 6);
}

#[test]
fn channel_answer_without_id_empties_the_membership() {
    let mut s = opened();
    s.receive_text(&channel("99", &[member("7", "Alice"), member("8", "Bob")]));
    let actions = s.receive_text("{\"cmd\":\"GET_SELECTED_VOICE_CHANNEL\",\"data\":null}");
    assert!(s.state().voice_channel().is_none());
    assert_eq!(s.state().users().len(), 0);
    assert_eq!(s.state().voice_states().len(), 0);
    assert_eq!(s.state().user_id().as_deref(), Some("42"));
    assert_eq!(s.phase(), Phase::Subscribed);
    assert!(sent(&actions).is_empty());
    assert_eq!(notified(&actions).len(), 1);
}

#[test]
fn the_same_answer_twice_is_announced_once() {
    let mut s = opened();
    let first = s.receive_text(&channel("99", &[member("7", "Alice")]));
    assert_eq!(notified(&first).len(), 1);
    let second = s.receive_text(&channel("99", &[member("7", "Alice")]));
    assert_eq!(notified(&second).len(), 0);
    assert_eq!(sent(&second).len(), 5);
    let third = s.receive_text(&dispatch("VOICE_STATE_UPDATE", &member("7", "Alice")));
    assert!(third.is_empty());
}

#[test]
fn speaking_sets_the_talking_flag() {
    let mut s = opened();
    s.receive_text(&channel("99", &[member("7", "Alice")]));
    let actions = s.receive_text(&dispatch("SPEAKING_START", "{\"user_id\":\"7\"}"));
    assert!(s.state().voice_states().get("7").unwrap().talking);
    assert!(sent(&actions).is_empty());
    assert_eq!(notified(&actions).len(), 1);
    let actions = s.receive_text(&dispatch("SPEAKING_START", "{\"user_id\":\"7\"}"));
    assert!(actions.is_empty());
    let actions = s.receive_text(&dispatch("SPEAKING_STOP", "{\"user_id\":\"7\"}"));
    assert!(!s.state().voice_states().get("7").unwrap().talking);
    assert_eq!(notified(&actions).len(), 1);
}

#[test]
fn speaking_of_an_unknown_user_asks_for_the_channel() {
    let mut s = opened();
    let actions = s.receive_text(&dispatch("SPEAKING_START", "{\"user_id\":\"7\"}"));
    assert_eq!(sent(&actions), vec![SELECTED.to_string()]);
    assert_eq!(actions.len(), 1);
    assert_eq!(s.state().users().len(), 0);
    assert_eq!(s.state().voice_states().len(), 0);
    let actions = s.receive_text(&dispatch("SPEAKING_STOP", "{\"user_id\":\"7\"}"));
    assert_eq!(sent(&actions), vec![SELECTED.to_string()]);
    s.receive_text(&channel("99", &[member("7", "Alice")]));
    let actions = s.receive_text(&dispatch("SPEAKING_START", "{\"user_id\":\"8\"}"));
    assert!(actions.is_empty());
    assert!(s.state().voice_states().get("8").is_none());
}

#[test]
fn voice_state_create_asks_for_the_channel_outside_one() {
    let mut s = opened();
    let actions = s.receive_text(&dispatch("VOICE_STATE_CREATE", &member("7", "Alice")));
    assert_eq!(sent(&actions), vec![SELECTED.to_string()]);
    assert_eq!(s.state().users().len(), 0);
    s.receive_text(&channel("99", &[]));
    let actions = s.receive_text(&dispatch("VOICE_STATE_CREATE", &member("7", "Alice")));
    assert!(actions.is_empty());
    assert_eq!(s.state().users().len(), 0);
}

#[test]
fn voice_state_update_stores_the_user() {
    let mut s = opened();
    s.receive_text(&channel("99", &[]));
    let actions = s.receive_text(&dispatch("VOICE_STATE_UPDATE", &member("7", "Alice")));
    assert_eq!(s.state().users().get("7").unwrap().username, "Alice");
    assert!(sent(&actions).is_empty());
    assert_eq!(notified(&actions).len(), 1);
    assert_eq!(s.phase(), Phase::InChannel);
}

#[test]
fn departure_of_another_user_removes_nobody() {
    let mut s = opened();
    s.receive_text(&channel("99", &[member("7", "Alice"), member("42", "Me")]));
    let actions = s.receive_text(&dispatch("VOICE_STATE_DELETE", "{\"user\":{\"id\":\"7\"}}"));
    assert!(actions.is_empty());
    assert_eq!(s.state().users().len(), 2);
    assert_eq!(s.state().voice_states().len(), 2);
    assert_eq!(s.phase(), Phase::InChannel);
}

#[test]
fn departure_of_the_local_user_leaves_the_channel() {
    let mut s = opened();
    s.receive_text(&channel("99", &[member("7", "Alice"), member("42", "Me")]));
    let actions = s.receive_text(&dispatch("VOICE_STATE_DELETE", "{\"user\":{\"id\":\"42\"}}"));
    assert_eq!(notified(&actions).len(), 1);
    assert!(s.state().voice_channel().is_none());
    assert_eq!(s.state().users().len(), 0);
    assert_eq!(s.state().user_id().as_deref(), Some("42"));
    assert_eq!(s.phase(), Phase::Subscribed);
}

#[test]
fn channel_select_asks_for_the_channel() {
    let mut s = opened();
    let actions = s.receive_text(&dispatch("VOICE_CHANNEL_SELECT", "{\"channel_id\":\"5\"}"));
    assert_eq!(sent(&actions), vec![SELECTED.to_string()]);
    assert_eq!(actions.len(), 1);
}

#[test]
fn connection_status_and_unknown_frames_change_nothing() {
    let mut s = opened();
    s.receive_text(&channel("99", &[member("7", "Alice")]));
    let before = s.state().clone();
    assert!(s.receive_text(&dispatch("VOICE_CONNECTION_STATUS", "{\"state\":\"CONNECTED\"}")).is_empty());
    assert!(s.receive_text(&dispatch("SOMETHING_ELSE", "{}")).is_empty());
    assert!(s.receive_text("{\"cmd\":\"GET_GUILDS\",\"data\":{\"guilds\":[]}}").is_empty());
    assert!(s.receive_text("{\"cmd\":\"WHATEVER\"}").is_empty());
    assert!(s.state().same_as(&before));
    assert_eq!(s.phase(), Phase::InChannel);
}

#[test]
fn frames_that_cannot_be_decoded_are_passed_over() {
    let mut s = opened();
    s.receive_text(&channel("99", &[member("7", "Alice")]));
    let before = s.state().clone();
    assert!(s.receive_text("{}").is_empty());
    assert!(s.receive_text("{\"cmd\":\"DISPATCH\"}").is_empty());
    assert!(s.receive_text(&dispatch("VOICE_STATE_UPDATE", "{\"user\":{}}")).is_empty());
    assert!(s.receive_text(&dispatch("VOICE_STATE_DELETE", "{}")).is_empty());
    assert!(s.receive_text(&channel("100", &["{}".to_string()])).is_empty());
    assert!(s.state().same_as(&before));
    assert_eq!(s.phase(), Phase::InChannel);
}

#[test]
fn text_that_is_no_json_ends_the_connection() {
    let mut s = opened();
    s.receive_text(&channel("99", &[member("7", "Alice")]));
    let actions = s.receive_text("{\"cmd\":");
    match actions.as_slice() {
        [Action::Disconnect, Action::Notify(state), Action::Wait(1000)] => {
            assert!(state.same_as(&ConnState::new()))
        }
        other => panic!("{:?}", other),
    }
    assert_eq!(s.phase(), Phase::Disconnected);
    assert!(s.state().same_as(&ConnState::new()));
    let mut s = connected();
    let actions = s.receive_text("nonsense");
    assert!(matches!(actions.as_slice(), [Action::Disconnect, Action::Wait(1000)]));
}

#[test]
fn a_lost_connection_forgets_everything() {
    let mut s = opened();
    s.receive_text(&channel("99", &[member("7", "Alice")]));
    let actions = s.connection_lost();
    assert!(matches!(actions.as_slice(), [Action::Wait(1000)]));
    assert_eq!(s.phase(), Phase::Disconnected);
    assert!(s.state().same_as(&ConnState::new()));
    assert!(s.connection_lost().is_empty());
    assert!(matches!(s.start().as_slice(), [Action::Connect]));
}

#[test]
fn frames_without_a_socket_are_dropped() {
    let mut s = Session::new();
    assert!(s.receive_text("{\"cmd\":\"DISPATCH\",\"evt\":\"READY\"}").is_empty());
    assert!(s.receive_text("nonsense").is_empty());
    s.start();
    assert!(s.receive_text(&channel("99", &[member("7", "Alice")])).is_empty());
    assert!(s.receive_frame(Frame::Ready).is_empty());
    assert_eq!(s.phase(), Phase::Connecting);
    assert!(s.state().same_as(&ConnState::new()));
}

#[test]
fn commands_of_others_are_forwarded_while_connected() {
    let s = connected();
    match s.forward("{\"cmd\":\"X\"}").as_slice() {
        [Action::Send(text)] => assert_eq!(text, "{\"cmd\":\"X\"}\n"),
        other => panic!("{:?}", other),
    }
    assert!(Session::new().forward("{\"cmd\":\"X\"}").is_empty());
}

#[test]
fn step_takes_every_event() {
    let mut s = Session::new();
    assert!(matches!(s.step(Event::Start).as_slice(), [Action::Connect]));
    assert!(s.step(Event::Handshake(true)).is_empty());
    assert!(s.step(Event::Other).is_empty());
    let actions = s.step(Event::Text("{\"cmd\":\"DISPATCH\",\"evt\":\"READY\"}".to_string()));
    assert_eq!(sent(&actions), vec![AUTHORIZE.to_string()]);
    let actions = s.step(Event::Text("{\"cmd\":\"AUTHORIZE\",\"data\":{\"code\":\"c\"}}".to_string()));
    assert!(matches!(actions.as_slice(), [Action::Exchange(_)]));
    let actions = s.step(Event::Token(Some("{\"access_token\":\"t\"}".to_string())));
    assert_eq!(sent(&actions).len(), 1);
    assert!(s.step(Event::Token(None)).is_empty());
    let actions = s.step(Event::Command("abc".to_string()));
    assert_eq!(sent(&actions), vec!["abc\n".to_string()]);
    assert!(matches!(s.step(Event::Lost).as_slice(), [Action::Wait(1000)]));
    assert_eq!(s.phase(), Phase::Disconnected);
}

#[test]
fn apply_frame_says_what_to_send() {
    let mut state = ConnState::new();
    let r = apply_frame(&mut state, Frame::Authorize { code: "abc".to_string() });
    assert!(r.packets.is_empty());
    assert_eq!(r.exchange.as_deref(), Some("abc"));
    let r = apply_frame(&mut state, Frame::Ready);
    assert_eq!(r.packets.len(), 1);
    assert_eq!(r.packets[0].get("cmd").unwrap().as_str(), Some("AUTHORIZE"));
    assert_eq!(
        r.packets[0].get("args").unwrap().get("client_id").unwrap().as_str(),
        Some("207646673902501888")
    );
    assert_eq!(r.exchange, None);
    let r = apply_frame(&mut state, Frame::Authenticate { local_id: None });
    assert_eq!(r.packets.len(), 4);
    assert!(state.user_id().is_none());
    let j = parse("{\"a\":1}").unwrap();
    assert!(j.get("a").is_some());
}
