use discern::json::{render, Json};
use discern::packets::{
    packet_auth, packet_auth2, packet_req_all_guilds, packet_req_devices,
    packet_req_selected_voice, packet_set_channel, packet_set_devices, packet_sub,
    packet_sub_channel, packet_sub_server, packet_sub_voice_channel, token_request, wire_text,
    CLIENT_ID, NONCE,
};

#[test]
fn authorize_names_the_client_and_the_scopes() {
    assert_eq!(
        render(&packet_auth("207646673902501888")),
        "{\"args\":{\"client_id\":\"207646673902501888\",\"prompt\":\"none\",\
         \"scopes\":[\"rpc\",\"messages.read\",\"rpc.notifications.read\"]},\
         \"cmd\":\"AUTHORIZE\",\"nonce\":\"deadbeef\"}"
    );
    assert_eq!(CLIENT_ID, "207646673902501888");
    assert_eq!(NONCE, "deadbeef");
}

#[test]
fn authenticate_carries_the_token() {
    assert_eq!(
        render(&packet_auth2("tok")),
        "{\"args\":{\"access_token\":\"tok\"},\"cmd\":\"AUTHENTICATE\",\"nonce\":\"deadbeef\"}"
    );
}

#[test]
fn requests_have_empty_args() {
    assert_eq!(
        render(&packet_req_all_guilds()),
        "{\"args\":{},\"cmd\":\"GET_GUILDS\",\"nonce\":\"deadbeef\"}"
    );
    assert_eq!(
        render(&packet_req_selected_voice()),
        "{\"args\":{},\"cmd\":\"GET_SELECTED_VOICE_CHANNEL\",\"nonce\":\"deadbeef\"}"
    );
    assert_eq!(
        render(&packet_req_devices()),
        "{\"args\":{},\"cmd\":\"GET_VOICE_SETTINGS\",\"nonce\":\"deadbeef\"}"
    );
}

#[test]
fn subscribe_names_the_event() {
    assert_eq!(
        render(&packet_sub("SOME_EVENT", Json::object().with("k", Json::Bool(true)), "n1")),
        "{\"args\":{\"k\":true},\"cmd\":\"SUBSCRIBE\",\"evt\":\"SOME_EVENT\",\"nonce\":\"n1\"}"
    );
}

#[test]
fn server_subscriptions() {
    let texts: Vec<String> = packet_sub_server().iter().map(render).collect();
    assert_eq!(
        texts,
        vec![
            "{\"args\":{},\"cmd\":\"SUBSCRIBE\",\"evt\":\"VOICE_CHANNEL_SELECT\",\
             \"nonce\":\"VOICE_CHANNEL_SELECT\"}",
            "{\"args\":{},\"cmd\":\"SUBSCRIBE\",\"evt\":\"VOICE_CONNECTION_STATUS\",\
             \"nonce\":\"VOICE_CONNECTION_STATUS\"}",
        ]
    );
}

#[test]
fn channel_subscription_uses_the_channel_as_nonce() {
    assert_eq!(
        render(&packet_sub_channel("SPEAKING_START", "99")),
        "{\"args\":{\"channel_id\":\"99\"},\"cmd\":\"SUBSCRIBE\",\"evt\":\"SPEAKING_START\",\
         \"nonce\":\"99\"}"
    );
}

#[test]
fn voice_channel_subscriptions() {
    let packets = packet_sub_voice_channel("99");
    let events: Vec<&str> =
        packets.iter().map(|p| p.get("evt").unwrap().as_str().unwrap()).collect();
    assert_eq!(
        events,
        vec![
            "VOICE_STATE_CREATE",
            "VOICE_STATE_UPDATE",
            "VOICE_STATE_DELETE",
            "SPEAKING_START",
            "SPEAKING_STOP"
        ]
    );
    for p in packets.iter() {
        assert_eq!(p.get("cmd").unwrap().as_str(), Some("SUBSCRIBE"));
        assert_eq!(p.get("nonce").unwrap().as_str(), Some("99"));
        assert_eq!(p.get("args").unwrap().get("channel_id").unwrap().as_str(), Some("99"));
    }
}

#[test]
fn select_voice_channel_forces_the_move() {
    assert_eq!(
        render(&packet_set_channel("1234")),
        "{\"args\":{\"channel_id\":\"1234\",\"force\":true},\"cmd\":\"SELECT_VOICE_CHANNEL\",\
         \"nonce\":\"deadbeef\"}"
    );
}

#[test]
fn set_voice_settings_names_the_device() {
    assert_eq!(
        render(&packet_set_devices("mute", Json::Bool(true), "deadbeef")),
        "{\"args\":{\"mute\":true},\"cmd\":\"SET_VOICE_SETTINGS\",\"nonce\":\"deadbeef\"}"
    );
    assert_eq!(
        render(&packet_set_devices("deaf", Json::Bool(false), "n")),
        "{\"args\":{\"deaf\":false},\"cmd\":\"SET_VOICE_SETTINGS\",\"nonce\":\"n\"}"
    );
}

#[test]
fn token_request_holds_the_code() {
    assert_eq!(render(&token_request("abc")), "{\"code\":\"abc\"}");
}

#[test]
fn wire_text_ends_the_line() {
    assert_eq!(
        wire_text(&packet_req_all_guilds()),
        "{\"args\":{},\"cmd\":\"GET_GUILDS\",\"nonce\":\"deadbeef\"}\n"
    );
}

#[test]
fn wire_text_escapes_what_it_carries() {
    assert_eq!(
        wire_text(&packet_auth2("a\"b")),
        "{\"args\":{\"access_token\":\"a\\\"b\"},\"cmd\":\"AUTHENTICATE\",\"nonce\":\"deadbeef\"}\n"
    );
}
