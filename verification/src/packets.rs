//! The commands that are sent to the RPC socket.
//!
//! Every command is an object with a `cmd`, its `args` and a `nonce` that the
//! other side echoes; a subscription names its event under `evt` as well.

use vstd::prelude::*;
use vstd::string::StringExecFns;
use crate::json::{items_view, lemma_items_view, render, rendered_text, Json, JsonView};

verus! {

/// The application id under which the overlay registers.
pub const CLIENT_ID: &'static str = "207646673902501888";

/// The nonce of the commands that need none of their own.
pub const NONCE: &'static str = "deadbeef";

/// A command with its arguments and nonce.
pub open spec fn command_tree(cmd: Seq<char>, args: JsonView, nonce: Seq<char>) -> JsonView {
    JsonView::empty_object().with("cmd"@, JsonView::Str(cmd)).with("args"@, args).with(
        "nonce"@,
        JsonView::Str(nonce),
    )
}

/// `AUTHORIZE`: asks for an authorization code for the application.
pub open spec fn auth_tree(client_id: Seq<char>) -> JsonView {
    command_tree(
        "AUTHORIZE"@,
        JsonView::empty_object().with("client_id"@, JsonView::Str(client_id)).with(
            "scopes"@,
            JsonView::Array(
                seq![
                    JsonView::Str("rpc"@),
                    JsonView::Str("messages.read"@),
                    JsonView::Str("rpc.notifications.read"@),
                ],
            ),
        ).with("prompt"@, JsonView::Str("none"@)),
        NONCE@,
    )
}

/// `AUTHENTICATE`: opens the session with an access token.
pub open spec fn auth2_tree(token: Seq<char>) -> JsonView {
    command_tree(
        "AUTHENTICATE"@,
        JsonView::empty_object().with("access_token"@, JsonView::Str(token)),
        NONCE@,
    )
}

/// `GET_GUILDS`: asks for the guilds of the user.
pub open spec fn req_all_guilds_tree() -> JsonView {
    command_tree("GET_GUILDS"@, JsonView::empty_object(), NONCE@)
}

/// `GET_SELECTED_VOICE_CHANNEL`: asks which voice channel the user is in,
/// and who else is.
pub open spec fn req_selected_voice_tree() -> JsonView {
    command_tree("GET_SELECTED_VOICE_CHANNEL"@, JsonView::empty_object(), NONCE@)
}

/// `SUBSCRIBE`: asks to be told of an event.
pub open spec fn sub_tree(event: Seq<char>, args: JsonView, nonce: Seq<char>) -> JsonView {
    command_tree("SUBSCRIBE"@, args, nonce).with("evt"@, JsonView::Str(event))
}

/// A subscription to an event of the whole client; the event's name serves
/// as the nonce.
pub open spec fn sub_server_tree(event: Seq<char>) -> JsonView {
    sub_tree(event, JsonView::empty_object(), event)
}

/// The subscriptions of a session: channel changes and connection status.
pub open spec fn sub_server_trees() -> Seq<JsonView> {
    seq![sub_server_tree("VOICE_CHANNEL_SELECT"@), sub_server_tree("VOICE_CONNECTION_STATUS"@)]
}

/// A subscription to an event of one channel; the channel's id serves as
/// the nonce.
pub open spec fn sub_channel_tree(event: Seq<char>, channel: Seq<char>) -> JsonView {
    sub_tree(
        event,
        JsonView::empty_object().with("channel_id"@, JsonView::Str(channel)),
        channel,
    )
}

/// The subscriptions of a voice channel: users coming, changing and going,
/// and users starting and stopping to speak.
pub open spec fn sub_voice_channel_trees(channel: Seq<char>) -> Seq<JsonView> {
    seq![
        sub_channel_tree("VOICE_STATE_CREATE"@, channel),
        sub_channel_tree("VOICE_STATE_UPDATE"@, channel),
        sub_channel_tree("VOICE_STATE_DELETE"@, channel),
        sub_channel_tree("SPEAKING_START"@, channel),
        sub_channel_tree("SPEAKING_STOP"@, channel),
    ]
}

/// `GET_VOICE_SETTINGS`: asks for the state of the audio devices.
pub open spec fn req_devices_tree() -> JsonView {
    command_tree("GET_VOICE_SETTINGS"@, JsonView::empty_object(), NONCE@)
}

/// `SELECT_VOICE_CHANNEL`: moves the user into a channel, leaving another
/// if need be.
pub open spec fn set_channel_tree(channel: Seq<char>) -> JsonView {
    command_tree(
        "SELECT_VOICE_CHANNEL"@,
        JsonView::empty_object().with("channel_id"@, JsonView::Str(channel)).with(
            "force"@,
            JsonView::Bool(true),
        ),
        NONCE@,
    )
}

/// `SET_VOICE_SETTINGS`: changes one setting of the audio devices.
pub open spec fn set_devices_tree(device: Seq<char>, value: JsonView, nonce: Seq<char>) -> JsonView {
    command_tree("SET_VOICE_SETTINGS"@, JsonView::empty_object().with(device, value), nonce)
}

/// The body of the request that exchanges an authorization code for a token.
pub open spec fn token_request_tree(code: Seq<char>) -> JsonView {
    JsonView::empty_object().with("code"@, JsonView::Str(code))
}

/// The text frame that carries a command: its compact JSON text and a line end.
pub open spec fn frame_text(tree: JsonView) -> Seq<char> {
    rendered_text(tree) + "\n"@
}

fn command(cmd: &str, args: Json, nonce: &str) -> (r: Json)
    ensures
        r@ == command_tree(cmd@, args@, nonce@),
{
    Json::object().with("cmd", Json::text(cmd)).with("args", args).with("nonce", Json::text(nonce))
}

/// The first command of a session: asks for an authorization code.
pub fn packet_auth(client_id: &str) -> (r: Json)
    ensures
        r@ == auth_tree(client_id@),
{
    let mut scopes: Vec<Json> = Vec::new();
    scopes.push(Json::text("rpc"));
    scopes.push(Json::text("messages.read"));
    scopes.push(Json::text("rpc.notifications.read"));
    proof {
        lemma_items_view(scopes@);
        assert(items_view(scopes@) =~= seq![
            JsonView::Str("rpc"@),
            JsonView::Str("messages.read"@),
            JsonView::Str("rpc.notifications.read"@),
        ]);
    }
    let args = Json::object().with("client_id", Json::text(client_id)).with(
        "scopes",
        Json::Array(scopes),
    ).with("prompt", Json::text("none"));
    command("AUTHORIZE", args, NONCE)
}

/// The second command: opens the session with the access token.
pub fn packet_auth2(token: &str) -> (r: Json)
    ensures
        r@ == auth2_tree(token@),
{
    command("AUTHENTICATE", Json::object().with("access_token", Json::text(token)), NONCE)
}

/// Asks for the guilds of the user.
pub fn packet_req_all_guilds() -> (r: Json)
    ensures
        r@ == req_all_guilds_tree(),
{
    command("GET_GUILDS", Json::object(), NONCE)
}

/// Asks which voice channel the user is in.
pub fn packet_req_selected_voice() -> (r: Json)
    ensures
        r@ == req_selected_voice_tree(),
{
    command("GET_SELECTED_VOICE_CHANNEL", Json::object(), NONCE)
}

/// Subscribes to an event.
pub fn packet_sub(event: &str, args: Json, nonce: &str) -> (r: Json)
    ensures
        r@ == sub_tree(event@, args@, nonce@),
{
    command("SUBSCRIBE", args, nonce).with("evt", Json::text(event))
}

/// Subscribes to the events of the whole client.
pub fn packet_sub_server() -> (r: Vec<Json>)
    ensures
        items_view(r@) == sub_server_trees(),
{
    let mut packets: Vec<Json> = Vec::new();
    packets.push(packet_sub("VOICE_CHANNEL_SELECT", Json::object(), "VOICE_CHANNEL_SELECT"));
    packets.push(packet_sub("VOICE_CONNECTION_STATUS", Json::object(), "VOICE_CONNECTION_STATUS"));
    proof {
        lemma_items_view(packets@);
        assert(items_view(packets@) =~= sub_server_trees());
    }
    packets
}

/// Subscribes to an event of one channel.
pub fn packet_sub_channel(event: &str, channel: &str) -> (r: Json)
    ensures
        r@ == sub_channel_tree(event@, channel@),
{
    packet_sub(event, Json::object().with("channel_id", Json::text(channel)), channel)
}

/// Subscribes to the events of a voice channel.
pub fn packet_sub_voice_channel(channel: &str) -> (r: Vec<Json>)
    ensures
        items_view(r@) == sub_voice_channel_trees(channel@),
{
    let mut packets: Vec<Json> = Vec::new();
    packets.push(packet_sub_channel("VOICE_STATE_CREATE", channel));
    packets.push(packet_sub_channel("VOICE_STATE_UPDATE", channel));
    packets.push(packet_sub_channel("VOICE_STATE_DELETE", channel));
    packets.push(packet_sub_channel("SPEAKING_START", channel));
    packets.push(packet_sub_channel("SPEAKING_STOP", channel));
    proof {
        lemma_items_view(packets@);
        assert(items_view(packets@) =~= sub_voice_channel_trees(channel@));
    }
    packets
}

/// Asks for the state of the audio devices.
pub fn packet_req_devices() -> (r: Json)
    ensures
        r@ == req_devices_tree(),
{
    command("GET_VOICE_SETTINGS", Json::object(), NONCE)
}

/// Moves the user into the channel with the given id.
pub fn packet_set_channel(channel: &str) -> (r: Json)
    ensures
        r@ == set_channel_tree(channel@),
{
    command(
        "SELECT_VOICE_CHANNEL",
        Json::object().with("channel_id", Json::text(channel)).with("force", Json::Bool(true)),
        NONCE,
    )
}

/// Changes one setting of the audio devices, such as `mute` or `deaf`.
pub fn packet_set_devices(device: &str, value: Json, nonce: &str) -> (r: Json)
    ensures
        r@ == set_devices_tree(device@, value@, nonce@),
{
    command("SET_VOICE_SETTINGS", Json::object().with(device, value), nonce)
}

/// The body of the token request for an authorization code.
pub fn token_request(code: &str) -> (r: Json)
    ensures
        r@ == token_request_tree(code@),
{
    Json::object().with("code", Json::text(code))
}

/// The text frame for a command, as it goes to the socket.
pub fn wire_text(packet: &Json) -> (r: String)
    ensures
        r@ == frame_text(packet@),
{
    let mut text = render(packet);
    text.append("\n");
    text
}

} // verus!
