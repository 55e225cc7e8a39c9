use koditool::json::Json;
use koditool::resolver::SelectedEpisode;
use koditool::rpc::{
    active_players_request, play_request, players_active, settle, stop_request, Authorization,
    Config, Exchange, RpcClient, RpcError,
};

fn obj(entries: Vec<(&str, Json)>) -> Json {
    Json::Object(entries.into_iter().map(|(k, v)| (k.to_string(), v)).collect())
}

fn text(s: &str) -> Json {
    Json::Str(s.to_string())
}

fn member<'a>(j: &'a Json, key: &str) -> &'a Json {
    j.get(&key.to_string()).expect("member present")
}

fn test_config() -> Config {
    Config {
        url: "http://127.0.0.1:8080".to_string(),
        username: "test_user".to_string(),
        password: "test_pass".to_string(),
    }
}

#[test]
fn test_authorization_header() {
    let auth = Authorization::new("test_user", "test_pass");
    let header_value = auth.auth_header_value();
    // "Basic " followed by the standard base64 text of "test_user:test_pass".
    assert_eq!(header_value, "Basic dGVzdF91c2VyOnRlc3RfcGFzcw==");
}

#[test]
fn client_derives_header_and_endpoint() {
    let client = RpcClient::new(test_config());
    assert_eq!(client.auth.auth_header_value(), "Basic dGVzdF91c2VyOnRlc3RfcGFzcw==");
    assert_eq!(client.endpoint(), "http://127.0.0.1:8080/jsonrpc");
}

#[test]
fn empty_credentials_encode_the_colon() {
    let auth = Authorization::new("", "");
    assert_eq!(auth.auth_header_value(), "Basic Og==");
}

#[test]
fn test_rpc_call_success() {
    let body = obj(vec![
        ("jsonrpc", text("2.0")),
        ("id", Json::UInt(1)),
        ("result", obj(vec![("success", Json::Bool(true))])),
    ]);
    let result = settle(Exchange::Answered { status: 200, body: Some(body) }).unwrap();
    assert!(matches!(member(member(&result, "result"), "success"), Json::Bool(true)));
}

#[test]
fn test_rpc_call_error() {
    let body = obj(vec![
        ("jsonrpc", text("2.0")),
        ("id", Json::UInt(1)),
        (
            "error",
            obj(vec![("code", Json::Int(-32601)), ("message", text("Method not found"))]),
        ),
    ]);
    let result = settle(Exchange::Answered { status: 200, body: Some(body) }).unwrap();
    assert!(matches!(member(member(&result, "error"), "code"), Json::Int(-32601)));
    assert!(
        matches!(member(member(&result, "error"), "message"), Json::Str(m) if m == "Method not found")
    );
}

#[test]
fn test_http_error() {
    let body = obj(vec![("error", text("Internal Server Error"))]);
    let result = settle(Exchange::Answered { status: 500, body: Some(body) });
    assert!(result.is_err());
    assert!(matches!(result, Err(RpcError::ProtocolError(500))));
}

#[test]
fn test_invalid_json_response() {
    let result = settle(Exchange::Answered { status: 200, body: None });
    assert!(result.is_err());
    assert!(matches!(result, Err(RpcError::DecodeError)));
}

#[test]
fn failed_exchange_is_transport_error() {
    assert!(matches!(settle(Exchange::Failed), Err(RpcError::TransportError)));
    assert!(matches!(
        settle(Exchange::Answered { status: 199, body: Some(Json::Null) }),
        Err(RpcError::ProtocolError(199))
    ));
    assert!(settle(Exchange::Answered { status: 299, body: Some(Json::Null) }).is_ok());
}

#[test]
fn test_play_episode() {
    let episode = SelectedEpisode {
        episode_id: 101,
        episode_file_path: "/path/to/test_episode.mp4".to_string(),
    };
    let request = play_request(&episode.episode_file_path);
    assert!(matches!(member(&request, "method"), Json::Str(m) if m == "Player.Open"));
    let file = member(member(member(&request, "params"), "item"), "file");
    assert!(matches!(file, Json::Str(f) if f == "/path/to/test_episode.mp4"));
    assert!(matches!(member(&request, "jsonrpc"), Json::Str(v) if v == "2.0"));
    assert!(matches!(member(&request, "id"), Json::UInt(1)));
    assert_eq!(episode.display(), "/path/to/test_episode.mp4");
}

#[test]
fn test_stop_playback() {
    let request = stop_request();
    assert!(matches!(member(&request, "method"), Json::Str(m) if m == "Player.Stop"));
    assert!(matches!(member(member(&request, "params"), "playerid"), Json::UInt(1)));
}

#[test]
fn test_is_active_with_players() {
    let reply = obj(vec![
        ("jsonrpc", text("2.0")),
        ("id", Json::UInt(1)),
        (
            "result",
            Json::Array(vec![obj(vec![("playerid", Json::UInt(1)), ("type", text("video"))])]),
        ),
    ]);
    assert_eq!(players_active(&reply), true);
}

#[test]
fn test_is_active_without_players() {
    let reply = obj(vec![
        ("jsonrpc", text("2.0")),
        ("id", Json::UInt(1)),
        ("result", Json::Array(vec![])),
    ]);
    assert_eq!(players_active(&reply), false);
}

#[test]
fn reply_without_result_names_no_player() {
    assert_eq!(players_active(&obj(vec![("id", Json::UInt(1))])), false);
    let request = active_players_request();
    assert!(matches!(member(&request, "method"), Json::Str(m) if m == "Player.GetActivePlayers"));
    assert!(request.get(&"params".to_string()).is_none());
}
