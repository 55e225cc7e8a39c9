use vstd::prelude::*;
use vstd::utf8::encode_utf8;
use vstd::string::StringExecFns;
use crate::json::{entry, Json};

verus! {

/// Where the player listens and the credentials it accepts.
#[derive(Debug)]
pub struct Config {
    pub url: String,
    pub username: String,
    pub password: String,
}

/// The character of the standard base64 alphabet for a six-bit value.
pub open spec fn base64_digit(n: int) -> char {
    if n < 26 {
        (65 + n) as char
    } else if n < 52 {
        (97 + n - 26) as char
    } else if n < 62 {
        (48 + n - 52) as char
    } else if n == 62 {
        '+'
    } else {
        '/'
    }
}

/// The four characters that stand for the bytes `a`, `b`, `c`; `n` of them
/// (one to three) are present, and `=` pads for the missing ones.
pub open spec fn base64_group(a: int, b: int, c: int, n: int) -> Seq<char> {
    seq![
        base64_digit(a / 4),
        base64_digit((a % 4) * 16 + b / 16),
        if n >= 2 { base64_digit((b % 16) * 4 + c / 64) } else { '=' },
        if n >= 3 { base64_digit(c % 64) } else { '=' },
    ]
}

/// The standard base64 text of some bytes, padded with `=`: each group of
/// three bytes gives four characters.
pub open spec fn base64_of(bytes: Seq<u8>) -> Seq<char>
    decreases bytes.len(),
{
    if bytes.len() == 0 {
        Seq::empty()
    } else if bytes.len() == 1 {
        base64_group(bytes[0] as int, 0, 0, 1)
    } else if bytes.len() == 2 {
        base64_group(bytes[0] as int, bytes[1] as int, 0, 2)
    } else {
        base64_group(bytes[0] as int, bytes[1] as int, bytes[2] as int, 3) + base64_of(
            bytes.subrange(3, bytes.len() as int),
        )
    }
}

/// Relies on `base64::encode`: the standard alphabet with `=` padding.
#[verifier::external_body]
#[allow(deprecated)]
fn encode_base64(bytes: &[u8]) -> (r: String)
    ensures
        r@ == base64_of(bytes@),
{
    base64::encode(bytes)
}

/// `username:password`, the text that basic authentication encodes.
pub open spec fn credentials_text(username: Seq<char>, password: Seq<char>) -> Seq<char> {
    username + seq![':'] + password
}

/// The value of the `Authorization` header for the given credentials.
pub open spec fn basic_auth_value(username: Seq<char>, password: Seq<char>) -> Seq<char> {
    "Basic "@ + base64_of(encode_utf8(credentials_text(username, password)))
}

/// The authorization header value, derived once from the credentials.
#[derive(Debug)]
pub struct Authorization {
    value: String,
}

impl View for Authorization {
    type V = Seq<char>;

    closed spec fn view(&self) -> Seq<char> {
        self.value@
    }
}

impl Authorization {
    pub fn new(username: &str, password: &str) -> (r: Authorization)
        ensures
            r@ == basic_auth_value(username@, password@),
    {
        let mut credentials = String::from_str(username);
        credentials.append(":");
        credentials.append(password);
        proof {
            reveal_strlit(":");
        }
        assert(credentials@ == credentials_text(username@, password@));
        let encoded = encode_base64(credentials.as_str().as_bytes());
        let mut value = String::from_str("Basic ");
        value.append(encoded.as_str());
        Authorization { value }
    }

    /// The header value, `Basic ` and the encoded credentials.
    pub fn auth_header_value(&self) -> (r: &String)
        ensures
            r@ == self@,
    {
        &self.value
    }
}

/// Whether `r` is the request envelope for `method` with `params`.
pub open spec fn is_request(r: Json, method: Seq<char>, params: Json) -> bool {
    &&& r.keys() == seq!["jsonrpc"@, "method"@, "params"@, "id"@]
    &&& r.values()[0].is_text("2.0"@)
    &&& r.values()[1].is_text(method)
    &&& r.values()[2] == params
    &&& r.values()[3].is_uint(1)
}

/// Whether `r` is the request envelope for `method`, without parameters.
pub open spec fn is_bare_request(r: Json, method: Seq<char>) -> bool {
    &&& r.keys() == seq!["jsonrpc"@, "method"@, "id"@]
    &&& r.values()[0].is_text("2.0"@)
    &&& r.values()[1].is_text(method)
    &&& r.values()[2].is_uint(1)
}

/// Whether `j` asks for the first thousand items of a listing.
pub open spec fn is_limits(j: Json) -> bool {
    &&& j.keys() == seq!["start"@, "end"@]
    &&& j.values()[0].is_uint(0)
    &&& j.values()[1].is_uint(1000)
}

/// The envelope of a call of `method` with `params`.
pub fn request(method: &str, params: Json) -> (r: Json)
    ensures
        is_request(r, method@, params),
{
    let entries = vec![
        entry("jsonrpc", Json::text("2.0")),
        entry("method", Json::text(method)),
        entry("params", params),
        entry("id", Json::UInt(1)),
    ];
    let r = Json::object(entries);
    assert(r.keys() =~= seq!["jsonrpc"@, "method"@, "params"@, "id"@]);
    r
}

/// The envelope of a call of `method` without parameters.
pub fn bare_request(method: &str) -> (r: Json)
    ensures
        is_bare_request(r, method@),
{
    let entries = vec![
        entry("jsonrpc", Json::text("2.0")),
        entry("method", Json::text(method)),
        entry("id", Json::UInt(1)),
    ];
    let r = Json::object(entries);
    assert(r.keys() =~= seq!["jsonrpc"@, "method"@, "id"@]);
    r
}

fn limits() -> (r: Json)
    ensures
        is_limits(r),
{
    let r = Json::object(vec![entry("start", Json::UInt(0)), entry("end", Json::UInt(1000))]);
    assert(r.keys() =~= seq!["start"@, "end"@]);
    r
}

/// Whether `r` asks for the title of every show in the library.
pub open spec fn is_list_shows_request(r: Json) -> bool {
    let p = r.values()[2];
    &&& is_request(r, "VideoLibrary.GetTVShows"@, p)
    &&& p.keys() == seq!["properties"@, "limits"@]
    &&& p.values()[0].is_text_list(seq!["title"@])
    &&& is_limits(p.values()[1])
}

/// Whether `r` asks for the episodes of the show `show_id`.
pub open spec fn is_list_episodes_request(r: Json, show_id: u64) -> bool {
    let p = r.values()[2];
    &&& is_request(r, "VideoLibrary.GetEpisodes"@, p)
    &&& p.keys() == seq!["tvshowid"@, "properties"@, "limits"@]
    &&& p.values()[0].is_uint(show_id)
    &&& p.values()[1].is_text_list(seq!["title"@, "season"@, "episode"@])
    &&& is_limits(p.values()[2])
}

/// Whether `r` asks for the file of the episode `episode_id`.
pub open spec fn is_episode_details_request(r: Json, episode_id: u64) -> bool {
    let p = r.values()[2];
    &&& is_request(r, "VideoLibrary.GetEpisodeDetails"@, p)
    &&& p.keys() == seq!["episodeid"@, "properties"@]
    &&& p.values()[0].is_uint(episode_id)
    &&& p.values()[1].is_text_list(seq!["file"@])
}

/// Whether `r` asks the player to open the file `file`.
pub open spec fn is_play_request(r: Json, file: Seq<char>) -> bool {
    let p = r.values()[2];
    let item = p.values()[0];
    &&& is_request(r, "Player.Open"@, p)
    &&& p.keys() == seq!["item"@]
    &&& item.keys() == seq!["file"@]
    &&& item.values()[0].is_text(file)
}

/// Whether `r` asks the video player to stop.
pub open spec fn is_stop_request(r: Json) -> bool {
    let p = r.values()[2];
    &&& is_request(r, "Player.Stop"@, p)
    &&& p.keys() == seq!["playerid"@]
    &&& p.values()[0].is_uint(1)
}

/// Whether `r` asks which players are active.
pub open spec fn is_active_players_request(r: Json) -> bool {
    is_bare_request(r, "Player.GetActivePlayers"@)
}

/// The request that lists the shows of the library.
pub fn list_shows_request() -> (r: Json)
    ensures
        is_list_shows_request(r),
{
    let names = vec!["title"];
    let properties = Json::text_list(&names);
    assert(names@.map_values(|t: &str| t@) =~= seq!["title"@]);
    let params = Json::object(vec![entry("properties", properties), entry("limits", limits())]);
    assert(params.keys() =~= seq!["properties"@, "limits"@]);
    request("VideoLibrary.GetTVShows", params)
}

/// The request that lists the episodes of the show `show_id`.
pub fn list_episodes_request(show_id: u64) -> (r: Json)
    ensures
        is_list_episodes_request(r, show_id),
{
    let names = vec!["title", "season", "episode"];
    let properties = Json::text_list(&names);
    assert(names@.map_values(|t: &str| t@) =~= seq!["title"@, "season"@, "episode"@]);
    let params = Json::object(
        vec![
            entry("tvshowid", Json::UInt(show_id)),
            entry("properties", properties),
            entry("limits", limits()),
        ],
    );
    assert(params.keys() =~= seq!["tvshowid"@, "properties"@, "limits"@]);
    request("VideoLibrary.GetEpisodes", params)
}

/// The request that asks for the file of the episode `episode_id`.
pub fn episode_details_request(episode_id: u64) -> (r: Json)
    ensures
        is_episode_details_request(r, episode_id),
{
    let names = vec!["file"];
    let properties = Json::text_list(&names);
    assert(names@.map_values(|t: &str| t@) =~= seq!["file"@]);
    let params = Json::object(
        vec![entry("episodeid", Json::UInt(episode_id)), entry("properties", properties)],
    );
    assert(params.keys() =~= seq!["episodeid"@, "properties"@]);
    request("VideoLibrary.GetEpisodeDetails", params)
}

/// The request that opens the file `file` on the player.
pub fn play_request(file: &String) -> (r: Json)
    ensures
        is_play_request(r, file@),
{
    let item = Json::object(vec![(file_key(), Json::Str(file.clone()))]);
    assert(item.keys() =~= seq!["file"@]);
    let params = Json::object(vec![entry("item", item)]);
    assert(params.keys() =~= seq!["item"@]);
    request("Player.Open", params)
}

fn file_key() -> (r: String)
    ensures
        r@ == "file"@,
{
    String::from_str("file")
}

/// The request that stops the video player.
pub fn stop_request() -> (r: Json)
    ensures
        is_stop_request(r),
{
    let params = Json::object(vec![entry("playerid", Json::UInt(1))]);
    assert(params.keys() =~= seq!["playerid"@]);
    request("Player.Stop", params)
}

/// The request that lists the active players.
pub fn active_players_request() -> (r: Json)
    ensures
        is_active_players_request(r),
{
    bare_request("Player.GetActivePlayers")
}

/// How one exchange with the player failed.
#[derive(PartialEq, Eq, Structural, Clone, Copy, Debug)]
pub enum RpcError {
    /// The network exchange itself failed or timed out.
    TransportError,
    /// The player answered with a status outside the success range.
    ProtocolError(u16),
    /// The body of the answer is not JSON.
    DecodeError,
}

/// What came back from one POST to the player: nothing, or a status and the
/// body decoded as JSON (`None` where it is not JSON).
#[derive(Debug)]
pub enum Exchange {
    Failed,
    Answered { status: u16, body: Option<Json> },
}

/// Whether an HTTP status is in the success range.
pub open spec fn is_success_status(status: u16) -> bool {
    200 <= status <= 299
}

/// The outcome of an exchange: its JSON body, or the failure that
/// explains why there is none.
pub fn settle(exchange: Exchange) -> (r: Result<Json, RpcError>)
    ensures
        match exchange {
            Exchange::Failed => r == Err::<Json, RpcError>(RpcError::TransportError),
            Exchange::Answered { status, body } => if !is_success_status(status) {
                r == Err::<Json, RpcError>(RpcError::ProtocolError(status))
            } else {
                match body {
                    Some(b) => r == Ok::<Json, RpcError>(b),
                    None => r == Err::<Json, RpcError>(RpcError::DecodeError),
                }
            },
        },
{
    match exchange {
        Exchange::Failed => Err(RpcError::TransportError),
        Exchange::Answered { status, body } => {
            if status < 200 || status > 299 {
                Err(RpcError::ProtocolError(status))
            } else {
                match body {
                    Some(b) => Ok(b),
                    None => Err(RpcError::DecodeError),
                }
            }
        },
    }
}

/// Whether the answer to an active-players request names at least one
/// player; an answer without such a list names none.
pub open spec fn names_active_player(reply: Json) -> bool {
    reply.member("result"@) matches Some(Json::Array(players)) && players@.len() > 0
}

/// Whether something is playing, from the answer to
/// `active_players_request`.
pub fn players_active(reply: &Json) -> (r: bool)
    ensures
        r == names_active_player(*reply),
{
    match reply.get(&String::from_str("result")) {
        Some(result) => match result.as_array() {
            Some(players) => players.len() > 0,
            None => false,
        },
        None => false,
    }
}

/// A client of the player: its configuration and the authorization
/// derived from it.
pub struct RpcClient {
    pub config: Config,
    pub auth: Authorization,
}

impl RpcClient {
    pub fn new(config: Config) -> (r: RpcClient)
        ensures
            r.config == config,
            r.auth@ == basic_auth_value(config.username@, config.password@),
    {
        let auth = Authorization::new(config.username.as_str(), config.password.as_str());
        RpcClient { auth, config }
    }

    /// The address every request is posted to.
    pub fn endpoint(&self) -> (r: String)
        ensures
            r@ == self.config.url@ + "/jsonrpc"@,
    {
        let mut url = self.config.url.clone();
        url.append("/jsonrpc");
        url
    }
}

} // verus!
