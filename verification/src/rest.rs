//! Subsonic REST URLs: the query that authenticates a request, and the
//! client that asks the server for a song's stream URL.

use vstd::prelude::*;
use vstd::string::*;

verus! {

/// API version sent with every Subsonic request.
pub const API_VERSION: &'static str = "1.16.1";

/// Client name sent with every Subsonic request.
pub const CLIENT_NAME: &'static str = "ferrosonic";

/// The URL that `url` makes of `base` when it parses it and appends the
/// form-encoded `pairs` to its query, in order; `None` where `base` does not
/// parse. (The parser and the serializer take pages to state.)
pub uninterp spec fn spec_url_with_query(
    base: Seq<char>,
    pairs: Seq<(Seq<char>, Seq<char>)>,
) -> Option<Seq<char>>;

/// The characters of each name and value of a list of query pairs.
pub open spec fn pairs_view(pairs: Seq<(String, String)>) -> Seq<(Seq<char>, Seq<char>)> {
    pairs.map_values(|p: (String, String)| (p.0@, p.1@))
}

/// The characters of an optional string.
pub open spec fn opt_view(s: Option<String>) -> Option<Seq<char>> {
    match s {
        Some(t) => Some(t@),
        None => None,
    }
}

/// Parses `base` with `url::Url::parse`, appends `pairs` to its query with
/// `form_urlencoded::Serializer::extend_pairs` (the same as one `append_pair`
/// per pair) and serializes the result with `to_string`. The contract names
/// the result as a function of the two arguments and says nothing more of it.
#[verifier::external_body]
fn url_with_query(base: &str, pairs: &Vec<(String, String)>) -> (r: Option<String>)
    ensures
        opt_view(r) == spec_url_with_query(base@, pairs_view(pairs@)),
{
    let mut url = url::Url::parse(base).ok()?;
    url.query_pairs_mut().extend_pairs(pairs.iter());
    Some(url.to_string())
}

/// Salt and token that authenticate one request (token = md5(password + salt)).
#[derive(Debug, Clone)]
pub struct AuthParams {
    pub salt: String,
    pub token: String,
}

/// The authenticating query of a request for the item `id`, in the order in
/// which it is sent.
pub open spec fn auth_query(
    id: Seq<char>,
    username: Seq<char>,
    token: Seq<char>,
    salt: Seq<char>,
) -> Seq<(Seq<char>, Seq<char>)> {
    seq![
        ("id"@, id),
        ("u"@, username),
        ("t"@, token),
        ("s"@, salt),
        ("v"@, API_VERSION@),
        ("c"@, CLIENT_NAME@),
    ]
}

fn pair(name: &str, value: &str) -> (p: (String, String))
    ensures
        p.0@ == name@,
        p.1@ == value@,
{
    (String::from_str(name), String::from_str(value))
}

/// The URL of `endpoint` on the server at `base_url` asking for the item `id`,
/// authenticated as `username` with `auth`.
pub open spec fn spec_rest_url(
    base_url: Seq<char>,
    endpoint: Seq<char>,
    id: Seq<char>,
    username: Seq<char>,
    auth: AuthParams,
) -> Option<Seq<char>> {
    spec_url_with_query(
        base_url + "/rest/"@ + endpoint,
        auth_query(id, username, auth.token@, auth.salt@),
    )
}

/// Builds the URL of `endpoint` on the server at `base_url` asking for the
/// item `id`, authenticated as `username` with `auth`.
pub fn rest_url(
    base_url: &str,
    endpoint: &str,
    id: &str,
    username: &str,
    auth: &AuthParams,
) -> (r: Option<String>)
    ensures
        opt_view(r) == spec_rest_url(base_url@, endpoint@, id@, username@, *auth),
{
    let mut base = String::from_str(base_url);
    base.append("/rest/");
    base.append(endpoint);
    let mut pairs: Vec<(String, String)> = Vec::new();
    pairs.push(pair("id", id));
    pairs.push(pair("u", username));
    pairs.push(pair("t", auth.token.as_str()));
    pairs.push(pair("s", auth.salt.as_str()));
    pairs.push(pair("v", API_VERSION));
    pairs.push(pair("c", CLIENT_NAME));
    assert(pairs_view(pairs@) =~= auth_query(id@, username@, auth.token@, auth.salt@));
    url_with_query(base.as_str(), &pairs)
}

/// Why the client could not make a request.
#[derive(Debug, Clone, Copy, PartialEq, Eq, Structural)]
pub enum ClientError {
    /// The server address does not parse as a URL.
    InvalidUrl,
}

/// The part of the Subsonic client that builds stream URLs.
#[derive(Debug, Clone)]
pub struct SubsonicClient {
    pub base_url: String,
    pub username: String,
    pub auth: AuthParams,
}

impl SubsonicClient {
    /// The stream URL of the song `id`, or `None` where the server address
    /// does not parse.
    pub open spec fn spec_stream_url(&self, id: Seq<char>) -> Option<Seq<char>> {
        spec_rest_url(self.base_url@, "stream"@, id, self.username@, self.auth)
    }

    /// Creates a client for the server at `base_url`.
    pub fn new(base_url: &str, username: &str, auth: AuthParams) -> (c: Self)
        ensures
            c.base_url@ == base_url@,
            c.username@ == username@,
            c.auth == auth,
    {
        SubsonicClient {
            base_url: String::from_str(base_url),
            username: String::from_str(username),
            auth,
        }
    }

    /// The URL from which the song `id` is streamed.
    pub fn get_stream_url(&self, id: &str) -> (r: Result<String, ClientError>)
        ensures
            match r {
                Ok(url) => self.spec_stream_url(id@) == Some(url@),
                Err(e) => self.spec_stream_url(id@) is None && e == ClientError::InvalidUrl,
            },
    {
        match rest_url(self.base_url.as_str(), "stream", id, self.username.as_str(), &self.auth) {
            Some(url) => Ok(url),
            None => Err(ClientError::InvalidUrl),
        }
    }
}

} // verus!
