//! The connector to the service: request URLs and the reading of replies.

use vstd::prelude::*;

use crate::json::{json_accepts, json_string_object, pair_texts, parse_json, string_members};
use crate::request::{path_of, Endpoint, EndpointArgs};

verus! {

/// reqwest's transport error, carried as the cause of a request failure.
#[verifier::external_type_specification]
#[verifier::external_body]
pub struct ExRequestError(reqwest::Error);

/// The ways in which a request can fail.
#[derive(Debug)]
pub enum GuruFocusError {
    /// The request could not be sent, or no response came back.
    RequestFailure(reqwest::Error),
    /// The server answered with a status other than success, and with the
    /// message under the `error` key of its reply, where it gave one.
    ServerError { status: u16, message: Option<String> },
    /// The reply of a successful request is not a JSON document.
    DecodeError(serde_json::Error),
}

/// The text of an optional string.
pub open spec fn opt_text(o: Option<String>) -> Option<Seq<char>> {
    match o {
        Some(s) => Some(s@),
        None => None,
    }
}

/// The value of the first member named `key`.
pub open spec fn member_text(members: Seq<(Seq<char>, Seq<char>)>, key: Seq<char>) -> Option<
    Seq<char>,
>
    decreases members.len(),
{
    if members.len() == 0 {
        None
    } else if members[0].0 == key {
        Some(members[0].1)
    } else {
        member_text(members.drop_first(), key)
    }
}

/// The message that an error reply carries under the key `error`.
pub open spec fn error_message(members: Option<Seq<(Seq<char>, Seq<char>)>>) -> Option<Seq<char>> {
    match members {
        Some(m) => member_text(m, "error"@),
        None => None,
    }
}

/// An HTTP status that reports success.
pub open spec fn is_success(status: u16) -> bool {
    200 <= status <= 299
}

/// The texts of an optional list of string pairs.
pub open spec fn opt_pair_texts(o: Option<Vec<(String, String)>>) -> Option<
    Seq<(Seq<char>, Seq<char>)>,
> {
    match o {
        Some(v) => Some(pair_texts(v@)),
        None => None,
    }
}

/// The server error for a reply with the given status, whose body had the
/// given string members (`None` when it was no such object).
pub fn server_error(status: u16, members: Option<Vec<(String, String)>>) -> (r: GuruFocusError)
    ensures
        r matches GuruFocusError::ServerError { status: s, message: m } && s == status
            && opt_text(m) == error_message(opt_pair_texts(members)),
{
    match members {
        None => GuruFocusError::ServerError { status, message: None },
        Some(v) => {
            proof {
                reveal_strlit("error");
            }
            let key = String::from_str("error");
            let mut i: usize = 0;
            assert(pair_texts(v@).skip(0) =~= pair_texts(v@));
            while i < v.len()
                invariant
                    i <= v@.len(),
                    key@ == "error"@,
                    members == Some(v),
                    member_text(pair_texts(v@), key@) == member_text(
                        pair_texts(v@).skip(i as int),
                        key@,
                    ),
                decreases v@.len() - i,
            {
                let ghost rest = pair_texts(v@).skip(i as int);
                assert(pair_texts(v@)[i as int] == (v@[i as int].0@, v@[i as int].1@));
                assert(rest[0] == pair_texts(v@)[i as int]);
                if v[i].0.eq(&key) {
                    let message = v[i].1.clone();
                    assert(member_text(rest, key@) == Some(message@));
                    return GuruFocusError::ServerError { status, message: Some(message) };
                }
                assert(rest.drop_first() =~= pair_texts(v@).skip(i + 1));
                i = i + 1;
            }
            GuruFocusError::ServerError { status, message: None }
        },
    }
}

/// Interprets a reply of the server: on a success status, the body as a JSON
/// document, or a decode error; on any other status, a server error with
/// that status and the message that the body carries under `error`.
pub fn decode_response(status: u16, body: &str) -> (r: Result<serde_json::Value, GuruFocusError>)
    ensures
        is_success(status) ==> (r is Ok <==> json_accepts(body@)),
        is_success(status) && r is Err ==> r matches Err(GuruFocusError::DecodeError(_)),
        !is_success(status) ==> (r matches Err(GuruFocusError::ServerError { status: s, message: m })
            && s == status && opt_text(m) == error_message(json_string_object(body@))),
{
    if 200 <= status && status <= 299 {
        match parse_json(body) {
            Ok(v) => Ok(v),
            Err(e) => Err(GuruFocusError::DecodeError(e)),
        }
    } else {
        let members = string_members(body);
        Err(server_error(status, members))
    }
}

/// The address of the service, under which each user has a path.
pub open spec fn base_url() -> Seq<char> {
    "https://api.gurufocus.com/public/user/"@
}

/// Container for the connection parameters to the service: its address and
/// the user's access token.
#[derive(Debug)]
pub struct GuruFocusConnector {
    url: &'static str,
    user_token: String,
}

impl GuruFocusConnector {
    /// The address of the service.
    pub closed spec fn url(&self) -> Seq<char> {
        self.url@
    }

    /// The user's access token.
    pub closed spec fn token(&self) -> Seq<char> {
        self.user_token@
    }

    /// The full URL of a request with the given arguments.
    pub open spec fn url_for(&self, e: EndpointArgs) -> Seq<char> {
        self.url() + self.token() + "/"@ + path_of(e)
    }

    /// A connector for the user with the given access token (the token one
    /// gets with a premium subscription).
    pub fn new(token: String) -> (r: GuruFocusConnector)
        ensures
            r.url() == base_url(),
            r.token() == token@,
    {
        GuruFocusConnector { url: "https://api.gurufocus.com/public/user/", user_token: token }
    }

    /// The full URL of a request: the service's address, the token, and the
    /// endpoint's path.
    pub fn request_url(&self, endpoint: &Endpoint) -> (r: String)
        ensures
            r@ == self.url_for(endpoint@),
    {
        let mut r = String::from_str(self.url);
        r.append(self.user_token.as_str());
        r.append("/");
        let path = endpoint.path();
        r.append(path.as_str());
        r
    }
}

/// A request's URL is a function of its arguments: for the same connector
/// and the same arguments it is the same, whatever was asked before or at
/// the same time, and the relative path does not depend on the connector.
pub proof fn lemma_request_deterministic(
    c: GuruFocusConnector,
    d: GuruFocusConnector,
    a: Endpoint,
    b: Endpoint,
)
    requires
        a@ == b@,
    ensures
        path_of(a@) == path_of(b@),
        c.url_for(a@) == c.url_for(b@),
        c.url() == d.url() && c.token() == d.token() ==> c.url_for(a@) == d.url_for(b@),
{
}

} // verus!
