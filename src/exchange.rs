//! Exchange of an authorization code for an access token: the form that is
//! posted to the token endpoint, and the reading of its answer.
use vstd::prelude::*;
use crate::listener::REDIRECT_URI;

verus! {

pub const TOKEN_ENDPOINT: &'static str = "https://github.com/login/oauth/access_token";

/// What went wrong while exchanging a code.
#[derive(Clone, Debug, PartialEq, Eq)]
pub enum ExchangeError {
    /// The request did not get through (no network, DNS, TLS).
    Network(String),
    /// The endpoint answered with a status outside 200..=299.
    Http { status: u16, body: String },
    /// A success body that does not hold the token fields; the raw body.
    MalformedResponse(String),
}

/// Whether an HTTP status is a success (2xx).
pub open spec fn is_success(status: u16) -> bool {
    200 <= status && status <= 299
}

pub fn is_success_status(status: u16) -> (r: bool)
    ensures
        r == is_success(status),
{
    200 <= status && status <= 299
}

/// The string stored under `key` in the JSON object that `body` holds, as
/// serde_json reads it; `None` where the body is no JSON object, or the key
/// is absent or not a string.
pub uninterp spec fn json_string_at(body: Seq<char>, key: Seq<char>) -> Option<Seq<char>>;

/// Relies on `serde_json::from_str` (into a `Value`), `Value::get`, which
/// looks a key up in an object and gives `None` for other values, and
/// `Value::as_str`, which gives the text of a JSON string and `None` otherwise.
#[verifier::external_body]
pub(crate) fn json_string_field(body: &str, key: &str) -> (r: Option<String>)
    ensures
        r is Some <==> json_string_at(body@, key@) is Some,
        r is Some ==> r->Some_0@ == json_string_at(body@, key@)->Some_0,
{
    serde_json::from_str::<serde_json::Value>(body).ok().and_then(
        |v| v.get(key).and_then(|x| x.as_str()).map(|s| s.to_string()),
    )
}

/// The three fields a token endpoint's success body must carry.
#[derive(Clone, Debug, PartialEq, Eq)]
pub struct TokenResponse {
    pub access_token: String,
    pub token_type: String,
    pub scope: String,
}

/// The token fields of a success body, if all three are there as strings.
pub open spec fn token_fields(body: Seq<char>) -> Option<(Seq<char>, Seq<char>, Seq<char>)> {
    match (
        json_string_at(body, "access_token"@),
        json_string_at(body, "token_type"@),
        json_string_at(body, "scope"@),
    ) {
        (Some(a), Some(t), Some(s)) => Some((a, t, s)),
        _ => None,
    }
}

/// Reads the token fields out of a success body.
pub fn parse_token_response(body: &str) -> (r: Option<TokenResponse>)
    ensures
        r is Some <==> token_fields(body@) is Some,
        r matches Some(t) ==> token_fields(body@) == Some((t.access_token@, t.token_type@, t.scope@)),
{
    let access_token = json_string_field(body, "access_token");
    let token_type = json_string_field(body, "token_type");
    let scope = json_string_field(body, "scope");
    match (access_token, token_type, scope) {
        (Some(access_token), Some(token_type), Some(scope)) => Some(
            TokenResponse { access_token, token_type, scope },
        ),
        _ => None,
    }
}

/// The outcome of an exchange, given the endpoint's status and body and the
/// token fields read from that body.
pub open spec fn exchange_outcome(
    status: u16,
    body: Seq<char>,
    fields: Option<(Seq<char>, Seq<char>, Seq<char>)>,
) -> Result<Seq<char>, ExchangeErrorModel> {
    if !is_success(status) {
        Err(ExchangeErrorModel::Http { status, body })
    } else {
        match fields {
            Some((a, _, _)) => Ok(a),
            None => Err(ExchangeErrorModel::MalformedResponse(body)),
        }
    }
}

pub enum ExchangeErrorModel {
    Network(Seq<char>),
    Http { status: u16, body: Seq<char> },
    MalformedResponse(Seq<char>),
}

impl View for ExchangeError {
    type V = ExchangeErrorModel;

    open spec fn view(&self) -> ExchangeErrorModel {
        match self {
            ExchangeError::Network(m) => ExchangeErrorModel::Network(m@),
            ExchangeError::Http { status, body } => ExchangeErrorModel::Http {
                status: *status,
                body: body@,
            },
            ExchangeError::MalformedResponse(b) => ExchangeErrorModel::MalformedResponse(b@),
        }
    }
}

pub open spec fn exchange_view(r: Result<String, ExchangeError>) -> Result<Seq<char>, ExchangeErrorModel> {
    match r {
        Ok(t) => Ok(t@),
        Err(e) => Err(e@),
    }
}

/// Decides the exchange from the status, the body and the fields read from it.
pub fn token_from_response(status: u16, body: String, fields: Option<TokenResponse>) -> (r: Result<
    String,
    ExchangeError,
>)
    ensures
        exchange_view(r) == exchange_outcome(
            status,
            body@,
            match fields {
                Some(t) => Some((t.access_token@, t.token_type@, t.scope@)),
                None => None,
            },
        ),
{
    if !is_success_status(status) {
        return Err(ExchangeError::Http { status, body });
    }
    match fields {
        Some(t) => Ok(t.access_token),
        None => Err(ExchangeError::MalformedResponse(body)),
    }
}

/// Reads the token endpoint's answer: the access token verbatim, or why not.
pub fn interpret_token_response(status: u16, body: String) -> (r: Result<String, ExchangeError>)
    ensures
        exchange_view(r) == exchange_outcome(status, body@, token_fields(body@)),
{
    if !is_success_status(status) {
        return token_from_response(status, body, None);
    }
    let fields = parse_token_response(body.as_str());
    token_from_response(status, body, fields)
}

/// The form posted to the token endpoint, in this order: `client_id`,
/// `client_secret`, `code`, `redirect_uri`.
pub fn token_request_form(client_id: &str, client_secret: &str, code: &str) -> (r: Vec<
    (String, String),
>)
    ensures
        r@.len() == 4,
        r@[0].0@ == "client_id"@ && r@[0].1@ == client_id@,
        r@[1].0@ == "client_secret"@ && r@[1].1@ == client_secret@,
        r@[2].0@ == "code"@ && r@[2].1@ == code@,
        r@[3].0@ == "redirect_uri"@ && r@[3].1@ == REDIRECT_URI@,
{
    let mut form: Vec<(String, String)> = Vec::new();
    form.push((String::from_str("client_id"), String::from_str(client_id)));
    form.push((String::from_str("client_secret"), String::from_str(client_secret)));
    form.push((String::from_str("code"), String::from_str(code)));
    form.push((String::from_str("redirect_uri"), String::from_str(REDIRECT_URI)));
    form
}

} // verus!
