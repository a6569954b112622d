//! The client's side of a call: what to send for an operation, and what to
//! make of the answer.

use crate::endpoint::{pairs_view, params_view, Endpoint, Method, Params, Payload};
use crate::error::DecodeError;
use crate::response::Response;
use crate::VER;
use vstd::prelude::*;

verus! {

/// Where the service lives.
pub const TELRAAM_NET: &'static str = "https://telraam-api.net";

/// The name of the header that carries the API token.
pub const API_KEY_HEADER: &'static str = "X-Api-Key";

/// The only media type that goes out and comes in.
pub const JSON_MEDIA_TYPE: &'static str = "application/json";

/// Whether a header value may hold the character: anything but a control
/// character, where the tabulator counts as none.
pub open spec fn is_header_char(c: char) -> bool {
    (c >= ' ' && c != '\u{7f}') || c == '\t'
}

/// Whether a text can be the value of a header.
pub open spec fn is_header_value(text: Seq<char>) -> bool {
    forall|i: int| 0 <= i < text.len() ==> is_header_char(#[trigger] text[i])
}

/// What `serde_json` writes for the object that holds the given texts under
/// the given names.
pub uninterp spec fn json_object_text(fields: Seq<(Seq<char>, Seq<char>)>) -> Seq<char>;

/// Calls `HeaderValue::from_str` and reports whether it accepted the text.
/// Trusted: it accepts a text exactly if each of its characters is a tabulator
/// or no control character.
#[verifier::external_body]
fn header_value_accepts(text: &str) -> (ok: bool)
    ensures
        ok == is_header_value(text@),
{
    reqwest::header::HeaderValue::from_str(text).is_ok()
}

/// Builds a `serde_json::Map` of the given texts and renders it with
/// `serde_json`. Trusted: the result is `json_object_text` of the entries.
#[verifier::external_body]
fn render_object(fields: &Vec<(String, String)>) -> (text: String)
    ensures
        text@ == json_object_text(pairs_view(fields@)),
{
    let mut map = serde_json::Map::new();
    for (name, value) in fields {
        map.insert(name.clone(), serde_json::Value::String(value.clone()));
    }
    serde_json::Value::Object(map).to_string()
}

/// The API token is no header value.
#[derive(Clone, Copy, Debug, PartialEq, Eq, Structural)]
pub struct InvalidToken;

/// One header of a request. It has no `Debug`, so that a sensitive value is
/// not printed by accident.
pub struct Header {
    /// The name of the header.
    pub name: &'static str,
    /// Its value.
    pub value: String,
    /// Whether the value must not be logged or shown.
    pub sensitive: bool,
}

/// What goes over the wire for one call, headers aside.
#[derive(Debug)]
pub struct Request {
    /// `GET` or `POST`.
    pub method: Method,
    /// The address that the request goes to.
    pub url: String,
    /// The query parameters.
    pub query: Params,
    /// The body, where the call has one.
    pub body: Option<String>,
}

/// The address of an operation: the service, the version, the path of the
/// operation and, where the call has one, its own last segment.
pub open spec fn spec_url(path: Seq<char>, path_params: Option<Seq<char>>) -> Seq<char> {
    let base = TELRAAM_NET@ + "/"@ + VER@ + "/"@ + path;
    match path_params {
        Some(segment) => base + "/"@ + segment,
        None => base,
    }
}

/// The body of a call: the payload written as a JSON object, where the call
/// has a payload.
pub open spec fn spec_body<P: Payload>(payload: Option<P>) -> Option<Seq<char>> {
    match payload {
        Some(p) => Some(json_object_text(p.spec_fields())),
        None => None,
    }
}

/// Writes a payload down as the JSON object that goes out as a body.
pub fn render<P: Payload>(payload: &P) -> (text: String)
    requires
        payload.ready(),
    ensures
        text@ == json_object_text(payload.spec_fields()),
{
    render_object(&payload.fields())
}

/// The address of an operation.
pub fn url(path: &str, path_params: Option<&str>) -> (r: String)
    ensures
        r@ == spec_url(path@, match path_params {
            Some(segment) => Some(segment@),
            None => None,
        }),
{
    let mut r = TELRAAM_NET.to_owned();
    r.append("/");
    r.append(VER);
    r.append("/");
    r.append(path);
    if let Some(segment) = path_params {
        r.append("/");
        r.append(segment);
    }
    r
}

/// A client of the Telraam API: it holds the API token, says what has to be
/// sent for a call, and reads what came back. It has no `Debug`, so that the
/// token is not printed by accident.
pub struct TelraamClient {
    api_token: String,
}

impl TelraamClient {
    /// The API token of the client.
    pub closed spec fn spec_token(&self) -> Seq<char> {
        self.api_token@
    }

    #[verifier::type_invariant]
    spec fn inv(&self) -> bool {
        is_header_value(self.api_token@)
    }

    /// Constructs a new client with the API token of this connection. Fails
    /// where the token cannot be sent as the value of a header.
    pub fn new(api_token: &str) -> (r: Result<TelraamClient, InvalidToken>)
        ensures
            is_header_value(api_token@) ==> r is Ok && r->Ok_0.spec_token() == api_token@,
            !is_header_value(api_token@) ==> r is Err,
    {
        if header_value_accepts(api_token) {
            Ok(TelraamClient { api_token: api_token.to_owned() })
        } else {
            Err(InvalidToken)
        }
    }

    /// The headers that go out with every request of this client: JSON is
    /// accepted, JSON is sent, and the API token, which is marked sensitive.
    pub fn headers(&self) -> (r: Vec<Header>)
        ensures
            r@.len() == 3,
            r@[0].name@ == "accept"@ && r@[0].value@ == JSON_MEDIA_TYPE@ && !r@[0].sensitive,
            r@[1].name@ == "content-type"@ && r@[1].value@ == JSON_MEDIA_TYPE@
                && !r@[1].sensitive,
            r@[2].name@ == API_KEY_HEADER@ && r@[2].value@ == self.spec_token()
                && r@[2].sensitive,
            forall|i: int| 0 <= i < 3 ==> is_header_value(#[trigger] r@[i].value@),
    {
        proof {
            use_type_invariant(self);
            lemma_media_type_is_header_value();
        }
        let mut r: Vec<Header> = Vec::new();
        r.push(Header { name: "accept", value: JSON_MEDIA_TYPE.to_owned(), sensitive: false });
        r.push(
            Header { name: "content-type", value: JSON_MEDIA_TYPE.to_owned(), sensitive: false },
        );
        r.push(Header { name: API_KEY_HEADER, value: self.api_token.clone(), sensitive: true });
        r
    }

    /// What has to go over the wire for a call of `endpoint`.
    pub fn request<E: Endpoint>(&self, endpoint: &E) -> (r: Request)
        ensures
            r.method == E::spec_method(),
            r.url@ == spec_url(E::spec_path(), endpoint.spec_path_params()),
            params_view(r.query@) == endpoint.spec_params(),
            match r.body {
                Some(body) => spec_body(endpoint.spec_payload()) == Some(body@),
                None => spec_body(endpoint.spec_payload()) is None,
            },
    {
        let body = match endpoint.payload() {
            Some(payload) => Some(render(payload)),
            None => None,
        };
        Request {
            method: E::method(),
            url: url(E::path(), endpoint.path_params()),
            query: endpoint.params(),
            body,
        }
    }

    /// What the body that came back for a call of `endpoint` holds. The
    /// status is not looked at: that waits until the payload is asked for.
    pub fn receive<E: Endpoint>(&self, endpoint: &E, body: &str) -> (r: Result<
        E::Response,
        DecodeError,
    >)
        ensures
            E::Response::decoded(body@, r),
    {
        E::Response::decode(body)
    }
}

/// The media type is a header value.
pub proof fn lemma_media_type_is_header_value()
    ensures
        is_header_value(JSON_MEDIA_TYPE@),
{
    reveal_strlit("application/json");
    assert(JSON_MEDIA_TYPE@.len() == 16);
    assert forall|i: int| 0 <= i < JSON_MEDIA_TYPE@.len() implies is_header_char(
        #[trigger] JSON_MEDIA_TYPE@[i],
    ) by {
        if i < 8 {
        } else {
        }
    }
}

} // verus!
