//! The REST client's rules: hosts, request signing, request preparation and
//! the interpretation of responses.

use base64::Engine;
use hmac::Mac;
use vstd::prelude::*;
use vstd::string::StringSliceAdditionalSpecFns;

use crate::error::{Error, SystemCode, SystemError};
use crate::time::{time_text, Time};

verus! {

/// An API family, identified by its host.
pub trait Api {
    spec fn host_spec() -> Seq<char>;

    fn host() -> (h: &'static str)
        ensures
            h@ == Self::host_spec(),
    ;
}

/// The futures API.
pub struct FApi;

impl Api for FApi {
    open spec fn host_spec() -> Seq<char> {
        "https://api-futures.kucoin.com"@
    }

    fn host() -> (h: &'static str) {
        "https://api-futures.kucoin.com"
    }
}

/// The spot API.
pub struct SApi;

impl Api for SApi {
    open spec fn host_spec() -> Seq<char> {
        "https://api.kucoin.com"@
    }

    fn host() -> (h: &'static str) {
        "https://api.kucoin.com"
    }
}

/// HMAC-SHA256 of `message` under `key`.
pub uninterp spec fn hmac_sha256_mac(key: Seq<u8>, message: Seq<u8>) -> Seq<u8>;

/// The character of the standard Base64 alphabet for `v < 64`:
/// `A`-`Z`, `a`-`z`, `0`-`9`, `+`, `/`.
pub open spec fn base64_char(v: int) -> char {
    if v < 26 {
        ((65 + v) as u32) as char
    } else if v < 52 {
        ((71 + v) as u32) as char
    } else if v < 62 {
        ((v - 4) as u32) as char
    } else if v == 62 {
        '+'
    } else {
        '/'
    }
}

/// The standard Base64 encoding of `bytes`: each group of three bytes as
/// four characters of six bits each, and a last group of one or two bytes
/// padded with `=` to four characters.
pub open spec fn base64_standard(bytes: Seq<u8>) -> Seq<char>
    decreases bytes.len(),
{
    if bytes.len() == 0 {
        seq![]
    } else if bytes.len() == 1 {
        let b0 = bytes[0] as int;
        seq![base64_char(b0 / 4), base64_char((b0 % 4) * 16), '=', '=']
    } else if bytes.len() == 2 {
        let b0 = bytes[0] as int;
        let b1 = bytes[1] as int;
        seq![base64_char(b0 / 4), base64_char((b0 % 4) * 16 + b1 / 16), base64_char((b1 % 16) * 4), '=']
    } else {
        let b0 = bytes[0] as int;
        let b1 = bytes[1] as int;
        let b2 = bytes[2] as int;
        seq![
            base64_char(b0 / 4),
            base64_char((b0 % 4) * 16 + b1 / 16),
            base64_char((b1 % 16) * 4 + b2 / 64),
            base64_char(b2 % 64),
        ] + base64_standard(bytes.skip(3))
    }
}

/// HMAC-SHA256 by the `hmac` and `sha2` crates
/// (`Hmac::<Sha256>::new_from_slice`, `update`, `finalize`).
///
/// The contract names the result and states its length, 32 bytes;
/// `new_from_slice` accepts keys of every length for HMAC.
#[verifier::external_body]
fn compute_hmac_sha256(key: &[u8], message: &[u8]) -> (mac: Vec<u8>)
    ensures
        mac@ == hmac_sha256_mac(key@, message@),
        mac@.len() == 32,
{
    let mut h = hmac::Hmac::<sha2::Sha256>::new_from_slice(key).expect("HMAC accepts keys of any length");
    h.update(message);
    h.finalize().into_bytes().to_vec()
}

/// Standard Base64 by the `base64` crate (`BASE64_STANDARD.encode`, the
/// standard alphabet with padding), as `base64_standard` states it;
/// `encode` panics when the length of the encoding, four characters for
/// every started group of three bytes, overflows `usize`, which `requires`
/// rules out.
#[verifier::external_body]
fn encode_base64(bytes: &[u8]) -> (s: String)
    requires
        (bytes@.len() + 2) / 3 * 4 <= usize::MAX,
    ensures
        s@ == base64_standard(bytes@),
{
    base64::engine::general_purpose::STANDARD.encode(bytes)
}

/// API credentials: key, passphrase and secret.
#[derive(Debug)]
pub struct Credentials {
    key: String,
    passphrase: String,
    secret: String,
}

/// The signature of `data` under `secret`: the Base64 encoding of its
/// HMAC-SHA256.
pub open spec fn signature(secret: Seq<u8>, data: Seq<u8>) -> Seq<char> {
    base64_standard(hmac_sha256_mac(secret, data))
}

/// The HTTP verbs the API uses.
#[derive(Clone, Copy, Debug, PartialEq, Eq, Structural)]
pub enum Method {
    Delete,
    Get,
    Patch,
    Post,
    Put,
}

impl Method {
    pub open spec fn name(self) -> Seq<char> {
        match self {
            Method::Delete => "DELETE"@,
            Method::Get => "GET"@,
            Method::Patch => "PATCH"@,
            Method::Post => "POST"@,
            Method::Put => "PUT"@,
        }
    }

    /// The upper-case name of the verb.
    pub fn as_str(&self) -> (s: &'static str)
        ensures
            s@ == self.name(),
    {
        match self {
            Method::Delete => "DELETE",
            Method::Get => "GET",
            Method::Patch => "PATCH",
            Method::Post => "POST",
            Method::Put => "PUT",
        }
    }

    /// Whether the request data travels as the URL query (DELETE, GET)
    /// rather than as a JSON body.
    pub fn data_in_query(&self) -> (b: bool)
        ensures
            b == (*self == Method::Delete || *self == Method::Get),
    {
        match self {
            Method::Delete | Method::Get => true,
            _ => false,
        }
    }
}

/// A header of a request: name and value.
pub type Header = (String, String);

/// The names and values of the headers a credentialed request carries.
pub open spec fn auth_header_spec(key: Seq<char>, sign: Seq<char>, timestamp: Seq<char>, passphrase_sign: Seq<char>) -> Seq<(Seq<char>, Seq<char>)> {
    seq![
        ("KC-API-KEY"@, key),
        ("KC-API-SIGN"@, sign),
        ("KC-API-TIMESTAMP"@, timestamp),
        ("KC-API-PASSPHRASE"@, passphrase_sign),
        ("KC-API-KEY-VERSION"@, "2"@),
    ]
}

pub open spec fn header_views(h: Seq<Header>) -> Seq<(Seq<char>, Seq<char>)> {
    h.map_values(|e: Header| (e.0@, e.1@))
}

impl Clone for Credentials {
    fn clone(&self) -> (c: Credentials)
        ensures
            c == *self,
    {
        Credentials {
            key: self.key.clone(),
            passphrase: self.passphrase.clone(),
            secret: self.secret.clone(),
        }
    }
}

impl Credentials {
    pub closed spec fn key_spec(self) -> Seq<char> {
        self.key@
    }

    pub closed spec fn passphrase_spec(self) -> Seq<char> {
        self.passphrase@
    }

    /// The bytes of the secret (UTF-8).
    pub closed spec fn secret_bytes(self) -> Seq<u8> {
        vstd::utf8::encode_utf8(self.secret@)
    }

    pub fn new(key: &str, passphrase: &str, secret: &str) -> (c: Credentials)
        ensures
            c.key_spec() == key@,
            c.passphrase_spec() == passphrase@,
            c.secret_bytes() == secret.spec_bytes(),
    {
        let c = Credentials {
            key: String::from_str(key),
            passphrase: String::from_str(passphrase),
            secret: String::from_str(secret),
        };
        c
    }

    pub fn key(&self) -> (k: &str)
        ensures
            k@ == self.key_spec(),
    {
        self.key.as_str()
    }

    pub fn passphrase(&self) -> (p: &str)
        ensures
            p@ == self.passphrase_spec(),
    {
        self.passphrase.as_str()
    }

    /// The signature of `data`: Base64 of its HMAC-SHA256 under the secret.
    pub fn sign(&self, data: &str) -> (s: String)
        ensures
            s@ == signature(self.secret_bytes(), data.spec_bytes()),
    {
        let mac = compute_hmac_sha256(self.secret.as_str().as_bytes(), data.as_bytes());
        encode_base64(mac.as_slice())
    }

    /// The headers of a credentialed request made at `timestamp`, whose
    /// text to sign is `prehash`: the key, the signature of `prehash`, the
    /// timestamp, the signed passphrase and the key version `2`.
    pub fn auth_headers(&self, timestamp: &str, prehash: &str) -> (h: Vec<Header>)
        ensures
            header_views(h@) == auth_header_spec(
                self.key_spec(),
                signature(self.secret_bytes(), prehash.spec_bytes()),
                timestamp@,
                signature(self.secret_bytes(), vstd::utf8::encode_utf8(self.passphrase_spec())),
            ),
    {
        let mut h: Vec<Header> = Vec::new();
        h.push((String::from_str("KC-API-KEY"), self.key.clone()));
        h.push((String::from_str("KC-API-SIGN"), self.sign(prehash)));
        h.push((String::from_str("KC-API-TIMESTAMP"), String::from_str(timestamp)));
        h.push((String::from_str("KC-API-PASSPHRASE"), self.sign(self.passphrase.as_str())));
        h.push((String::from_str("KC-API-KEY-VERSION"), String::from_str("2")));
        assert(header_views(h@) =~= auth_header_spec(
            self.key_spec(),
            signature(self.secret_bytes(), prehash.spec_bytes()),
            timestamp@,
            signature(self.secret_bytes(), vstd::utf8::encode_utf8(self.passphrase_spec())),
        ));
        h
    }
}


/// The endpoint a request goes to: the path, followed for the verbs that
/// carry their data in the query by `?` and the query, when it is not empty.
pub open spec fn endpoint_spec(method: Method, path: Seq<char>, data: Seq<char>) -> Seq<char> {
    if (method == Method::Delete || method == Method::Get) && data.len() > 0 {
        path + "?"@ + data
    } else {
        path
    }
}

/// The text a credentialed request signs: the timestamp, the verb, the
/// endpoint and, for the verbs with a JSON body, the body.
pub open spec fn prehash_spec(timestamp: Seq<char>, method: Method, path: Seq<char>, data: Seq<char>) -> Seq<char> {
    if method == Method::Delete || method == Method::Get {
        timestamp + method.name() + endpoint_spec(method, path, data)
    } else {
        timestamp + method.name() + path + data
    }
}

/// The headers a request carries: the authentication headers when there
/// are credentials, then, for the verbs with a JSON body, the content type.
pub open spec fn headers_spec(
    method: Method,
    path: Seq<char>,
    data: Seq<char>,
    creds: Option<Credentials>,
    timestamp: Seq<char>,
) -> Seq<(Seq<char>, Seq<char>)> {
    let auth = match creds {
        Some(c) => auth_header_spec(
            c.key_spec(),
            signature(c.secret_bytes(), vstd::utf8::encode_utf8(prehash_spec(timestamp, method, path, data))),
            timestamp,
            signature(c.secret_bytes(), vstd::utf8::encode_utf8(c.passphrase_spec())),
        ),
        None => Seq::empty(),
    };
    if method == Method::Delete || method == Method::Get {
        auth
    } else {
        auth.push(("Content-Type"@, "application/json"@))
    }
}

/// A request ready to be sent: verb, URL, headers and body.
#[derive(Debug)]
pub struct PreparedRequest {
    pub method: Method,
    pub url: String,
    pub headers: Vec<Header>,
    pub body: Option<String>,
}

impl PreparedRequest {
    /// Whether this is the request for `data` sent to `path` of `host` with
    /// `method`, under `creds`, at the instant whose rendering is
    /// `timestamp`.
    pub open spec fn is_request_for(
        self,
        host: Seq<char>,
        method: Method,
        path: Seq<char>,
        data: Seq<char>,
        creds: Option<Credentials>,
        timestamp: Seq<char>,
    ) -> bool {
        &&& self.method == method
        &&& self.url@ == host + endpoint_spec(method, path, data)
        &&& header_views(self.headers@) == headers_spec(method, path, data, creds, timestamp)
        &&& if method == Method::Delete || method == Method::Get {
            self.body is None
        } else {
            self.body is Some && self.body->0@ == data
        }
    }
}

/// The credentials behind an optional reference.
pub open spec fn owned(creds: Option<&Credentials>) -> Option<Credentials> {
    match creds {
        Some(c) => Some(*c),
        None => None,
    }
}

/// The data of a request is never lost: for DELETE and GET it follows the
/// path in the URL after `?` (the URL is host and path alone when there is
/// none, and there is no body); for the other verbs the URL is host and
/// path, and the data is the body.
pub proof fn lemma_request_carries_data(
    r: PreparedRequest,
    host: Seq<char>,
    method: Method,
    path: Seq<char>,
    data: Seq<char>,
    creds: Option<Credentials>,
    timestamp: Seq<char>,
)
    requires
        r.is_request_for(host, method, path, data, creds, timestamp),
    ensures
        (method == Method::Delete || method == Method::Get) && data.len() > 0 ==> r.url@ == host + path + seq!['?'] + data
            && r.body is None,
        (method == Method::Delete || method == Method::Get) && data.len() == 0 ==> r.url@ == host + path && r.body is None,
        !(method == Method::Delete || method == Method::Get) ==> r.url@ == host + path && r.body == Some(
            r.body->0,
        ) && r.body->0@ == data,
{
    reveal_strlit("?");
    assert("?"@ =~= seq!['?']);
    assert(host + (path + seq!['?'] + data) =~= host + path + seq!['?'] + data);
}

fn concat_str(a: &str, b: &str) -> (s: String)
    ensures
        s@ == a@ + b@,
{
    let mut s = String::from_str(a);
    s.append(b);
    s
}

/// The request for `data` sent to `path` of `host` with `method`, signed,
/// when there are credentials, at `timestamp`.
///
/// `data` is the URL-encoded query for DELETE and GET, and the JSON body
/// for the other verbs.
pub fn prepare_request_at(
    host: &str,
    method: Method,
    path: &str,
    data: &str,
    creds: Option<&Credentials>,
    timestamp: &Time,
) -> (r: PreparedRequest)
    ensures
        r.is_request_for(host@, method, path@, data@, owned(creds), time_text(*timestamp)),
{
    let in_query = method.data_in_query();
    let endpoint = if in_query && !data.is_empty() {
        let mut e = concat_str(path, "?");
        e.append(data);
        e
    } else {
        String::from_str(path)
    };
    assert(endpoint@ =~= endpoint_spec(method, path@, data@));
    let url = concat_str(host, endpoint.as_str());
    let ts = timestamp.to_string();
    let mut prehash = concat_str(ts.as_str(), method.as_str());
    prehash.append(endpoint.as_str());
    if !in_query {
        prehash.append(data);
    }
    assert(prehash@ =~= prehash_spec(ts@, method, path@, data@));
    let mut headers: Vec<Header> = match creds {
        Some(c) => c.auth_headers(ts.as_str(), prehash.as_str()),
        None => Vec::new(),
    };
    let body = if in_query {
        None
    } else {
        headers.push((String::from_str("Content-Type"), String::from_str("application/json")));
        Some(String::from_str(data))
    };
    let r = PreparedRequest { method, url, headers, body };
    assert(header_views(r.headers@) =~= headers_spec(
        method, path@, data@, owned(creds), ts@));
    r
}

/// The request for `data` sent to `path` of `host` with `method`, signed,
/// when there are credentials, at the current time (an instant in the
/// years -9999 to 9999).
pub fn prepare_request(
    host: &str,
    method: Method,
    path: &str,
    data: &str,
    creds: Option<&Credentials>,
) -> (r: PreparedRequest)
    ensures
        exists|t: Time|
            crate::time::in_calendar(t@) && #[trigger] r.is_request_for(host@, method, path@, data@, owned(creds), time_text(t)),
{
    let now = Time::now();
    let r = prepare_request_at(host, method, path, data, creds, &now);
    assert(crate::time::in_calendar(now@) && r.is_request_for(host@, method, path@, data@, owned(creds), time_text(now)));
    r
}


/// The envelope every response body of the API comes in.
#[derive(Debug)]
pub struct ResponseEnvelope<T> {
    pub code: SystemCode,
    pub data: Option<T>,
    pub msg: Option<String>,
}

/// The error a response with an HTTP status other than 200 stands for,
/// given the service's error that its body holds.
pub open spec fn status_error_spec(status: u16, source: SystemError) -> Error {
    if status == 400 {
        Error::BadRequest { source }
    } else if status == 401 {
        Error::Unauthorized { source }
    } else if status == 403 {
        Error::Forbidden { source }
    } else if status == 404 {
        Error::NotFound { source }
    } else if status == 405 {
        Error::MethodNotAllowed { source }
    } else if status == 415 {
        Error::IncorrectContentType { source }
    } else if status == 429 {
        Error::TooManyRequests { source }
    } else if status == 500 {
        Error::InternalServer { source }
    } else if status == 503 {
        Error::ServiceUnavailable { source }
    } else {
        Error::UnexpectedStatus { status, source }
    }
}

/// The error a response with HTTP status `status` (not 200) stands for,
/// given the service's error that its body holds.
pub fn status_error(status: u16, source: SystemError) -> (e: Error)
    ensures
        e == status_error_spec(status, source),
{
    match status {
        400 => Error::BadRequest { source },
        401 => Error::Unauthorized { source },
        403 => Error::Forbidden { source },
        404 => Error::NotFound { source },
        405 => Error::MethodNotAllowed { source },
        415 => Error::IncorrectContentType { source },
        429 => Error::TooManyRequests { source },
        500 => Error::InternalServer { source },
        503 => Error::ServiceUnavailable { source },
        _ => Error::UnexpectedStatus { status, source },
    }
}

/// The message of a failed envelope that carries none.
pub open spec fn unknown_error_msg() -> Seq<char> {
    "An unknown error occurred."@
}

/// The outcome of a response with HTTP status 200, given what decoding its
/// body `resp_json` as an envelope gave (the decoder's message on failure).
///
/// The data is returned when the code is the success code and there is
/// data; otherwise the service's code and message make a bad request
/// error.
pub fn interpret_success<T>(decoded: Result<ResponseEnvelope<T>, String>, resp_json: String) -> (r: Result<T, Error>)
    ensures
        match decoded {
            Err(reason) => r == Err::<T, Error>(Error::ResponseDecoding { resp_json, reason }),
            Ok(env) => if env.code.0 == 200000 && env.data is Some {
                r == Ok::<T, Error>(env.data->0)
            } else {
                &&& r is Err
                &&& r->Err_0 is BadRequest
                &&& r->Err_0->BadRequest_source.code == env.code
                &&& r->Err_0->BadRequest_source.msg@ == match env.msg {
                    Some(m) => m@,
                    None => unknown_error_msg(),
                }
            },
        },
{
    match decoded {
        Err(reason) => Err(Error::ResponseDecoding { resp_json, reason }),
        Ok(env) => {
            let code = env.code;
            match env.data {
                Some(data) if code.0 == 200000 => Ok(data),
                _ => {
                    let msg = match env.msg {
                        Some(m) => m,
                        None => String::from_str("An unknown error occurred."),
                    };
                    Err(Error::BadRequest { source: SystemError { code, msg } })
                },
            }
        },
    }
}

/// The outcome of a response with HTTP status `status` other than 200,
/// given what decoding its body `resp_json` as a service error gave (the
/// decoder's message on failure).
pub fn interpret_failure(status: u16, decoded: Result<SystemError, String>, resp_json: String) -> (e: Error)
    ensures
        match decoded {
            Err(reason) => e == Error::ResponseDecoding { resp_json, reason },
            Ok(source) => e == status_error_spec(status, source),
        },
{
    match decoded {
        Err(reason) => Error::ResponseDecoding { resp_json, reason },
        Ok(source) => status_error(status, source),
    }
}


/// The upper-case hexadecimal digit of `d < 16`.
pub open spec fn hex_upper(d: int) -> char {
    if d < 10 {
        ((48 + d) as u32) as char
    } else {
        ((55 + d) as u32) as char
    }
}

/// The lower-case hexadecimal digit of `d < 16`.
pub open spec fn hex_lower(d: int) -> char {
    if d < 10 {
        ((48 + d) as u32) as char
    } else {
        ((87 + d) as u32) as char
    }
}

/// The bytes the form encoding leaves as they are: ASCII letters and
/// digits and `*`, `-`, `.`, `_`.
pub open spec fn form_unreserved(b: u8) -> bool {
    ||| (b == 42 || b == 45 || b == 46 || b == 95)
    ||| (48 <= b <= 57)
    ||| (65 <= b <= 90)
    ||| (97 <= b <= 122)
}

/// The form encoding of one byte: itself when unreserved, `+` for a space,
/// else `%` and two upper-case hexadecimal digits.
pub open spec fn form_byte(b: u8) -> Seq<char> {
    if form_unreserved(b) {
        seq![(b as u32) as char]
    } else if b == 32 {
        seq!['+']
    } else {
        seq!['%', hex_upper((b / 16) as int), hex_upper((b % 16) as int)]
    }
}

/// The form encoding of a byte string.
pub open spec fn form_bytes(bytes: Seq<u8>) -> Seq<char>
    decreases bytes.len(),
{
    if bytes.len() == 0 {
        Seq::empty()
    } else {
        form_bytes(bytes.drop_last()) + form_byte(bytes.last())
    }
}

/// One `name=value` pair of a form, both encoded from their UTF-8 bytes.
pub open spec fn form_pair(p: (Seq<char>, Seq<char>)) -> Seq<char> {
    form_bytes(vstd::utf8::encode_utf8(p.0)) + seq!['='] + form_bytes(vstd::utf8::encode_utf8(p.1))
}

/// The `application/x-www-form-urlencoded` text of the pairs: each pair
/// encoded, joined by `&`.
pub open spec fn form_urlencoded(pairs: Seq<(Seq<char>, Seq<char>)>) -> Seq<char>
    decreases pairs.len(),
{
    if pairs.len() == 0 {
        Seq::empty()
    } else if pairs.len() == 1 {
        form_pair(pairs[0])
    } else {
        form_urlencoded(pairs.drop_last()) + seq!['&'] + form_pair(pairs.last())
    }
}

/// `serde_urlencoded::to_string` on a list of name and value pairs.
///
/// The crate appends each pair to a `form_urlencoded::Serializer`, which
/// writes `name=value` with `&` between pairs and encodes each byte as
/// `form_byte` says; a sequence of pairs of strings always serializes.
#[verifier::external_body]
pub(crate) fn urlencode_pairs(pairs: &Vec<(String, String)>) -> (s: String)
    ensures
        s@ == form_urlencoded(header_views(pairs@)),
{
    match serde_urlencoded::to_string(pairs) {
        Ok(s) => s,
        Err(_) => String::new(),
    }
}

/// The JSON escape of one character: `\"`, `\\`, the short escapes of
/// backspace, tab, line feed, form feed and carriage return, `\u00XX` for the
/// other control characters, and the character itself otherwise.
pub open spec fn json_char(c: char) -> Seq<char> {
    if c == '"' {
        seq!['\\', '"']
    } else if c == '\\' {
        seq!['\\', '\\']
    } else if c == '\u{8}' {
        seq!['\\', 'b']
    } else if c == '\t' {
        seq!['\\', 't']
    } else if c == '\n' {
        seq!['\\', 'n']
    } else if c == '\u{c}' {
        seq!['\\', 'f']
    } else if c == '\r' {
        seq!['\\', 'r']
    } else if (c as u32) < 32 {
        seq!['\\', 'u', '0', '0', hex_lower(((c as u32) / 16) as int), hex_lower(((c as u32) % 16) as int)]
    } else {
        seq![c]
    }
}

/// The escaped characters of a JSON string's contents.
pub open spec fn json_chars(s: Seq<char>) -> Seq<char>
    decreases s.len(),
{
    if s.len() == 0 {
        Seq::empty()
    } else {
        json_chars(s.drop_last()) + json_char(s.last())
    }
}

/// A JSON string literal: the escaped text between double quotes.
pub open spec fn json_string(s: Seq<char>) -> Seq<char> {
    seq!['"'] + json_chars(s) + seq!['"']
}

/// `serde_json::to_string` on a string: the text quoted and escaped as
/// `json_char` says; serializing a string always succeeds.
#[verifier::external_body]
pub(crate) fn json_quote(s: &str) -> (q: String)
    ensures
        q@ == json_string(s@),
{
    match serde_json::to_string(s) {
        Ok(q) => q,
        Err(_) => String::new(),
    }
}

} // verus!
