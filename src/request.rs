use vstd::prelude::*;

verus! {

/// The host that every request goes to.
pub const BASE_SERVER_URL: &'static str = "https://mytotalconnectcomfort.com/WebApi/";

pub const HEADER_ACCEPT: &'static str = "Accept";

pub const HEADER_CONTENT_TYPE: &'static str = "Content-Type";

pub const HEADER_CONTENT_LENGTH: &'static str = "Content-Length";

pub const HEADER_SESSION_ID: &'static str = "sessionId";

pub const MEDIA_JSON: &'static str = "application/json";

/// The HTTP status code with which the server refuses an expired or unknown session.
pub const STATUS_UNAUTHORIZED: u16 = 401;

/// The HTTP methods the client uses.
#[derive(PartialEq, Eq, Structural, Clone, Copy, Debug)]
pub enum Method {
    Get,
    Post,
    Put,
}

/// A request to the vendor's server, as plain values for a transport to send.
#[derive(Debug)]
pub struct Request {
    pub method: Method,
    /// The full URL, without the query.
    pub url: String,
    /// Header names and values, in order.
    pub headers: Vec<(String, String)>,
    /// Query parameter names and values, in order.
    pub query: Vec<(String, String)>,
    /// Members of the JSON object sent as the body; empty when no body is sent.
    pub body: Vec<(String, String)>,
}

/// How the server answered a request that completed: its status code and the
/// status line's description (such as `401 Unauthorized`).
#[derive(Debug)]
pub struct Status {
    pub code: u16,
    pub text: String,
}

/// A request that completed: how the server answered, and its body decoded
/// as the record the request asks for (`Err` with the decoder's description
/// when it is not such a record).
pub struct Answer<T> {
    pub status: Status,
    pub body: Result<T, String>,
}

/// A list of name/value pairs as sequences of characters.
pub open spec fn pairs_view(v: Seq<(String, String)>) -> Seq<(Seq<char>, Seq<char>)> {
    v.map_values(|p: (String, String)| (p.0@, p.1@))
}

/// The full URL of a page of the API.
pub open spec fn url_of(page: Seq<char>) -> Seq<char> {
    BASE_SERVER_URL@ + page
}

/// Whether a status code belongs to the success class (200 to 299).
pub open spec fn spec_is_success(code: u16) -> bool {
    200 <= code && code < 300
}

/// Whether a status code belongs to the success class.
pub fn is_success(code: u16) -> (r: bool)
    ensures
        r == spec_is_success(code),
{
    200 <= code && code < 300
}

/// The decimal digit that stands for `d`.
pub open spec fn digit_char(d: nat) -> char {
    if d == 0 { '0' }
    else if d == 1 { '1' }
    else if d == 2 { '2' }
    else if d == 3 { '3' }
    else if d == 4 { '4' }
    else if d == 5 { '5' }
    else if d == 6 { '6' }
    else if d == 7 { '7' }
    else if d == 8 { '8' }
    else { '9' }
}

/// The decimal notation of `n`, without leading zeros.
pub open spec fn decimal(n: nat) -> Seq<char>
    decreases n,
{
    if n < 10 {
        seq![digit_char(n)]
    } else {
        decimal(n / 10) + seq![digit_char(n % 10)]
    }
}

fn digit_str(d: u64) -> (r: &'static str)
    requires
        d < 10,
    ensures
        r@ == seq![digit_char(d as nat)],
{
    if d == 0 {
        proof { reveal_strlit("0"); }
        "0"
    } else if d == 1 {
        proof { reveal_strlit("1"); }
        "1"
    } else if d == 2 {
        proof { reveal_strlit("2"); }
        "2"
    } else if d == 3 {
        proof { reveal_strlit("3"); }
        "3"
    } else if d == 4 {
        proof { reveal_strlit("4"); }
        "4"
    } else if d == 5 {
        proof { reveal_strlit("5"); }
        "5"
    } else if d == 6 {
        proof { reveal_strlit("6"); }
        "6"
    } else if d == 7 {
        proof { reveal_strlit("7"); }
        "7"
    } else if d == 8 {
        proof { reveal_strlit("8"); }
        "8"
    } else {
        proof { reveal_strlit("9"); }
        "9"
    }
}

/// Writes `n` in decimal notation.
pub fn to_decimal(n: u64) -> (r: String)
    ensures
        r@ == decimal(n as nat),
    decreases n,
{
    if n < 10 {
        String::from_str(digit_str(n))
    } else {
        let mut r = to_decimal(n / 10);
        r.append(digit_str(n % 10));
        r
    }
}

/// The full URL of a page of the API.
pub fn page_url(page: &str) -> (r: String)
    ensures
        r@ == url_of(page@),
{
    String::from_str(BASE_SERVER_URL).concat(page)
}

/// A name/value pair built from two string slices.
pub fn pair(name: &str, value: &str) -> (r: (String, String))
    ensures
        r.0@ == name@,
        r.1@ == value@,
{
    (String::from_str(name), String::from_str(value))
}

} // verus!
