//! The transport's verified half: it lays out one HTTP/1.1 request as
//! text, and it extracts the JSON body from one raw response buffer.

use vstd::prelude::*;

use crate::json::{
    Json, JsonV, push_chars_of_str, spec_parse_or_empty, spec_ser, parse_or_empty, to_json_chars,
};

verus! {

/// The socket half of the transport: one request/response exchange over a
/// fresh connection to the loopback endpoint at `port`, and the pause
/// between retries. The library decides everything else, and is verified
/// for every implementation of this trait.
pub trait Transport {
    /// Performs one exchange: connects, writes the full request text, and
    /// hands back whatever one read returned, or fails when connecting,
    /// writing or reading failed.
    fn exchange(&mut self, port: u16, request: &str) -> Result<Vec<u8>, ()>;

    /// Pauses for `ms` milliseconds between retries.
    fn pause_ms(&mut self, ms: u64);
}

/// An HTTP request method.
pub enum Method {
    GET,
    POST,
    DELETE,
    PUT,
    HEAD,
    PATCH,
    OPTIONS,
}

/// The wire name of a method.
pub open spec fn spec_method_name(m: Method) -> Seq<char> {
    match m {
        Method::GET => "GET"@,
        Method::POST => "POST"@,
        Method::DELETE => "DELETE"@,
        Method::PUT => "PUT"@,
        Method::HEAD => "HEAD"@,
        Method::PATCH => "PATCH"@,
        Method::OPTIONS => "OPTIONS"@,
    }
}

impl Method {
    /// The wire name of the method.
    pub fn as_str(&self) -> (r: &'static str)
        ensures
            r@ == spec_method_name(*self),
    {
        match self {
            Method::GET => "GET",
            Method::POST => "POST",
            Method::DELETE => "DELETE",
            Method::PUT => "PUT",
            Method::HEAD => "HEAD",
            Method::PATCH => "PATCH",
            Method::OPTIONS => "OPTIONS",
        }
    }
}

/// Relies on `String::from_iter` over characters: the string holds
/// exactly the given characters.
#[verifier::external_body]
pub fn chars_to_string(v: Vec<char>) -> (r: String)
    ensures
        r@ == v@,
{
    v.into_iter().collect()
}

/// The decimal digit character for a value below ten.
pub open spec fn spec_dec_digit(n: int) -> char {
    if n == 0 {
        '0'
    } else if n == 1 {
        '1'
    } else if n == 2 {
        '2'
    } else if n == 3 {
        '3'
    } else if n == 4 {
        '4'
    } else if n == 5 {
        '5'
    } else if n == 6 {
        '6'
    } else if n == 7 {
        '7'
    } else if n == 8 {
        '8'
    } else {
        '9'
    }
}

/// The decimal numeral of `n`, most significant digit first.
pub open spec fn spec_dec(n: nat) -> Seq<char>
    decreases n,
{
    if n < 10 {
        seq![spec_dec_digit(n as int)]
    } else {
        spec_dec(n / 10) + seq![spec_dec_digit((n % 10) as int)]
    }
}

/// The decimal digit character for a value below ten.
fn dec_digit(n: u64) -> (r: char)
    requires
        n < 10,
    ensures
        r == spec_dec_digit(n as int),
{
    if n == 0 {
        '0'
    } else if n == 1 {
        '1'
    } else if n == 2 {
        '2'
    } else if n == 3 {
        '3'
    } else if n == 4 {
        '4'
    } else if n == 5 {
        '5'
    } else if n == 6 {
        '6'
    } else if n == 7 {
        '7'
    } else if n == 8 {
        '8'
    } else {
        '9'
    }
}

/// Appends the decimal numeral of `n` to `out`.
pub fn push_dec(n: u64, out: &mut Vec<char>)
    ensures
        final(out)@ == old(out)@ + spec_dec(n as nat),
    decreases n,
{
    if n < 10 {
        out.push(dec_digit(n));
        proof {
            assert(out@ =~= old(out)@ + spec_dec(n as nat));
        }
    } else {
        push_dec(n / 10, out);
        out.push(dec_digit(n % 10));
        proof {
            assert(out@ =~= old(out)@ + spec_dec(n as nat));
        }
    }
}

/// The loopback host name with a port, as the Host header carries it.
pub open spec fn spec_host(port: u16) -> Seq<char> {
    "127.0.0.1:"@ + spec_dec(port as nat)
}

/// The loopback host name with a port, as the Host header carries it.
pub fn host_string(port: u16) -> (r: String)
    ensures
        r@ == spec_host(port),
{
    let mut out: Vec<char> = Vec::new();
    push_chars_of_str("127.0.0.1:", &mut out);
    push_dec(port as u64, &mut out);
    chars_to_string(out)
}

/// The byte length of the UTF-8 encoding of a body's serialized text, as
/// the machine measures it.
pub open spec fn spec_body_byte_len(body: JsonV) -> nat {
    (vstd::utf8::encode_utf8(spec_ser(body)).len() as usize) as nat
}

/// The full text of one HTTP/1.1 request: the request line, a Host and a
/// Content-Length header, a blank line, and the serialized JSON body.
/// The declared Content-Length is the byte length of that body.
pub open spec fn spec_request(m: Method, host: Seq<char>, path: Seq<char>, body: JsonV) -> Seq<
    char,
> {
    spec_method_name(m) + " "@ + path + " HTTP/1.1\r\nHost: "@ + host + "\r\nContent-Length: "@
        + spec_dec(spec_body_byte_len(body)) + "\r\n\r\n"@ + spec_ser(body)
}

/// Lays out one request as text.
pub fn build_request(m: Method, host: &str, path: &str, body: &Json) -> (r: String)
    ensures
        r@ == spec_request(m, host@, path@, body@),
{
    let body_chars = to_json_chars(body);
    let body_str = chars_to_string(body_chars);
    let body_len = body_str.as_str().len();
    let mut out: Vec<char> = Vec::new();
    push_chars_of_str(m.as_str(), &mut out);
    push_chars_of_str(" ", &mut out);
    push_chars_of_str(path, &mut out);
    push_chars_of_str(" HTTP/1.1\r\nHost: ", &mut out);
    push_chars_of_str(host, &mut out);
    push_chars_of_str("\r\nContent-Length: ", &mut out);
    push_dec(body_len as u64, &mut out);
    push_chars_of_str("\r\n\r\n", &mut out);
    push_chars_of_str(body_str.as_str(), &mut out);
    proof {
        assert(out@ =~= spec_request(m, host@, path@, body@));
    }
    chars_to_string(out)
}

/// The serialized request carries a Content-Length declaring exactly the
/// byte length of the serialized JSON body that follows its blank line,
/// for every method, host, path and body.
pub proof fn lemma_request_content_length(m: Method, host: Seq<char>, path: Seq<char>, body: JsonV)
    ensures
        spec_request(m, host, path, body) == spec_method_name(m) + " "@ + path
            + " HTTP/1.1\r\nHost: "@ + host + "\r\nContent-Length: "@ + spec_dec(
            spec_body_byte_len(body),
        ) + "\r\n\r\n"@ + spec_ser(body),
        vstd::utf8::encode_utf8(spec_ser(body)).len() <= usize::MAX ==> spec_body_byte_len(body)
            == vstd::utf8::encode_utf8(spec_ser(body)).len(),
{
}

/// Serializes a JSON value to its text.
pub fn to_json_string(v: &Json) -> (r: String)
    ensures
        r@ == spec_ser(v@),
{
    chars_to_string(to_json_chars(v))
}

/// Whether the four bytes of an HTTP blank line stand at position `i`.
pub open spec fn spec_sep_at(s: Seq<u8>, i: int) -> bool {
    &&& 0 <= i
    &&& i + 4 <= s.len()
    &&& s[i] == 13u8
    &&& s[i + 1] == 10u8
    &&& s[i + 2] == 13u8
    &&& s[i + 3] == 10u8
}

/// The position of the first HTTP blank line at or after `i`, if any.
pub open spec fn spec_find_sep(s: Seq<u8>, i: int) -> Option<int>
    decreases s.len() - i,
{
    if i < 0 || i + 4 > s.len() {
        None
    } else if spec_sep_at(s, i) {
        Some(i)
    } else {
        spec_find_sep(s, i + 1)
    }
}

/// The body of a raw response: what follows the first blank line, if one
/// occurs at all.
pub open spec fn spec_raw_body(s: Seq<u8>) -> Option<Seq<u8>> {
    match spec_find_sep(s, 0) {
        Some(i) => Some(s.subrange(i + 4, s.len() as int)),
        None => None,
    }
}

/// The JSON value one raw response carries: its body parsed as JSON, with
/// a missing blank line or an unparseable body both read as the empty
/// object.
pub open spec fn spec_response_json(s: Seq<u8>) -> JsonV {
    match spec_raw_body(s) {
        Some(b) => spec_parse_or_empty(b),
        None => JsonV::Obj(Seq::empty()),
    }
}

/// A response without a blank line, and one whose body does not parse as
/// JSON, are both read as an empty object, never as an error.
pub proof fn lemma_malformed_response_reads_empty(raw: Seq<u8>)
    ensures
        spec_find_sep(raw, 0) is None ==> spec_response_json(raw) == JsonV::Obj(
            Seq::<crate::json::JsonFieldV>::empty(),
        ),
        spec_raw_body(raw) matches Some(b) && crate::json::json_parse_of(b) is None
            ==> spec_response_json(raw) == JsonV::Obj(Seq::<crate::json::JsonFieldV>::empty()),
{
}

/// Finds the first HTTP blank line in a raw response.
fn find_sep(raw: &Vec<u8>) -> (r: Option<usize>)
    ensures
        match r {
            Some(i) => {
                &&& Some(i as int) == spec_find_sep(raw@, 0)
                &&& i + 4 <= raw.len()
            },
            None => spec_find_sep(raw@, 0) is None,
        },
{
    if raw.len() < 4 {
        return None;
    }
    let mut i: usize = 0;
    while i <= raw.len() - 4
        invariant
            4 <= raw.len(),
            i <= raw.len(),
            spec_find_sep(raw@, 0) == spec_find_sep(raw@, i as int),
        decreases raw.len() - i,
    {
        if raw[i] == 13 && raw[i + 1] == 10 && raw[i + 2] == 13 && raw[i + 3] == 10 {
            return Some(i);
        }
        i += 1;
    }
    None
}

/// Reads the JSON body out of one raw response buffer: everything after
/// the first blank line, parsed as JSON; a response without a blank line
/// or with an unparseable body is read as an empty object.
pub fn response_json(raw: &Vec<u8>) -> (r: Json)
    ensures
        r@ == spec_response_json(raw@),
{
    match find_sep(raw) {
        Some(i) => {
            let start = i + 4;
            let mut body: Vec<u8> = Vec::new();
            proof {
                assert(body@ =~= raw@.subrange(start as int, start as int));
            }
            let mut k: usize = start;
            while k < raw.len()
                invariant
                    start <= k <= raw.len(),
                    body@ == raw@.subrange(start as int, k as int),
                decreases raw.len() - k,
            {
                body.push(raw[k]);
                proof {
                    assert(body@ =~= raw@.subrange(start as int, k + 1));
                }
                k += 1;
            }
            parse_or_empty(body.as_slice())
        },
        None => Json::empty_object(),
    }
}

/// One request/response exchange: lays out the request for the loopback
/// endpoint at `port`, performs it over the transport, and reads the JSON
/// body out of whatever raw response came back. It fails exactly when the
/// exchange itself failed, never over a malformed response.
pub fn send_request<T: Transport>(t: &mut T, port: u16, m: Method, path: &str, body: &Json) -> (r:
    Result<Json, ()>)
{
    let host = host_string(port);
    let req = build_request(m, host.as_str(), path, body);
    match t.exchange(port, req.as_str()) {
        Ok(raw) => Ok(response_json(&raw)),
        Err(_) => Err(()),
    }
}

} // verus!
