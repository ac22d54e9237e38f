//! The request proxy: the single choke point between the interface layer
//! and the worker. A request is forwarded only to a port inside the
//! trusted range with one of five allowed methods, and a response is
//! handed back only when its body is empty or valid JSON; anything else
//! is classified as a distinct, loud error.

use vstd::prelude::*;
use vstd::slice::slice_to_vec;
use vstd::string::{StrSliceExecFns, StringExecFns};
use crate::json::{is_json, json_valid};
use crate::ports::{port_in_range, port_in_range_check};
use crate::text::{prefix, prefix_bytes, trim_ascii, trim_bytes};

verus! {

/// The methods the proxy forwards; anything else is a client error.
#[derive(Clone, Copy, PartialEq, Eq, Structural, Debug)]
pub enum Method {
    Get,
    Post,
    Put,
    Delete,
    Patch,
}

/// ASCII uppercase folding of one byte.
pub open spec fn upper8(b: u8) -> u8 {
    if 97 <= b && b <= 122 {
        (b - 32) as u8
    } else {
        b
    }
}

/// ASCII uppercase folding of a byte sequence.
pub open spec fn upper_bytes(s: Seq<u8>) -> Seq<u8> {
    s.map_values(|b: u8| upper8(b))
}

/// The name of a method, as bytes.
pub open spec fn method_name(m: Method) -> Seq<u8> {
    match m {
        Method::Get => seq![71u8, 69u8, 84u8],  // GET
        Method::Post => seq![80u8, 79u8, 83u8, 84u8],  // POST
        Method::Put => seq![80u8, 85u8, 84u8],  // PUT
        Method::Delete => seq![68u8, 69u8, 76u8, 69u8, 84u8, 69u8],  // DELETE
        Method::Patch => seq![80u8, 65u8, 84u8, 67u8, 72u8],  // PATCH
    }
}

/// The method a request names, matched without regard to ASCII case.
pub open spec fn method_of(s: Seq<u8>) -> Option<Method> {
    if upper_bytes(s) == method_name(Method::Get) {
        Some(Method::Get)
    } else if upper_bytes(s) == method_name(Method::Post) {
        Some(Method::Post)
    } else if upper_bytes(s) == method_name(Method::Put) {
        Some(Method::Put)
    } else if upper_bytes(s) == method_name(Method::Delete) {
        Some(Method::Delete)
    } else if upper_bytes(s) == method_name(Method::Patch) {
        Some(Method::Patch)
    } else {
        None
    }
}

fn upper_vec(s: &[u8]) -> (r: Vec<u8>)
    ensures
        r@ == upper_bytes(s@),
{
    let mut out: Vec<u8> = Vec::new();
    let mut i: usize = 0;
    proof {
        assert(s@.take(0).map_values(|b: u8| upper8(b)) =~= Seq::<u8>::empty());
    }
    while i < s.len()
        invariant
            i <= s.len(),
            out@ == upper_bytes(s@.take(i as int)),
        decreases s.len() - i,
    {
        let b = s[i];
        if 97 <= b && b <= 122 {
            out.push(b - 32);
        } else {
            out.push(b);
        }
        i += 1;
        proof {
            assert(s@.take(i as int).map_values(|x: u8| upper8(x)) =~= s@.take(
                i as int - 1,
            ).map_values(|x: u8| upper8(x)).push(upper8(s@[i as int - 1])));
        }
    }
    proof {
        assert(s@.take(s.len() as int) =~= s@);
    }
    out
}

/// Parses a request method, accepting any ASCII case.
pub fn parse_method(m: &[u8]) -> (r: Option<Method>)
    ensures
        r == method_of(m@),
{
    let u = upper_vec(m);
    if u.len() == 3 && u[0] == 71 && u[1] == 69 && u[2] == 84 {
        proof {
            assert(upper_bytes(m@) =~= method_name(Method::Get));
        }
        Some(Method::Get)
    } else if u.len() == 4 && u[0] == 80 && u[1] == 79 && u[2] == 83 && u[3] == 84 {
        proof {
            assert(upper_bytes(m@) =~= method_name(Method::Post));
        }
        Some(Method::Post)
    } else if u.len() == 3 && u[0] == 80 && u[1] == 85 && u[2] == 84 {
        proof {
            assert(upper_bytes(m@) =~= method_name(Method::Put));
        }
        Some(Method::Put)
    } else if u.len() == 6 && u[0] == 68 && u[1] == 69 && u[2] == 76 && u[3] == 69 && u[4] == 84
        && u[5] == 69 {
        proof {
            assert(upper_bytes(m@) =~= method_name(Method::Delete));
        }
        Some(Method::Delete)
    } else if u.len() == 5 && u[0] == 80 && u[1] == 65 && u[2] == 84 && u[3] == 67 && u[4] == 72 {
        proof {
            assert(upper_bytes(m@) =~= method_name(Method::Patch));
        }
        Some(Method::Patch)
    } else {
        proof {
            assert(upper_bytes(m@) != method_name(Method::Get));
            assert(upper_bytes(m@) != method_name(Method::Post));
            assert(upper_bytes(m@) != method_name(Method::Put));
            assert(upper_bytes(m@) != method_name(Method::Delete));
            assert(upper_bytes(m@) != method_name(Method::Patch));
        }
        None
    }
}

/// Why the proxy refused a request or a response.
#[derive(Clone, PartialEq, Eq, Debug)]
pub enum ProxyError {
    /// No endpoint was discovered yet: the proxy fails fast, it never
    /// guesses a port.
    BackendNotReady,
    /// The stored port lies outside the trusted range, e.g. a stale or
    /// unrelated development server.
    PortOutOfRange { port: u16 },
    /// The request named a method outside the allowed set.
    UnsupportedMethod,
    /// The worker answered with a non-2xx status.
    HttpFailure { status: u16, body: Vec<u8> },
    /// The worker answered with a web page, not API data.
    HtmlResponse { excerpt: Vec<u8> },
    /// The worker answered with a non-empty body that is not JSON.
    NonJsonResponse { excerpt: Vec<u8> },
}

/// What `validate_forward` decides for a stored port and a request method.
pub open spec fn validate_forward_spec(port: Option<u16>, method: Seq<u8>) -> Result<
    (u16, Method),
    ProxyError,
> {
    match port {
        None => Err(ProxyError::BackendNotReady),
        Some(p) => if !port_in_range(p) {
            Err(ProxyError::PortOutOfRange { port: p })
        } else {
            match method_of(method) {
                None => Err(ProxyError::UnsupportedMethod),
                Some(m) => Ok((p, m)),
            }
        },
    }
}

/// A stored port outside the trusted range is always refused, whatever
/// the method: the proxy never forwards to such a port.
pub proof fn lemma_forward_rejects_out_of_range(port: u16, method: Seq<u8>)
    requires
        !port_in_range(port),
    ensures
        validate_forward_spec(Some(port), method) == Err::<(u16, Method), ProxyError>(
            ProxyError::PortOutOfRange { port },
        ),
{
}

/// Checks a request before any network work: an endpoint must have been
/// discovered, it must lie inside the trusted range, and the method must
/// be one of the allowed five. Every request outside that is rejected
/// here, before any network call is issued.
pub fn validate_forward(port: Option<u16>, method: &[u8]) -> (r: Result<(u16, Method), ProxyError>)
    ensures
        r == validate_forward_spec(port, method@),
        r matches Ok(pm) ==> port_in_range(pm.0),
{
    match port {
        None => Err(ProxyError::BackendNotReady),
        Some(p) => {
            if !port_in_range_check(p) {
                Err(ProxyError::PortOutOfRange { port: p })
            } else {
                match parse_method(method) {
                    None => Err(ProxyError::UnsupportedMethod),
                    Some(m) => Ok((p, m)),
                }
            }
        },
    }
}

/// Whether an HTTP status is a success (2xx).
pub open spec fn status_success(status: u16) -> bool {
    200 <= status && status < 300
}

/// How a worker response is classed once received.
pub enum ResponseClass {
    /// Passed through unchanged: a non-2xx answer.
    Failure,
    /// An empty body, or a body that is valid JSON.
    Success,
    /// The trimmed body opens with a markup tag character.
    Html,
    /// A non-empty body that is not JSON.
    NonJson,
}

/// The class of a response: non-2xx fails; an empty body passes; a body
/// opening with `<` is a web page; otherwise only valid JSON passes.
pub open spec fn response_class(status: u16, body: Seq<u8>) -> ResponseClass {
    if !status_success(status) {
        ResponseClass::Failure
    } else if trim_bytes(body).len() == 0 {
        ResponseClass::Success
    } else if trim_bytes(body)[0] == 60 {
        ResponseClass::Html
    } else if is_json(trim_bytes(body)) {
        ResponseClass::Success
    } else {
        ResponseClass::NonJson
    }
}

/// Classifies a worker response. `Ok` exactly when the body may be handed
/// back to the caller: a 2xx status with an empty or valid-JSON body.
/// Each error names its cause and carries the response context.
pub fn classify_response(status: u16, body: &[u8]) -> (r: Result<(), ProxyError>)
    ensures
        r is Ok <==> response_class(status, body@) is Success,
        response_class(status, body@) is Failure ==> (r matches Err(
            ProxyError::HttpFailure { status: s, body: b },
        ) && s == status && b@ == body@),
        response_class(status, body@) is Html ==> (r matches Err(
            ProxyError::HtmlResponse { excerpt },
        ) && excerpt@ == prefix_bytes(trim_bytes(body@), 80)),
        response_class(status, body@) is NonJson ==> (r matches Err(
            ProxyError::NonJsonResponse { excerpt },
        ) && excerpt@ == prefix_bytes(trim_bytes(body@), 120)),
{
    if !(200 <= status && status < 300) {
        return Err(ProxyError::HttpFailure { status, body: slice_to_vec(body) });
    }
    let t = trim_ascii(body);
    if t.len() == 0 {
        return Ok(());
    }
    if t[0] == 60 {
        return Err(ProxyError::HtmlResponse { excerpt: slice_to_vec(prefix(t, 80)) });
    }
    if json_valid(t) {
        Ok(())
    } else {
        Err(ProxyError::NonJsonResponse { excerpt: slice_to_vec(prefix(t, 120)) })
    }
}

/// The character of a decimal digit value.
pub open spec fn digit_char(d: nat) -> char {
    if d == 0 {
        '0'
    } else if d == 1 {
        '1'
    } else if d == 2 {
        '2'
    } else if d == 3 {
        '3'
    } else if d == 4 {
        '4'
    } else if d == 5 {
        '5'
    } else if d == 6 {
        '6'
    } else if d == 7 {
        '7'
    } else if d == 8 {
        '8'
    } else {
        '9'
    }
}

/// The decimal rendering of a number, most significant digit first.
pub open spec fn dec_chars(n: nat) -> Seq<char>
    decreases n,
{
    if n < 10 {
        seq![digit_char(n)]
    } else {
        dec_chars(n / 10).push(digit_char(n % 10))
    }
}

fn digit_str(d: u16) -> (r: &'static str)
    requires
        d < 10,
    ensures
        r@ == seq![digit_char(d as nat)],
{
    proof {
        reveal_strlit("0");
        reveal_strlit("1");
        reveal_strlit("2");
        reveal_strlit("3");
        reveal_strlit("4");
        reveal_strlit("5");
        reveal_strlit("6");
        reveal_strlit("7");
        reveal_strlit("8");
        reveal_strlit("9");
    }
    match d {
        0 => "0",
        1 => "1",
        2 => "2",
        3 => "3",
        4 => "4",
        5 => "5",
        6 => "6",
        7 => "7",
        8 => "8",
        _ => "9",
    }
}

fn append_dec(out: &mut String, n: u16)
    ensures
        final(out)@ == old(out)@ + dec_chars(n as nat),
    decreases n,
{
    if n < 10 {
        out.append(digit_str(n));
    } else {
        append_dec(out, n / 10);
        out.append(digit_str(n % 10));
        proof {
            assert(final(out)@ =~= old(out)@ + dec_chars(n as nat));
        }
    }
}

/// The path with its leading solidus characters removed.
pub open spec fn strip_solidus(s: Seq<char>) -> Seq<char>
    decreases s.len(),
{
    if s.len() > 0 && s[0] == '/' {
        strip_solidus(s.drop_first())
    } else {
        s
    }
}

fn strip_path(s: &str) -> (r: &str)
    ensures
        r@ == strip_solidus(s@),
{
    let n = s.unicode_len();
    let mut i: usize = 0;
    proof {
        assert(s@.skip(0) =~= s@);
    }
    while i < n && s.get_char(i) == '/'
        invariant
            i <= n,
            n == s@.len(),
            strip_solidus(s@) == strip_solidus(s@.skip(i as int)),
        decreases n - i,
    {
        proof {
            assert(s@.skip(i as int)[0] == s@[i as int]);
            assert(s@.skip(i as int).drop_first() =~= s@.skip(i as int + 1));
        }
        i += 1;
    }
    proof {
        assert(s@.skip(i as int) =~= s@.subrange(i as int, n as int));
    }
    s.substring_char(i, n)
}

/// The forwarding target: always the local host, the validated port, and
/// the request path with its leading solidus normalised away.
pub open spec fn url_chars(port: u16, path: Seq<char>) -> Seq<char> {
    "http://127.0.0.1:"@ + dec_chars(port as nat) + "/"@ + strip_solidus(path)
}

/// Builds the same-host URL a validated request is forwarded to.
pub fn build_url(port: u16, path: &str) -> (r: String)
    ensures
        r@ == url_chars(port, path@),
{
    let mut url = String::from_str("http://127.0.0.1:");
    append_dec(&mut url, port);
    url.append("/");
    url.append(strip_path(path));
    proof {
        assert(url@ =~= url_chars(port, path@));
    }
    url
}

} // verus!
