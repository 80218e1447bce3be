//! The decisions of the catch-all `/python/{*path}` handler: the route path
//! handed to Python, how the request body is read, which headers are passed
//! on, and the HTTP reply for a dispatch outcome.

use vstd::prelude::*;
use vstd::utf8::{decode_utf8, valid_utf8};
use crate::dispatch::{DispatchResult, STATUS_INTERNAL_ERROR, STATUS_OK};
use crate::error::{spec_runtime_message, RuntimeError};
use crate::json::{json_accepts, json_from_text, json_value_of, utf8_text};

verus! {

/// The full route path for the part of the URL after `/python/`.
pub open spec fn spec_python_route_path(path: Seq<char>) -> Seq<char> {
    "/python/"@ + path
}

/// The full route path for the part of the URL after `/python/`.
pub fn python_route_path(path: &str) -> (res: String)
    ensures
        res@ == spec_python_route_path(path@),
{
    String::from_str("/python/").concat(path)
}

/// How a request body is handed to Python.
#[derive(Debug)]
pub enum RequestBody {
    /// No body, or a body that is neither JSON nor UTF-8 text (`null`).
    Absent,
    /// A body that parses as JSON.
    Json(serde_json::Value),
    /// A body that is not JSON but is UTF-8 text (a JSON string).
    Text(String),
}

/// The request body from what was found out about it: an empty body is
/// absent; otherwise the parsed JSON, else the text, else absent.
pub fn choose_request_body(is_empty: bool, json: Option<serde_json::Value>, text: Option<String>) -> (res:
    RequestBody)
    ensures
        res == (if is_empty {
            RequestBody::Absent
        } else {
            match json {
                Some(v) => RequestBody::Json(v),
                None => match text {
                    Some(t) => RequestBody::Text(t),
                    None => RequestBody::Absent,
                },
            }
        }),
{
    if is_empty {
        RequestBody::Absent
    } else {
        match json {
            Some(v) => RequestBody::Json(v),
            None => match text {
                Some(t) => RequestBody::Text(t),
                None => RequestBody::Absent,
            },
        }
    }
}

/// How the raw request body is handed to Python: absent when empty, JSON
/// when `serde_json` accepts it, else its text when it is valid UTF-8, else
/// absent.
pub fn classify_body(body: &[u8]) -> (res: RequestBody)
    ensures
        body@.len() == 0 ==> res is Absent,
        body@.len() > 0 && json_accepts(body@) ==> (res matches RequestBody::Json(v) && v
            == json_value_of(body@)),
        body@.len() > 0 && !json_accepts(body@) && valid_utf8(body@) ==> (res matches RequestBody::Text(
            t,
        ) && t@ == decode_utf8(body@)),
        body@.len() > 0 && !json_accepts(body@) && !valid_utf8(body@) ==> res is Absent,
{
    if body.len() == 0 {
        return choose_request_body(true, None, None);
    }
    let json = json_from_text(body);
    if json.is_some() {
        return choose_request_body(false, json, None);
    }
    let text = match utf8_text(body) {
        Some(t) => Some(String::from_str(t)),
        None => None,
    };
    choose_request_body(false, None, text)
}

/// Whether a header byte is visible ASCII (or a tab), as `HeaderValue::to_str` requires.
pub open spec fn spec_is_visible_ascii(b: u8) -> bool {
    (32 <= b < 127) || b == 9
}

/// Whether every byte of a header value is visible ASCII.
pub open spec fn spec_all_visible(v: Seq<u8>) -> bool {
    forall|i: int| 0 <= i < v.len() ==> spec_is_visible_ascii(#[trigger] v[i])
}

/// The characters of ASCII bytes.
pub open spec fn spec_ascii_chars(v: Seq<u8>) -> Seq<char> {
    Seq::new(v.len(), |i: int| v[i] as char)
}

/// The headers passed to Python: those whose value is visible ASCII, with
/// the value as text; a later value of a repeated name replaces an earlier
/// one.
pub open spec fn spec_header_map(headers: Seq<(String, Vec<u8>)>) -> Map<Seq<char>, Seq<char>>
    decreases headers.len(),
{
    if headers.len() == 0 {
        Map::empty()
    } else {
        let earlier = spec_header_map(headers.drop_last());
        let (name, value) = headers.last();
        if spec_all_visible(value@) {
            earlier.insert(name@, spec_ascii_chars(value@))
        } else {
            earlier
        }
    }
}

/// `pairs` lists the map `m`: names are distinct, each pair is an entry of
/// `m`, and every entry of `m` is listed.
pub open spec fn pairs_list_map(pairs: Seq<(String, String)>, m: Map<Seq<char>, Seq<char>>) -> bool {
    &&& forall|i: int, j: int|
        0 <= i < j < pairs.len() ==> (#[trigger] pairs[i]).0@ != (#[trigger] pairs[j]).0@
    &&& forall|i: int|
        0 <= i < pairs.len() ==> m.contains_key((#[trigger] pairs[i]).0@) && m[pairs[i].0@]
            == pairs[i].1@
    &&& forall|k: Seq<char>|
        m.contains_key(k) ==> exists|i: int| 0 <= i < pairs.len() && (#[trigger] pairs[i]).0@ == k
}

proof fn lemma_ascii_utf8(bytes: Seq<u8>)
    requires
        forall|i: int| 0 <= i < bytes.len() ==> #[trigger] bytes[i] < 0x80,
    ensures
        valid_utf8(bytes),
        decode_utf8(bytes) == spec_ascii_chars(bytes),
    decreases bytes.len(),
{
    if bytes.len() > 0 {
        let rest = bytes.drop_first();
        let b: u8 = bytes[0];
        assert(b < 0x80);
        assert(b & 0x7f == b) by (bit_vector)
            requires
                b < 0x80,
        ;
        assert(vstd::utf8::decode_first_scalar(bytes) == b as u32);
        assert(vstd::utf8::pop_first_scalar(bytes) =~= rest);
        assert forall|i: int| 0 <= i < rest.len() implies #[trigger] rest[i] < 0x80 by {
            assert(rest[i] == bytes[i + 1]);
        }
        lemma_ascii_utf8(rest);
        assert(decode_utf8(bytes) =~= spec_ascii_chars(bytes));
    }
}

/// Whether every byte of `v` is visible ASCII.
fn all_visible(v: &Vec<u8>) -> (res: bool)
    ensures
        res == spec_all_visible(v@),
{
    let mut i: usize = 0;
    while i < v.len()
        invariant
            i <= v.len(),
            forall|k: int| 0 <= k < i ==> spec_is_visible_ascii(#[trigger] v@[k]),
        decreases v.len() - i,
    {
        let b: u8 = v[i];
        if !((32 <= b && b < 127) || b == 9) {
            return false;
        }
        i = i + 1;
    }
    true
}

/// The position of the pair named `name`, if any.
fn find_name(pairs: &Vec<(String, String)>, name: &String) -> (res: Option<usize>)
    ensures
        match res {
            Some(i) => i < pairs@.len() && pairs@[i as int].0@ == name@,
            None => forall|i: int| 0 <= i < pairs@.len() ==> (#[trigger] pairs@[i]).0@ != name@,
        },
{
    let mut j: usize = 0;
    while j < pairs.len()
        invariant
            j <= pairs@.len(),
            forall|i: int| 0 <= i < j ==> (#[trigger] pairs@[i]).0@ != name@,
        decreases pairs.len() - j,
    {
        if pairs[j].0 == *name {
            return Some(j);
        }
        j = j + 1;
    }
    None
}

/// The headers passed to Python, one pair per name: those whose value is
/// visible ASCII (`HeaderValue::to_str` refuses the others), with the value
/// as text; a later value of a repeated name replaces an earlier one.
pub fn header_map(headers: &Vec<(String, Vec<u8>)>) -> (res: Vec<(String, String)>)
    ensures
        pairs_list_map(res@, spec_header_map(headers@)),
{
    let mut out: Vec<(String, String)> = Vec::new();
    let mut i: usize = 0;
    while i < headers.len()
        invariant
            i <= headers.len(),
            pairs_list_map(out@, spec_header_map(headers@.subrange(0, i as int))),
        decreases headers.len() - i,
    {
        let ghost before = headers@.subrange(0, i as int);
        let ghost after = headers@.subrange(0, i + 1);
        let ghost m = spec_header_map(before);
        proof {
            assert(after.drop_last() =~= before);
            assert(after.last() == headers@[i as int]);
        }
        let (name, value) = &headers[i];
        if all_visible(value) {
            proof {
                assert forall|k: int| 0 <= k < value@.len() implies #[trigger] value@[k] < 0x80 by {
                    assert(spec_is_visible_ascii(value@[k]));
                }
                lemma_ascii_utf8(value@);
            }
            match utf8_text(value.as_slice()) {
                Some(t) => {
                    let text = String::from_str(t);
                    let ghost m2 = m.insert(name@, text@);
                    let ghost old_out = out@;
                    match find_name(&out, name) {
                        Some(idx) => {
                            out[idx] = (name.clone(), text);
                            proof {
                                assert forall|a: int|
                                    0 <= a < out@.len() implies m2.contains_key(
                                    (#[trigger] out@[a]).0@,
                                ) && m2[out@[a].0@] == out@[a].1@ by {
                                    if a != idx {
                                        assert(old_out[a] == out@[a]);
                                        assert(old_out[a].0@ != old_out[idx as int].0@);
                                    }
                                }
                                assert forall|k: Seq<char>| m2.contains_key(k) implies exists|a: int|
                                    0 <= a < out@.len() && (#[trigger] out@[a]).0@ == k by {
                                    if k != name@ {
                                        let a = choose|a: int|
                                            0 <= a < old_out.len() && (#[trigger] old_out[a]).0@ == k;
                                        assert(out@[a] == old_out[a]);
                                    } else {
                                        assert(out@[idx as int].0@ == k);
                                    }
                                }
                                assert forall|a: int, b: int|
                                    0 <= a < b < out@.len() implies (#[trigger] out@[a]).0@ != (
                                    #[trigger] out@[b]).0@ by {
                                    assert(old_out[a].0@ != old_out[b].0@);
                                    if a == idx {
                                        assert(out@[b] == old_out[b]);
                                    } else if b == idx {
                                        assert(out@[a] == old_out[a]);
                                    } else {
                                        assert(out@[a] == old_out[a]);
                                        assert(out@[b] == old_out[b]);
                                    }
                                }
                            }
                        },
                        None => {
                            out.push((name.clone(), text));
                            proof {
                                let last = old_out.len() as int;
                                assert forall|a: int|
                                    0 <= a < out@.len() implies m2.contains_key(
                                    (#[trigger] out@[a]).0@,
                                ) && m2[out@[a].0@] == out@[a].1@ by {
                                    if a != last {
                                        assert(old_out[a] == out@[a]);
                                        assert(old_out[a].0@ != name@);
                                    }
                                }
                                assert forall|k: Seq<char>| m2.contains_key(k) implies exists|a: int|
                                    0 <= a < out@.len() && (#[trigger] out@[a]).0@ == k by {
                                    if k != name@ {
                                        let a = choose|a: int|
                                            0 <= a < old_out.len() && (#[trigger] old_out[a]).0@ == k;
                                        assert(out@[a] == old_out[a]);
                                    } else {
                                        assert(out@[last].0@ == k);
                                    }
                                }
                                assert forall|a: int, b: int|
                                    0 <= a < b < out@.len() implies (#[trigger] out@[a]).0@ != (
                                    #[trigger] out@[b]).0@ by {
                                    assert(out@[a] == old_out[a]);
                                    if b == last {
                                        assert(old_out[a].0@ != name@);
                                    } else {
                                        assert(out@[b] == old_out[b]);
                                        assert(old_out[a].0@ != old_out[b].0@);
                                    }
                                }
                            }
                        },
                    }
                },
                None => {},
            }
        }
        i = i + 1;
    }
    proof {
        assert(headers@.subrange(0, headers@.len() as int) =~= headers@);
    }
    out
}

/// The body of the HTTP reply to a Python route.
#[derive(Debug)]
pub enum ReplyBody {
    /// The handler's data (`null` when there is none).
    Data(Option<serde_json::Value>),
    /// `{"error": message}`.
    Error(String),
}

/// The HTTP reply to a Python route.
#[derive(Debug)]
pub struct PythonReply {
    pub status: u16,
    pub body: ReplyBody,
}

/// Whether `code` is an HTTP status code (`StatusCode::from_u16` accepts
/// exactly 100 to 999).
pub open spec fn spec_valid_status(code: u16) -> bool {
    100 <= code <= 999
}

/// Whether `code` is an HTTP status code.
pub fn is_valid_status(code: u16) -> (res: bool)
    ensures
        res == spec_valid_status(code),
{
    100 <= code && code <= 999
}

/// The reply to a dispatch outcome: 200 with the data on success; the
/// handler's status (500 when it is not a status code) with its error
/// message (`Unknown error` when there is none) on failure; 500 with the
/// runtime error's text when dispatch itself failed.
pub fn python_reply(outcome: Result<DispatchResult, RuntimeError>) -> (res: PythonReply)
    ensures
        spec_valid_status(res.status),
        match outcome {
            Ok(r) => if r.success {
                res.status == STATUS_OK && res.body == ReplyBody::Data(r.data)
            } else {
                &&& res.status == (if spec_valid_status(r.code) {
                    r.code
                } else {
                    STATUS_INTERNAL_ERROR
                })
                &&& res.body matches ReplyBody::Error(m) && m@ == match r.error {
                    Some(e) => e@,
                    None => "Unknown error"@,
                }
            },
            Err(e) => {
                &&& res.status == STATUS_INTERNAL_ERROR
                &&& res.body matches ReplyBody::Error(m) && m@ == spec_runtime_message(e@)
            },
        },
{
    match outcome {
        Ok(r) => {
            if r.success {
                PythonReply { status: STATUS_OK, body: ReplyBody::Data(r.data) }
            } else {
                let status: u16 = if is_valid_status(r.code) {
                    r.code
                } else {
                    STATUS_INTERNAL_ERROR
                };
                let message = match r.error {
                    Some(e) => e,
                    None => String::from_str("Unknown error"),
                };
                PythonReply { status, body: ReplyBody::Error(message) }
            }
        },
        Err(e) => PythonReply { status: STATUS_INTERNAL_ERROR, body: ReplyBody::Error(e.message()) },
    }
}

} // verus!
