//! The transport boundary: what a call hands to the transport and what the
//! transport hands back. The library builds the one and reads the other; it
//! never sends anything itself.

use crate::params::Params;
use crate::text::{parse_decimal, parse_decimal_u64, same_folded, same_name};
use vstd::prelude::*;
use vstd::string::*;

verus! {

/// The method of a request.
#[derive(Clone, Copy, Debug, PartialEq, Eq, Structural)]
pub enum Method {
    Get,
    Put,
    Post,
    Delete,
}

/// One call, ready for the transport.
#[derive(Debug)]
pub struct Request {
    /// The method.
    pub method: Method,
    /// The path below the agent's address, starting with `/v1/`.
    pub path: String,
    /// The query parameters.
    pub query: Params,
    /// The headers.
    pub headers: Params,
    /// The body, where the library makes it. A payload that is sent as a
    /// document is encoded and attached by the caller.
    pub body: Option<Vec<u8>>,
}

/// What came back for one call.
#[derive(Debug)]
pub struct Response {
    /// The status code.
    pub status: u16,
    /// The headers as they were received: names in any case, in any order.
    pub headers: Vec<(String, String)>,
    /// The raw body.
    pub body: Vec<u8>,
}

/// The name of the header under which an answer carries the store's index.
pub open spec fn index_header() -> Seq<char> {
    "X-Consul-Index"@
}

/// The name of the header under which a request carries its credential.
pub open spec fn token_header() -> Seq<char> {
    "X-Consul-Token"@
}

/// The value of the first header named `name`, whatever the case of its
/// letters.
pub open spec fn header_value(headers: Seq<(String, String)>, name: Seq<char>) -> Option<
    Seq<char>,
>
    decreases headers.len(),
{
    if headers.len() == 0 {
        None
    } else if same_folded(headers[0].0@, name) {
        Some(headers[0].1@)
    } else {
        header_value(headers.drop_first(), name)
    }
}

/// The index that a header set carries: the value of the index header, where
/// it is a number in base ten that fits in 64 bits.
pub open spec fn carried_index(headers: Seq<(String, String)>) -> Option<u64> {
    match header_value(headers, index_header()) {
        Some(value) => match parse_decimal(value) {
            Some(n) => if n <= u64::MAX {
                Some(n as u64)
            } else {
                None
            },
            None => None,
        },
        None => None,
    }
}

/// Whether a byte is white space between the tokens of a JSON text.
pub open spec fn json_space(b: u8) -> bool {
    b == 0x20 || b == 0x0a || b == 0x09 || b == 0x0d
}

/// `s` without the white space it begins with.
pub open spec fn skip_spaces(s: Seq<u8>) -> Seq<u8>
    decreases s.len(),
{
    if s.len() > 0 && json_space(s[0]) {
        skip_spaces(s.drop_first())
    } else {
        s
    }
}

/// Whether `s` holds white space only.
pub open spec fn all_spaces(s: Seq<u8>) -> bool {
    forall|i: int| 0 <= i < s.len() ==> json_space(#[trigger] s[i])
}

/// The bytes of the JSON literal `true`.
pub open spec fn json_true() -> Seq<u8> {
    seq![0x74u8, 0x72u8, 0x75u8, 0x65u8]
}

/// The bytes of the JSON literal `false`.
pub open spec fn json_false() -> Seq<u8> {
    seq![0x66u8, 0x61u8, 0x6cu8, 0x73u8, 0x65u8]
}

/// The truth value that a body states: the literal `true` or `false`, with
/// white space before and after it and nothing else.
pub open spec fn json_flag(body: Seq<u8>) -> Option<bool> {
    let rest = skip_spaces(body);
    if json_true().is_prefix_of(rest) && all_spaces(rest.skip(4)) {
        Some(true)
    } else if json_false().is_prefix_of(rest) && all_spaces(rest.skip(5)) {
        Some(false)
    } else {
        None
    }
}

/// Whether a byte may stand in the value of a header.
pub open spec fn header_byte(b: u8) -> bool {
    (b >= 32 && b != 127) || b == 9
}

/// Whether a text may be sent as the value of a header: each byte of its
/// UTF-8 form is a tab or is neither a control character nor DEL.
pub open spec fn header_text(text: Seq<char>) -> bool {
    let bytes = vstd::utf8::encode_utf8(text);
    forall|i: int| 0 <= i < bytes.len() ==> header_byte(#[trigger] bytes[i])
}

/// Calls `serde_json::from_slice::<bool>` and drops the error. The parser
/// skips the four white-space bytes, reads `true` or `false` letter by
/// letter, skips white space again and fails on any byte left over; the
/// contract says exactly that.
#[verifier::external_body]
fn parse_flag(body: &Vec<u8>) -> (flag: Option<bool>)
    ensures
        flag == json_flag(body@),
{
    serde_json::from_slice::<bool>(body.as_slice()).ok()
}

/// Calls `reqwest::header::HeaderValue::from_str` and tells whether it
/// accepted the text. It walks the bytes of the text and rejects it when one
/// of them is below 32 and no tab, or is 127.
#[verifier::external_body]
fn accepts_header_value(text: &str) -> (ok: bool)
    ensures
        ok == header_text(text@),
{
    reqwest::header::HeaderValue::from_str(text).is_ok()
}

/// Whether `text` may be sent as the value of a header.
pub fn is_header_text(text: &str) -> (ok: bool)
    ensures
        ok == header_text(text@),
{
    accepts_header_value(text)
}

impl Request {
    /// Whether the request is made of exactly these parts, with the
    /// credential as its one header.
    pub open spec fn consists_of(
        self,
        method: Method,
        path: Seq<char>,
        query: Map<Seq<char>, Seq<char>>,
        token: Seq<char>,
        body: Option<Seq<u8>>,
    ) -> bool {
        &&& self.method == method
        &&& self.path@ == path
        &&& self.query@ == query
        &&& self.headers@ == Map::<Seq<char>, Seq<char>>::empty().insert(token_header(), token)
        &&& match body {
            Some(bytes) => self.body matches Some(own) && own@ == bytes,
            None => self.body is None,
        }
    }
}

impl Response {
    /// The value of the first header named `name`, whatever the case of its
    /// letters.
    pub fn header(&self, name: &str) -> (value: Option<String>)
        ensures
            value is Some == header_value(self.headers@, name@) is Some,
            value matches Some(text) ==> text@ == header_value(self.headers@, name@)->0,
    {
        let mut i: usize = 0;
        assert(self.headers@.skip(0) =~= self.headers@);
        while i < self.headers.len()
            invariant
                i <= self.headers.len(),
                header_value(self.headers@, name@) == header_value(
                    self.headers@.skip(i as int),
                    name@,
                ),
            decreases self.headers.len() - i,
        {
            proof {
                let rest = self.headers@.skip(i as int);
                assert(rest.drop_first() =~= self.headers@.skip(i + 1));
            }
            if same_name(self.headers[i].0.as_str(), name) {
                return Some(self.headers[i].1.clone());
            }
            i = i + 1;
        }
        None
    }

    /// The store's index as the answer carries it.
    pub fn index(&self) -> (index: Option<u64>)
        ensures
            index == carried_index(self.headers@),
    {
        proof {
            reveal_strlit("X-Consul-Index");
        }
        match self.header("X-Consul-Index") {
            Some(value) => parse_decimal_u64(value.as_str()),
            None => None,
        }
    }

    /// Whether the status says that the call was served: 200 to 299.
    pub fn is_success(&self) -> (r: bool)
        ensures
            r == (200 <= self.status <= 299),
    {
        200 <= self.status && self.status <= 299
    }

    /// Whether the status says that there is no such thing: 404.
    pub fn is_not_found(&self) -> (r: bool)
        ensures
            r == (self.status == 404),
    {
        self.status == 404
    }

    /// The body as a document to read, or nothing where the answer has no
    /// body.
    pub fn document(&self) -> (document: Option<&Vec<u8>>)
        ensures
            match document {
                Some(body) => self.body@.len() > 0 && *body == self.body,
                None => self.body@.len() == 0,
            },
    {
        if self.body.len() == 0 {
            None
        } else {
            Some(&self.body)
        }
    }

    /// The truth value that the body states, if it states one.
    pub fn flag(&self) -> (flag: Option<bool>)
        ensures
            flag == json_flag(self.body@),
    {
        parse_flag(&self.body)
    }
}

} // verus!
