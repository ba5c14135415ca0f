//! The JSON transcoder: request payloads are decoded from JSON text,
//! responses are encoded to it.
//!
//! Parsing JSON and writing JSON string literals is the work of
//! `serde_json`. What this module adds is the shape of the two message
//! types: which members make a request, and how the members of a response
//! are laid out.

use crate::framing::{
    declared_length, frame, framed, lemma_frame_round_trip, lemma_length_round_trip, unframed,
};
use crate::message::{texts, Error, ErrorView, Request, RequestView, Response, ResponseView};
use vstd::endian::endianness;
use vstd::prelude::*;
use vstd::utf8::{decode_utf8, encode_utf8, valid_utf8};

verus! {

broadcast use vstd::utf8::encode_utf8_decode_utf8;

/// A parsed JSON value of `serde_json`. Nothing is known of its inside but
/// what [`string_members`] says.
#[verifier::external_type_specification]
#[verifier::external_body]
pub struct ExValue(serde_json::Value);

/// The reason why bytes are no UTF-8, as `core::str::from_utf8` gives it.
#[verifier::external_type_specification]
#[verifier::external_body]
pub struct ExUtf8Error(core::str::Utf8Error);

/// The string members of a JSON value: where the value is an object, the
/// map from the name of each member whose value is a JSON string to that
/// string; the empty map for any other value.
pub uninterp spec fn string_members(value: serde_json::Value) -> Map<Seq<char>, Seq<char>>;

/// What `text` parses to: the string members of the JSON value that it
/// holds, or `None` where it does not hold exactly one JSON value.
pub uninterp spec fn parsed_members(text: Seq<char>) -> Option<Map<Seq<char>, Seq<char>>>;

/// The JSON string literal that stands for `text`, quotes included, as
/// `serde_json` writes it.
pub uninterp spec fn string_literal(text: Seq<char>) -> Seq<char>;

/// `core::str::from_utf8` accepts exactly the byte strings that are valid
/// UTF-8, and the string slice that it gives has those bytes.
pub assume_specification<'a>[ core::str::from_utf8 ](bytes: &'a [u8]) -> (result: Result<
    &'a str,
    core::str::Utf8Error,
>)
    ensures
        match result {
            Ok(text) => valid_utf8(bytes@) && encode_utf8(text@) == bytes@,
            Err(_) => !valid_utf8(bytes@),
        },
;

/// Calls `serde_json::from_str` for a `Value`. It fails unless the whole
/// text is one JSON value, with nothing but white space around it. Whether
/// it does, and what the value holds if it does not, depends on the text
/// alone. The cause of a failure is dropped.
#[verifier::external_body]
fn parse(text: &str) -> (result: Option<serde_json::Value>)
    ensures
        match result {
            Some(value) => parsed_members(text@) == Some(string_members(value)),
            None => parsed_members(text@) is None,
        },
{
    serde_json::from_str::<serde_json::Value>(text).ok()
}

/// Calls `serde_json::to_string` for a string slice, which writes the
/// slice as one JSON string literal. The literal depends on the text
/// alone. The call does not fail: `to_string` fails only where the value
/// refuses to be serialized or holds a map whose keys are no strings, and
/// a string slice does neither; it writes into a vector, which takes every
/// write.
#[verifier::external_body]
fn quote(text: &str) -> (result: Option<String>)
    ensures
        match result {
            Some(literal) => literal@ == string_literal(text@),
            None => false,
        },
{
    serde_json::to_string(text).ok()
}

/// Calls `Value::get` with a member's name, which gives the member of that
/// name where the value is an object that has one, and hands out a copy of
/// the member's text where the member is a JSON string.
#[verifier::external_body]
fn string_member(value: &serde_json::Value, name: &str) -> (member: Option<String>)
    ensures
        match member {
            Some(text) => string_members(*value).contains_key(name@) && string_members(
                *value,
            )[name@] == text@,
            None => !string_members(*value).contains_key(name@),
        },
{
    match value.get(name) {
        Some(serde_json::Value::String(text)) => Some(text.clone()),
        _ => None,
    }
}

/// The request that two members make: the discriminator `type`, and the
/// search term `account` where the variant has one. `None` where a member
/// is absent or is no JSON string.
///
/// `AccountList` needs no further member. `Code` needs `account`. Any other
/// discriminator makes no request.
pub open spec fn request_of(tag: Option<Seq<char>>, account: Option<Seq<char>>) -> Option<
    RequestView,
> {
    match tag {
        None => None,
        Some(tag) => {
            if tag == "AccountList"@ {
                Some(RequestView::AccountList)
            } else if tag == "Code"@ {
                match account {
                    Some(account) => Some(RequestView::Code { account }),
                    None => None,
                }
            } else {
                None
            }
        },
    }
}

/// The member of the given name, if there is one.
pub open spec fn member(members: Map<Seq<char>, Seq<char>>, name: Seq<char>) -> Option<Seq<char>> {
    if members.contains_key(name) {
        Some(members[name])
    } else {
        None
    }
}

/// The request that a payload decodes to, or `None` where it decodes to
/// none: where the bytes are not UTF-8, the text is not one JSON value, or
/// the value's string members `type` and `account` make no request. No
/// other member plays a part.
pub open spec fn decoded(payload: Seq<u8>) -> Option<RequestView> {
    if !valid_utf8(payload) {
        None
    } else {
        match parsed_members(decode_utf8(payload)) {
            None => None,
            Some(members) => request_of(member(members, "type"@), member(members, "account"@)),
        }
    }
}

/// The text of an optional string.
pub open spec fn view_of(text: Option<String>) -> Option<Seq<char>> {
    match text {
        Some(text) => Some(text@),
        None => None,
    }
}

/// Makes a request of the two members that a request payload may hold.
///
/// Fails with `Error::Read` where they make none.
pub fn request_from_members(tag: Option<String>, account: Option<String>) -> (result: Result<
    Request,
    Error,
>)
    ensures
        match result {
            Ok(request) => request_of(view_of(tag), view_of(account)) == Some(request@),
            Err(error) => request_of(view_of(tag), view_of(account)) is None && error@
                == ErrorView::Read,
        },
{
    let tag: String = match tag {
        Some(tag) => tag,
        None => {
            return Err(Error::Read);
        },
    };
    if tag == String::from_str("AccountList") {
        Ok(Request::AccountList)
    } else if tag == String::from_str("Code") {
        match account {
            Some(account) => Ok(Request::Code { account }),
            None => Err(Error::Read),
        }
    } else {
        Err(Error::Read)
    }
}

/// Decodes a request payload.
///
/// Every failure is `Error::Read`, whatever its cause.
pub fn deserialize_request(raw_input: &[u8]) -> (result: Result<Request, Error>)
    ensures
        match result {
            Ok(request) => decoded(raw_input@) == Some(request@),
            Err(error) => decoded(raw_input@) is None && error@ == ErrorView::Read,
        },
{
    let input: &str = match core::str::from_utf8(raw_input) {
        Ok(input) => input,
        Err(_) => {
            return Err(Error::Read);
        },
    };
    let value = match parse(input) {
        Some(value) => value,
        None => {
            return Err(Error::Read);
        },
    };
    request_from_members(string_member(&value, "type"), string_member(&value, "account"))
}

/// The items, with a comma between each two neighbours.
pub open spec fn joined(items: Seq<Seq<char>>) -> Seq<char>
    decreases items.len(),
{
    if items.len() == 0 {
        Seq::empty()
    } else if items.len() == 1 {
        items[0]
    } else {
        joined(items.drop_last()) + ","@ + items.last()
    }
}

/// The JSON object that a response is laid out as, where the strings of
/// `literals` are JSON string literals already: they are set into the
/// object as they stand.
pub open spec fn laid_out(literals: ResponseView) -> Seq<char> {
    match literals {
        ResponseView::Code { account, code } => "{\"account\":"@ + account + ",\"code\":"@ + code
            + "}"@,
        ResponseView::AccountList { accounts } => "{\"accounts\":["@ + joined(accounts) + "]}"@,
        ResponseView::Error { error } => "{\"error\":"@ + error + "}"@,
    }
}

/// The JSON string literal of each of the texts.
pub open spec fn string_literals(items: Seq<Seq<char>>) -> Seq<Seq<char>> {
    Seq::new(items.len(), |i: int| string_literal(items[i]))
}

/// The response that holds, in place of each string of `response`, the
/// JSON string literal that stands for it.
pub open spec fn literals_of(response: ResponseView) -> ResponseView {
    match response {
        ResponseView::Code { account, code } => ResponseView::Code {
            account: string_literal(account),
            code: string_literal(code),
        },
        ResponseView::AccountList { accounts } => ResponseView::AccountList {
            accounts: string_literals(accounts),
        },
        ResponseView::Error { error } => ResponseView::Error { error: string_literal(error) },
    }
}

/// The JSON text of a response: one object, without white space, whose
/// member names tell the variant.
pub open spec fn response_text(response: ResponseView) -> Seq<char> {
    laid_out(literals_of(response))
}

/// The frame of a response: its JSON text in UTF-8 behind the length
/// prefix. `None` where the text is longer than a frame can carry.
pub open spec fn serialized(response: ResponseView) -> Option<Seq<u8>> {
    if encode_utf8(response_text(response)).len() <= u32::MAX {
        Some(framed(encode_utf8(response_text(response))))
    } else {
        None
    }
}

/// Writes each of the texts as a JSON string literal.
fn quote_all(items: &Vec<String>) -> (result: Option<Vec<String>>)
    ensures
        result matches Some(literals) && texts(literals@) == string_literals(texts(items@)),
{
    let mut literals: Vec<String> = Vec::new();
    let mut i: usize = 0;
    while i < items.len()
        invariant
            i <= items@.len(),
            literals@.len() == i,
            forall|j: int| 0 <= j < i ==> literals@[j]@ == string_literal(items@[j]@),
        decreases items@.len() - i,
    {
        match quote(items[i].as_str()) {
            Some(literal) => {
                literals.push(literal);
            },
            None => {
                return None;
            },
        }
        i += 1;
    }
    assert(texts(literals@) =~= string_literals(texts(items@)));
    Some(literals)
}

/// Writes each string of a response as a JSON string literal.
fn quote_response(response: &Response) -> (result: Option<Response>)
    ensures
        result matches Some(literals) && literals@ == literals_of(response@),
{
    match response {
        Response::Code { account, code } => {
            let account: String = match quote(account.as_str()) {
                Some(account) => account,
                None => {
                    return None;
                },
            };
            match quote(code.as_str()) {
                Some(code) => Some(Response::Code { account, code }),
                None => None,
            }
        },
        Response::AccountList { accounts } => {
            match quote_all(accounts) {
                Some(accounts) => Some(Response::AccountList { accounts }),
                None => None,
            }
        },
        Response::Error { error } => {
            match quote(error.as_str()) {
                Some(error) => Some(Response::Error { error }),
                None => None,
            }
        },
    }
}

/// Lays out the JSON object of a response whose strings are JSON string
/// literals already.
pub fn lay_out(literals: &Response) -> (text: String)
    ensures
        text@ == laid_out(literals@),
{
    match literals {
        Response::Code { account, code } => {
            String::from_str("{\"account\":").concat(account.as_str()).concat(",\"code\":").concat(
                code.as_str(),
            ).concat("}")
        },
        Response::AccountList { accounts } => {
            let ghost items = texts(accounts@);
            let mut text: String = String::from_str("{\"accounts\":[");
            let mut i: usize = 0;
            while i < accounts.len()
                invariant
                    i <= accounts@.len(),
                    items == texts(accounts@),
                    text@ == "{\"accounts\":["@ + joined(items.take(i as int)),
                decreases accounts@.len() - i,
            {
                proof {
                    assert(items.take(i + 1).drop_last() =~= items.take(i as int));
                    assert(items.take(i + 1).last() == accounts@[i as int]@);
                }
                if i > 0 {
                    text.append(",");
                }
                text.append(accounts[i].as_str());
                i += 1;
                assert(text@ =~= "{\"accounts\":["@ + joined(items.take(i as int)));
            }
            assert(items.take(i as int) =~= items);
            text.concat("]}")
        },
        Response::Error { error } => {
            String::from_str("{\"error\":").concat(error.as_str()).concat("}")
        },
    }
}

/// Encodes a response and frames it.
///
/// Every response has a JSON text. The one failure is `Error::Write`, for
/// a text that is longer than a frame can carry.
pub fn serialize_response(response: &Response) -> (result: Result<Vec<u8>, Error>)
    ensures
        match result {
            Ok(raw_output) => serialized(response@) == Some(raw_output@),
            Err(error) => serialized(response@) is None && error@ == ErrorView::Write,
        },
{
    let literals: Response = match quote_response(response) {
        Some(literals) => literals,
        None => {
            return Err(Error::Write);
        },
    };
    let text: String = lay_out(&literals);
    frame(text.as_str().as_bytes())
}

/// Members other than `type` and `account` play no part in decoding: two
/// payloads that hold JSON values with the same two members, or the same
/// lack of them, decode alike.
pub proof fn lemma_other_members_ignored(first: Seq<u8>, second: Seq<u8>)
    requires
        valid_utf8(first),
        valid_utf8(second),
        parsed_members(decode_utf8(first)) is Some,
        parsed_members(decode_utf8(second)) is Some,
        member(parsed_members(decode_utf8(first))->0, "type"@) == member(
            parsed_members(decode_utf8(second))->0,
            "type"@,
        ),
        member(parsed_members(decode_utf8(first))->0, "account"@) == member(
            parsed_members(decode_utf8(second))->0,
            "account"@,
        ),
    ensures
        decoded(first) == decoded(second),
{
}

/// What goes out for a response is one whole frame: the prefix declares
/// the length of the JSON text in bytes, and reading the frame back gives
/// that text.
pub proof fn lemma_serialized_is_one_frame(response: ResponseView)
    requires
        serialized(response) is Some,
    ensures
        declared_length(serialized(response)->0) == encode_utf8(response_text(response)).len(),
        serialized(response)->0.len() == 4 + encode_utf8(response_text(response)).len(),
        unframed(serialized(response)->0) == Some(encode_utf8(response_text(response))),
{
    let payload = encode_utf8(response_text(response));
    lemma_frame_round_trip(payload, Seq::empty());
    assert(framed(payload) + Seq::<u8>::empty() =~= framed(payload));
    lemma_length_round_trip(endianness(), payload.len());
}

} // verus!
