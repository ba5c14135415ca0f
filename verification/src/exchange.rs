//! One exchange, end to end: a request frame comes in, a response frame
//! goes out.
//!
//! The streams are held in memory. The inbound stream is a slice that
//! starts with the request frame; the outbound stream is a vector that the
//! response frame is appended to. Reading the one and flushing the other is
//! left to the host.

use crate::dispatch::{
    code_text, handle_request, lemma_store_failure_is_reported, next_step, Answers, AnswersView,
    Query, QueryView, Step, StepView,
};
use crate::framing::{framed, read_input, unframed, write_output};
use crate::json::{
    decoded, deserialize_request, joined, serialize_response, serialized, string_literal,
    string_literals,
};
use crate::message::{error_text, Error, ErrorView, Request, RequestView, Response};
use vstd::prelude::*;
use vstd::utf8::encode_utf8;

verus! {

/// The request that the inbound stream starts with, or `None` where it
/// starts with none: where the stream ends before the end of a frame, or
/// the frame's payload decodes to no request.
pub open spec fn request_in(input: Seq<u8>) -> Option<RequestView> {
    match unframed(input) {
        Some(payload) => decoded(payload),
        None => None,
    }
}

/// What one call of [`serve`] comes to.
pub enum Outcome {
    /// The host is to answer a question.
    Ask(QueryView),
    /// The response frame goes out.
    Write(Seq<u8>),
}

/// What an exchange comes to, given the inbound stream and what the host
/// has learnt so far.
///
/// Without a request there is no response: the exchange fails with
/// `Read`. With one, the dispatcher's next step decides. A question is
/// handed on to the host. A response is serialized, and the exchange fails
/// with `Write` where it is too long for a frame.
pub open spec fn served(input: Seq<u8>, answers: AnswersView) -> Result<Outcome, ErrorView> {
    match request_in(input) {
        None => Err(ErrorView::Read),
        Some(request) => match next_step(request, answers) {
            StepView::Ask(query) => Ok(Outcome::Ask(query)),
            StepView::Reply(response) => match serialized(response) {
                Some(raw_output) => Ok(Outcome::Write(raw_output)),
                None => Err(ErrorView::Write),
            },
        },
    }
}

/// Reads the request that the inbound stream starts with.
///
/// Fails with `Error::Read` where it starts with none.
pub fn read(input: &[u8]) -> (result: Result<Request, Error>)
    ensures
        match result {
            Ok(request) => request_in(input@) == Some(request@),
            Err(error) => request_in(input@) is None && error@ == ErrorView::Read,
        },
{
    match read_input(input) {
        Ok(raw_input) => deserialize_request(raw_input.as_slice()),
        Err(error) => Err(error),
    }
}

/// Writes the frame of a response to the end of the outbound stream.
///
/// Fails with `Error::Write` where the response is too long for a frame;
/// the stream is then left as it was.
pub fn write(output: &mut Vec<u8>, response: &Response) -> (result: Result<(), Error>)
    ensures
        match result {
            Ok(_) => {
                &&& serialized(response@) matches Some(raw_output)
                &&& final(output)@ == old(output)@ + raw_output
            },
            Err(error) => {
                &&& serialized(response@) is None
                &&& error@ == ErrorView::Write
                &&& final(output)@ == old(output)@
            },
        },
{
    match serialize_response(response) {
        Ok(raw_output) => write_output(output, raw_output.as_slice()),
        Err(error) => Err(error),
    }
}

/// Takes an exchange as far as it goes without the host.
///
/// Returns `Ok(Some(query))` where the host has to answer a question
/// first: it notes the answer in `answers` and calls again with the same
/// `input`. Returns `Ok(None)` once the response frame stands at the end of
/// `output`. Fails with `Error::Read` where `input` starts with no request,
/// and with `Error::Write` where the response is too long for a frame.
/// Unless the response frame is written, `output` is left as it was.
pub fn serve(input: &[u8], answers: &Answers, output: &mut Vec<u8>) -> (result: Result<
    Option<Query>,
    Error,
>)
    ensures
        match served(input@, answers@) {
            Ok(Outcome::Ask(query)) => {
                &&& result matches Ok(Some(asked))
                &&& asked@ == query
                &&& final(output)@ == old(output)@
            },
            Ok(Outcome::Write(raw_output)) => {
                &&& result matches Ok(None)
                &&& final(output)@ == old(output)@ + raw_output
            },
            Err(error) => {
                &&& result matches Err(fault)
                &&& fault@ == error
                &&& final(output)@ == old(output)@
            },
        },
{
    let request: Request = match read(input) {
        Ok(request) => request,
        Err(error) => {
            return Err(error);
        },
    };
    match handle_request(&request, answers) {
        Step::Ask(query) => Ok(Some(query)),
        Step::Reply(response) => match write(output, &response) {
            Ok(_) => Ok(None),
            Err(error) => Err(error),
        },
    }
}

/// Where the store failed to open, the client gets the report of that
/// failure and nothing else: what goes out is the frame of an object whose
/// one member is `error`. Short of that, the exchange asks for the time,
/// which is read before the store is opened, or fails because the report
/// is too long for a frame.
pub proof fn lemma_store_failure_served(input: Seq<u8>, answers: AnswersView, detail: Seq<char>)
    requires
        request_in(input) is Some,
        answers.store == Some(Err::<(), Seq<char>>(detail)),
    ensures
        match served(input, answers) {
            Ok(Outcome::Ask(query)) => query == QueryView::Now,
            Ok(Outcome::Write(raw_output)) => raw_output == framed(
                encode_utf8(
                    "{\"error\":"@ + string_literal(error_text(ErrorView::Yubikey(detail))) + "}"@,
                ),
            ),
            Err(error) => error == ErrorView::Write,
        },
{
    lemma_store_failure_is_reported(request_in(input)->0, answers, detail);
}

/// An account list request, with the store open and its credentials
/// listed, is answered by the frame of an object whose one member,
/// `accounts`, holds the names in the order in which they were listed.
pub proof fn lemma_account_list_served(
    input: Seq<u8>,
    answers: AnswersView,
    accounts: Seq<Seq<char>>,
)
    requires
        request_in(input) == Some(RequestView::AccountList),
        answers.store matches Some(Ok(_)),
        answers.credentials == Some(Ok::<Seq<Seq<char>>, Seq<char>>(accounts)),
    ensures
        ({
            let text = "{\"accounts\":["@ + joined(string_literals(accounts)) + "]}"@;
            served(input, answers) == if encode_utf8(text).len() <= u32::MAX {
                Ok::<Outcome, ErrorView>(Outcome::Write(framed(encode_utf8(text))))
            } else {
                Err::<Outcome, ErrorView>(ErrorView::Write)
            }
        }),
{
}

/// A request for a password, with the clock read, the store open and the
/// password computed, is answered by the frame of an object with two
/// members: `account`, the search term as it was asked for, and `code`, the
/// password in six digits or more.
pub proof fn lemma_code_served(
    input: Seq<u8>,
    answers: AnswersView,
    search_term: Seq<char>,
    code: u32,
)
    requires
        request_in(input) == Some(RequestView::Code { account: search_term }),
        answers.now is Some,
        answers.store matches Some(Ok(_)),
        answers.code == Some(Ok::<u32, Seq<char>>(code)),
    ensures
        ({
            let text = "{\"account\":"@ + string_literal(search_term) + ",\"code\":"@
                + string_literal(code_text(code as nat)) + "}"@;
            served(input, answers) == if encode_utf8(text).len() <= u32::MAX {
                Ok::<Outcome, ErrorView>(Outcome::Write(framed(encode_utf8(text))))
            } else {
                Err::<Outcome, ErrorView>(ErrorView::Write)
            }
        }),
{
}

} // verus!
