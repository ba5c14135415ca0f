//! The message model: requests, responses and faults, with their
//! mathematical views.

use vstd::prelude::*;

verus! {

/// What a client may ask for.
#[derive(Debug, PartialEq, Eq)]
pub enum Request {
    /// The names of all credentials in the store.
    AccountList,
    /// A one-time password for the credential that `account` matches. The
    /// term is free text; matching is the credential engine's business.
    Code { account: String },
}

/// What the client is told. On the wire the three variants are told apart
/// by their member names alone.
#[derive(Debug, PartialEq, Eq)]
pub enum Response {
    /// A one-time password for the search term `account`.
    Code { account: String, code: String },
    /// The credential names, in the order the store enumerates them.
    AccountList { accounts: Vec<String> },
    /// The description of a failure of the store or the engine.
    Error { error: String },
}

/// Why an exchange, or a step of it, failed.
#[derive(Debug, PartialEq, Eq)]
pub enum Error {
    /// The inbound frame was short, or its payload was not a request.
    Read,
    /// The outbound frame could not be built or written.
    Write,
    /// The credential store could not be opened. Holds the store's own
    /// description of the failure.
    Yubikey(String),
    /// The credential engine failed. Holds the engine's own description of
    /// the failure.
    Oath(String),
}

/// The mathematical value of a [`Request`].
pub enum RequestView {
    AccountList,
    Code { account: Seq<char> },
}

/// The mathematical value of a [`Response`].
pub enum ResponseView {
    Code { account: Seq<char>, code: Seq<char> },
    AccountList { accounts: Seq<Seq<char>> },
    Error { error: Seq<char> },
}

/// The mathematical value of an [`Error`].
pub enum ErrorView {
    Read,
    Write,
    Yubikey(Seq<char>),
    Oath(Seq<char>),
}

/// The texts that a list of strings holds.
pub open spec fn texts(strings: Seq<String>) -> Seq<Seq<char>> {
    Seq::new(strings.len(), |i: int| strings[i]@)
}

impl View for Request {
    type V = RequestView;

    open spec fn view(&self) -> RequestView {
        match self {
            Request::AccountList => RequestView::AccountList,
            Request::Code { account } => RequestView::Code { account: account@ },
        }
    }
}

impl View for Response {
    type V = ResponseView;

    open spec fn view(&self) -> ResponseView {
        match self {
            Response::Code { account, code } => ResponseView::Code {
                account: account@,
                code: code@,
            },
            Response::AccountList { accounts } => ResponseView::AccountList {
                accounts: texts(accounts@),
            },
            Response::Error { error } => ResponseView::Error { error: error@ },
        }
    }
}

impl View for Error {
    type V = ErrorView;

    open spec fn view(&self) -> ErrorView {
        match self {
            Error::Read => ErrorView::Read,
            Error::Write => ErrorView::Write,
            Error::Yubikey(detail) => ErrorView::Yubikey(detail@),
            Error::Oath(detail) => ErrorView::Oath(detail@),
        }
    }
}

/// How a fault reads in an error response: the variant's name, and in
/// brackets behind it the description that the variant holds.
pub open spec fn error_text(error: ErrorView) -> Seq<char> {
    match error {
        ErrorView::Read => "Read"@,
        ErrorView::Write => "Write"@,
        ErrorView::Yubikey(detail) => "Yubikey("@ + detail + ")"@,
        ErrorView::Oath(detail) => "Oath("@ + detail + ")"@,
    }
}

impl Error {
    /// The text of this fault, as an error response carries it.
    pub fn text(&self) -> (text: String)
        ensures
            text@ == error_text(self@),
    {
        match self {
            Error::Read => String::from_str("Read"),
            Error::Write => String::from_str("Write"),
            Error::Yubikey(detail) => {
                String::from_str("Yubikey(").concat(detail.as_str()).concat(")")
            },
            Error::Oath(detail) => String::from_str("Oath(").concat(detail.as_str()).concat(")"),
        }
    }
}

} // verus!
