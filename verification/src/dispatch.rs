//! The dispatcher: the decisions that lead from a request to its response.
//!
//! Answering a request takes work that only the host can do: reading the
//! clock, opening the credential store, asking the credential engine. The
//! dispatcher does none of it. It is a function from the request and the
//! answers that the host has gathered so far to the next step: a question
//! to the host, or the response. The host asks, notes the answer, and calls
//! again, until the step is a response.

use crate::message::{
    error_text, texts, Error, ErrorView, Request, RequestView, Response, ResponseView,
};
use vstd::prelude::*;

verus! {

/// A question to the host.
#[derive(Debug, PartialEq, Eq)]
pub enum Query {
    /// What time is it?
    Now,
    /// Open the credential store.
    Initialize,
    /// Which credentials does the open store hold?
    ListCredentials,
    /// What is the one-time password, at the time `timestamp`, of the
    /// credential in the open store that `search_term` matches?
    ComputeFuzzy { search_term: String, timestamp: u64 },
}

/// What the host has learnt so far. Each field is the answer to one
/// [`Query`], `None` until that question was asked. A failure is held as
/// the description that the store or the engine gave of it.
#[derive(Debug)]
pub struct Answers {
    /// The answer to [`Query::Now`].
    pub now: Option<u64>,
    /// The answer to [`Query::Initialize`].
    pub store: Option<Result<(), String>>,
    /// The answer to [`Query::ListCredentials`].
    pub credentials: Option<Result<Vec<String>, String>>,
    /// The answer to [`Query::ComputeFuzzy`].
    pub code: Option<Result<u32, String>>,
}

/// What the dispatcher does next.
#[derive(Debug, PartialEq, Eq)]
pub enum Step {
    /// The host is to answer this question and call again.
    Ask(Query),
    /// The request is answered.
    Reply(Response),
}

/// The mathematical value of a [`Query`].
pub enum QueryView {
    Now,
    Initialize,
    ListCredentials,
    ComputeFuzzy { search_term: Seq<char>, timestamp: u64 },
}

/// The mathematical value of [`Answers`].
pub struct AnswersView {
    pub now: Option<u64>,
    pub store: Option<Result<(), Seq<char>>>,
    pub credentials: Option<Result<Seq<Seq<char>>, Seq<char>>>,
    pub code: Option<Result<u32, Seq<char>>>,
}

/// The mathematical value of a [`Step`].
pub enum StepView {
    Ask(QueryView),
    Reply(ResponseView),
}

impl View for Query {
    type V = QueryView;

    open spec fn view(&self) -> QueryView {
        match self {
            Query::Now => QueryView::Now,
            Query::Initialize => QueryView::Initialize,
            Query::ListCredentials => QueryView::ListCredentials,
            Query::ComputeFuzzy { search_term, timestamp } => QueryView::ComputeFuzzy {
                search_term: search_term@,
                timestamp: *timestamp,
            },
        }
    }
}

impl View for Answers {
    type V = AnswersView;

    open spec fn view(&self) -> AnswersView {
        AnswersView {
            now: self.now,
            store: match self.store {
                None => None,
                Some(Ok(_)) => Some(Ok(())),
                Some(Err(detail)) => Some(Err(detail@)),
            },
            credentials: match self.credentials {
                None => None,
                Some(Ok(accounts)) => Some(Ok(texts(accounts@))),
                Some(Err(detail)) => Some(Err(detail@)),
            },
            code: match self.code {
                None => None,
                Some(Ok(code)) => Some(Ok(code)),
                Some(Err(detail)) => Some(Err(detail@)),
            },
        }
    }
}

impl View for Step {
    type V = StepView;

    open spec fn view(&self) -> StepView {
        match self {
            Step::Ask(query) => StepView::Ask(query@),
            Step::Reply(response) => StepView::Reply(response@),
        }
    }
}

/// The decimal digit for `d`.
pub open spec fn digit(d: nat) -> char
    recommends
        d < 10,
{
    ('0' as nat + d) as char
}

/// The decimal numeral of `n`, without leading zeros.
pub open spec fn decimal(n: nat) -> Seq<char>
    decreases n,
{
    if n < 10 {
        seq![digit(n)]
    } else {
        decimal(n / 10).push(digit(n % 10))
    }
}

/// `text` behind as many zeros as bring it to `width` characters; `text`
/// itself where it has that many.
pub open spec fn zero_padded(text: Seq<char>, width: nat) -> Seq<char> {
    if text.len() >= width {
        text
    } else {
        Seq::new((width - text.len()) as nat, |i: int| '0') + text
    }
}

/// How a one-time password reads in a response: as its decimal numeral,
/// zero-padded to six digits.
pub open spec fn code_text(code: nat) -> Seq<char> {
    zero_padded(decimal(code), 6)
}

/// The response that reports a failure.
pub open spec fn failure(error: ErrorView) -> ResponseView {
    ResponseView::Error { error: error_text(error) }
}

/// The next step towards the list of accounts. The store is opened first.
/// If that fails, the failure is the response. Else the credentials are
/// listed, and the list or the failure to get it is the response.
pub open spec fn accounts_step(answers: AnswersView) -> StepView {
    match answers.store {
        None => StepView::Ask(QueryView::Initialize),
        Some(Err(detail)) => StepView::Reply(failure(ErrorView::Yubikey(detail))),
        Some(Ok(_)) => match answers.credentials {
            None => StepView::Ask(QueryView::ListCredentials),
            Some(Ok(accounts)) => StepView::Reply(ResponseView::AccountList { accounts }),
            Some(Err(detail)) => StepView::Reply(failure(ErrorView::Oath(detail))),
        },
    }
}

/// The next step towards a one-time password. The clock is read first,
/// then the store is opened. If that fails, the failure is the response.
/// Else the engine computes the password for the search term and the time
/// read, and the password or the failure to get it is the response.
pub open spec fn otp_step(search_term: Seq<char>, answers: AnswersView) -> StepView {
    match answers.now {
        None => StepView::Ask(QueryView::Now),
        Some(timestamp) => match answers.store {
            None => StepView::Ask(QueryView::Initialize),
            Some(Err(detail)) => StepView::Reply(failure(ErrorView::Yubikey(detail))),
            Some(Ok(_)) => match answers.code {
                None => StepView::Ask(QueryView::ComputeFuzzy { search_term, timestamp }),
                Some(Ok(code)) => StepView::Reply(
                    ResponseView::Code { account: search_term, code: code_text(code as nat) },
                ),
                Some(Err(detail)) => StepView::Reply(failure(ErrorView::Oath(detail))),
            },
        },
    }
}

/// The next step towards the response to `request`.
pub open spec fn next_step(request: RequestView, answers: AnswersView) -> StepView {
    match request {
        RequestView::AccountList => accounts_step(answers),
        RequestView::Code { account } => otp_step(account, answers),
    }
}

impl Answers {
    /// No answers yet.
    pub fn new() -> (answers: Answers)
        ensures
            answers@ == (AnswersView { now: None, store: None, credentials: None, code: None }),
    {
        Answers { now: None, store: None, credentials: None, code: None }
    }
}

/// The one-character string of a decimal digit.
fn digit_str(d: u32) -> (text: &'static str)
    requires
        d < 10,
    ensures
        text@ == seq![digit(d as nat)],
{
    proof {
        reveal_strlit("0");
        reveal_strlit("1");
        reveal_strlit("2");
        reveal_strlit("3");
        reveal_strlit("4");
        reveal_strlit("5");
        reveal_strlit("6");
        reveal_strlit("7");
        reveal_strlit("8");
        reveal_strlit("9");
    }
    let text: &'static str = if d == 0 {
        "0"
    } else if d == 1 {
        "1"
    } else if d == 2 {
        "2"
    } else if d == 3 {
        "3"
    } else if d == 4 {
        "4"
    } else if d == 5 {
        "5"
    } else if d == 6 {
        "6"
    } else if d == 7 {
        "7"
    } else if d == 8 {
        "8"
    } else {
        "9"
    };
    assert(text@ =~= seq![digit(d as nat)]);
    text
}

/// Renders a one-time password for a response.
pub fn render_code(code: u32) -> (text: String)
    ensures
        text@ == code_text(code as nat),
{
    let mut text: String = String::from_str(digit_str(code % 10));
    let mut rest: u32 = code / 10;
    while rest > 0
        invariant
            rest > 0 ==> decimal(code as nat) == decimal(rest as nat) + text@,
            rest == 0 ==> decimal(code as nat) == text@,
        decreases rest,
    {
        text = String::from_str(digit_str(rest % 10)).concat(text.as_str());
        rest = rest / 10;
    }
    let mut width: usize = text.as_str().unicode_len();
    while width < 6
        invariant
            text@.len() == width,
            width >= decimal(code as nat).len(),
            text@ == Seq::new((width - decimal(code as nat).len()) as nat, |i: int| '0') + decimal(
                code as nat,
            ),
            width > decimal(code as nat).len() ==> width <= 6,
        decreases 6 - width,
    {
        text = String::from_str("0").concat(text.as_str());
        width += 1;
        proof {
            reveal_strlit("0");
            assert(text@ =~= Seq::new((width - decimal(code as nat).len()) as nat, |i: int| '0')
                + decimal(code as nat));
        }
    }
    assert(text@ =~= code_text(code as nat));
    text
}

/// The response that reports the fault `error`: every failure of the store
/// or the engine becomes a response in this one way.
pub fn error_response(error: &Error) -> (response: Response)
    ensures
        response@ == failure(error@),
{
    Response::Error { error: error.text() }
}

/// A copy of a list of strings.
fn copy_strings(strings: &Vec<String>) -> (copy: Vec<String>)
    ensures
        texts(copy@) == texts(strings@),
{
    let mut copy: Vec<String> = Vec::new();
    let mut i: usize = 0;
    while i < strings.len()
        invariant
            i <= strings@.len(),
            copy@.len() == i,
            forall|j: int| 0 <= j < i ==> copy@[j]@ == strings@[j]@,
        decreases strings@.len() - i,
    {
        copy.push(strings[i].clone());
        i += 1;
    }
    assert(texts(copy@) =~= texts(strings@));
    copy
}

/// The next step towards the list of accounts, given what the host has
/// learnt so far.
pub fn read_accounts_list(answers: &Answers) -> (step: Step)
    ensures
        step@ == accounts_step(answers@),
{
    match &answers.store {
        None => Step::Ask(Query::Initialize),
        Some(Err(detail)) => Step::Reply(error_response(&Error::Yubikey(detail.clone()))),
        Some(Ok(_)) => match &answers.credentials {
            None => Step::Ask(Query::ListCredentials),
            Some(Ok(accounts)) => Step::Reply(
                Response::AccountList { accounts: copy_strings(accounts) },
            ),
            Some(Err(detail)) => Step::Reply(error_response(&Error::Oath(detail.clone()))),
        },
    }
}

/// The next step towards a one-time password for `search_term`, given what
/// the host has learnt so far.
pub fn read_otp(search_term: &str, answers: &Answers) -> (step: Step)
    ensures
        step@ == otp_step(search_term@, answers@),
{
    let timestamp: u64 = match answers.now {
        None => {
            return Step::Ask(Query::Now);
        },
        Some(timestamp) => timestamp,
    };
    match &answers.store {
        None => Step::Ask(Query::Initialize),
        Some(Err(detail)) => Step::Reply(error_response(&Error::Yubikey(detail.clone()))),
        Some(Ok(_)) => match &answers.code {
            None => Step::Ask(
                Query::ComputeFuzzy { search_term: search_term.to_owned(), timestamp },
            ),
            Some(Ok(code)) => Step::Reply(
                Response::Code { account: search_term.to_owned(), code: render_code(*code) },
            ),
            Some(Err(detail)) => Step::Reply(error_response(&Error::Oath(detail.clone()))),
        },
    }
}

/// The next step towards the response to `request`, given what the host
/// has learnt so far.
///
/// A host that starts from [`Answers::new`], answers each question it is
/// asked and notes the answer in its field, gets a response after at most
/// three questions.
pub fn handle_request(request: &Request, answers: &Answers) -> (step: Step)
    ensures
        step@ == next_step(request@, answers@),
{
    match request {
        Request::Code { account } => read_otp(account.as_str(), answers),
        Request::AccountList => read_accounts_list(answers),
    }
}

/// Whether the host holds the answer to a question.
pub open spec fn answered(answers: AnswersView, query: QueryView) -> bool {
    match query {
        QueryView::Now => answers.now is Some,
        QueryView::Initialize => answers.store is Some,
        QueryView::ListCredentials => answers.credentials is Some,
        QueryView::ComputeFuzzy { .. } => answers.code is Some,
    }
}

/// Whether `later` holds every answer that `earlier` holds.
pub open spec fn extends(later: AnswersView, earlier: AnswersView) -> bool {
    &&& earlier.now is Some ==> later.now == earlier.now
    &&& earlier.store is Some ==> later.store == earlier.store
    &&& earlier.credentials is Some ==> later.credentials == earlier.credentials
    &&& earlier.code is Some ==> later.code == earlier.code
}

/// A password below one million reads as exactly six decimal digits, the
/// most significant first.
pub proof fn lemma_code_text_six_digits(code: nat)
    requires
        code < 1_000_000,
    ensures
        code_text(code) == seq![
            digit(code / 100_000),
            digit(code / 10_000 % 10),
            digit(code / 1_000 % 10),
            digit(code / 100 % 10),
            digit(code / 10 % 10),
            digit(code % 10),
        ],
{
    reveal_with_fuel(decimal, 7);
    assert(code_text(code) =~= seq![
        digit(code / 100_000),
        digit(code / 10_000 % 10),
        digit(code / 1_000 % 10),
        digit(code / 100 % 10),
        digit(code / 10 % 10),
        digit(code % 10),
    ]);
}

/// A numeral has at least as many digits as a numeral of a smaller number.
proof fn lemma_decimal_len_monotonic(smaller: nat, larger: nat)
    requires
        smaller <= larger,
    ensures
        decimal(smaller).len() <= decimal(larger).len(),
    decreases larger,
{
    if larger >= 10 {
        if smaller >= 10 {
            lemma_decimal_len_monotonic(smaller / 10, larger / 10);
        }
    }
}

/// A password of six digits or more reads as its decimal numeral: nothing
/// is cut off.
pub proof fn lemma_code_text_wide(code: nat)
    requires
        code >= 100_000,
    ensures
        code_text(code) == decimal(code),
{
    reveal_with_fuel(decimal, 7);
    assert(decimal(100_000).len() == 6);
    lemma_decimal_len_monotonic(100_000, code);
}

/// The dispatcher asks only what the host does not know yet.
pub proof fn lemma_asks_what_is_unknown(request: RequestView, answers: AnswersView)
    ensures
        next_step(request, answers) matches StepView::Ask(query) ==> !answered(answers, query),
{
}

/// A response, once reached, stands: further answers do not change it.
pub proof fn lemma_reply_is_final(request: RequestView, earlier: AnswersView, later: AnswersView)
    requires
        extends(later, earlier),
        next_step(request, earlier) is Reply,
    ensures
        next_step(request, later) == next_step(request, earlier),
{
}

/// With every question answered, the step is a response: no request is
/// left without one.
pub proof fn lemma_complete_answers_reply(request: RequestView, answers: AnswersView)
    requires
        answers.now is Some,
        answers.store is Some,
        answers.credentials is Some,
        answers.code is Some,
    ensures
        next_step(request, answers) is Reply,
{
}

/// The engine is asked only of an open store, and a password is asked for
/// with the search term of the request and the time that the clock gave.
pub proof fn lemma_engine_asked_of_open_store(request: RequestView, answers: AnswersView)
    ensures
        match next_step(request, answers) {
            StepView::Ask(QueryView::ListCredentials) => {
                &&& request is AccountList
                &&& answers.store matches Some(Ok(_))
            },
            StepView::Ask(QueryView::ComputeFuzzy { search_term, timestamp }) => {
                &&& request == (RequestView::Code { account: search_term })
                &&& answers.now == Some(timestamp)
                &&& answers.store matches Some(Ok(_))
            },
            _ => true,
        },
{
}

/// A response is either the report of a failure or of the variant that the
/// request asks for, and a password is reported for the search term of the
/// request.
pub proof fn lemma_reply_fits_request(request: RequestView, answers: AnswersView)
    ensures
        next_step(request, answers) matches StepView::Reply(response) ==> match response {
            ResponseView::Error { .. } => true,
            ResponseView::AccountList { .. } => request is AccountList,
            ResponseView::Code { account, .. } => request == (RequestView::Code { account }),
        },
{
}

/// Where the store failed to open, nothing is asked of it or of the
/// engine: a response is the report of that failure and nothing else. The
/// one question that may still come is that for the time, which is read
/// before the store is opened.
pub proof fn lemma_store_failure_is_reported(
    request: RequestView,
    answers: AnswersView,
    detail: Seq<char>,
)
    requires
        answers.store == Some(Err::<(), Seq<char>>(detail)),
    ensures
        match next_step(request, answers) {
            StepView::Ask(query) => query == QueryView::Now && request is Code && answers.now
                is None,
            StepView::Reply(response) => response == (ResponseView::Error {
                error: error_text(ErrorView::Yubikey(detail)),
            }),
        },
{
}

} // verus!
