//! How one HTTP exchange is judged.

use vstd::prelude::*;
use vstd::string::StringExecFns;
use serde_json::Value;
use crate::json::{json_parse, json_error_text, json_text, json_member};
use crate::json;
use crate::text::{decimal, decimal_string};

verus! {

/// The only status that carries an answer.
pub const STATUS_OK: u16 = 200;

/// The status by which a server says that it is overloaded.
pub const STATUS_TOO_MANY_REQUESTS: u16 = 429;

/// Why an exchange gave no usable answer.
#[derive(Debug)]
pub enum WebApiError {
    /// The server answered with a status other than 200.
    StatusError(u16),
    /// Anything else: no answer at all, an unreadable body, or a body that
    /// reports a failure.
    Error(String),
}

/// A `WebApiError` with its message as a sequence of characters.
pub enum WebApiErrorView {
    StatusError(u16),
    Error(Seq<char>),
}

impl View for WebApiError {
    type V = WebApiErrorView;

    open spec fn view(&self) -> WebApiErrorView {
        match self {
            WebApiError::StatusError(code) => WebApiErrorView::StatusError(*code),
            WebApiError::Error(msg) => WebApiErrorView::Error(msg@),
        }
    }
}

/// What came of sending one request.
#[derive(Debug)]
pub enum Exchange {
    /// The request failed before any answer arrived, or the answer's body
    /// could not be read; the text says why.
    Broken(String),
    /// The server answered. `body` matters only with status 200.
    Answered { status: u16, body: String },
}

/// An `Exchange` with its texts as sequences of characters.
pub enum ExchangeView {
    Broken(Seq<char>),
    Answered { status: u16, body: Seq<char> },
}

impl View for Exchange {
    type V = ExchangeView;

    open spec fn view(&self) -> ExchangeView {
        match self {
            Exchange::Broken(why) => ExchangeView::Broken(why@),
            Exchange::Answered { status, body } => ExchangeView::Answered {
                status: *status,
                body: body@,
            },
        }
    }
}

/// The outcome of an exchange: the answer's document, or the error.
pub type Outcome = Result<Value, WebApiError>;

/// An `Outcome` with its error viewed.
pub type OutcomeView = Result<Value, WebApiErrorView>;

/// The view of an outcome.
pub open spec fn outcome_view(o: Outcome) -> OutcomeView {
    match o {
        Ok(v) => Ok(v),
        Err(e) => Err(e@),
    }
}

/// Whether a document reports a failure: it has a member `"Err"`.
pub open spec fn has_err_marker(v: Value) -> bool {
    json_member(v, "Err"@) is Some
}

/// How a body that came with status 200 is judged: it must parse as JSON, and
/// the document must not report a failure.
pub open spec fn judge_body(body: Seq<char>) -> OutcomeView {
    match json_parse(body) {
        Err(e) => Err(WebApiErrorView::Error(json_error_text(e))),
        Ok(v) => if has_err_marker(v) {
            Err(WebApiErrorView::Error(json_text(v)))
        } else {
            Ok(v)
        },
    }
}

/// How an exchange is judged.
pub open spec fn judge(x: ExchangeView) -> OutcomeView {
    match x {
        ExchangeView::Broken(why) => Err(WebApiErrorView::Error(why)),
        ExchangeView::Answered { status, body } => if status != STATUS_OK {
            Err(WebApiErrorView::StatusError(status))
        } else {
            judge_body(body)
        },
    }
}

/// The message under which an error reaches the caller.
pub open spec fn error_message(e: WebApiErrorView) -> Seq<char> {
    match e {
        WebApiErrorView::StatusError(code) => "Err with code: "@ + decimal(code as nat),
        WebApiErrorView::Error(msg) => msg,
    }
}

impl WebApiError {
    /// The message under which this error reaches the caller.
    pub fn message(&self) -> (r: String)
        ensures
            r@ == error_message(self@),
    {
        match self {
            WebApiError::StatusError(code) => {
                let digits = decimal_string(*code as u64);
                String::from_str("Err with code: ").concat(digits.as_str())
            },
            WebApiError::Error(msg) => msg.clone(),
        }
    }
}

/// Whether the body of an answer with this status is read at all.
pub fn wants_body(status: u16) -> (r: bool)
    ensures
        r == (status == STATUS_OK),
{
    status == STATUS_OK
}

/// Judges a body that came with status 200.
pub fn read_body(body: &str) -> (r: Outcome)
    ensures
        outcome_view(r) == judge_body(body@),
        r is Err ==> r->Err_0 is Error,
{
    match json::parse(body) {
        Err(e) => Err(WebApiError::Error(json::error_text(&e))),
        Ok(v) => {
            if json::member(&v, "Err").is_some() {
                Err(WebApiError::Error(json::text_of(&v)))
            } else {
                Ok(v)
            }
        },
    }
}

/// The output that the result of a finished job carries: its member `"Ok"`,
/// where it has one.
pub fn ok_member(result: &Value) -> (r: Option<Value>)
    ensures
        r == json_member(*result, "Ok"@),
{
    json::member(result, "Ok")
}

/// Judges one exchange. A status other than 200 is a `StatusError` whatever
/// the body holds; with status 200 the body decides, and a document with an
/// `"Err"` member is an `Error`, never a `StatusError`.
pub fn webapi_post(exchange: Exchange) -> (r: Outcome)
    ensures
        outcome_view(r) == judge(exchange@),
{
    match exchange {
        Exchange::Broken(why) => Err(WebApiError::Error(why)),
        Exchange::Answered { status, body } => {
            if status != STATUS_OK {
                Err(WebApiError::StatusError(status))
            } else {
                read_body(body.as_str())
            }
        },
    }
}

} // verus!
