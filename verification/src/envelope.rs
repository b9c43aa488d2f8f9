//! The uniform envelope in which every reply travels.

use vstd::prelude::*;
use crate::error::{ApiErrorView, STATUS_OK};

verus! {

/// The payload of a successful reply: the text to show.
#[derive(Debug)]
pub struct TextOut {
    pub text: String,
}

impl View for TextOut {
    type V = Seq<char>;

    open spec fn view(&self) -> Seq<char> {
        self.text@
    }
}

/// The envelope: a success flag, and either a payload or an error message.
#[derive(Debug)]
pub struct ApiResp<T> {
    pub ok: bool,
    pub data: Option<T>,
    pub error: Option<String>,
}

impl<T> ApiResp<T> {
    /// A success carries a payload and no error; a failure carries an error
    /// and no payload.
    pub open spec fn well_formed(&self) -> bool {
        if self.ok {
            self.data is Some && self.error is None
        } else {
            self.data is None && self.error is Some
        }
    }
}

/// An envelope together with the HTTP status under which it is sent.
#[derive(Debug)]
pub struct Reply<T> {
    pub status: u16,
    pub body: ApiResp<T>,
}

/// Mathematical value of a reply whose payload is text.
pub struct ReplyView {
    pub status: u16,
    pub ok: bool,
    pub text: Option<Seq<char>>,
    pub error: Option<Seq<char>>,
}

impl ReplyView {
    /// The reply that carries `text` as its payload.
    pub open spec fn success(text: Seq<char>) -> ReplyView {
        ReplyView { status: STATUS_OK, ok: true, text: Some(text), error: None }
    }

    /// The reply that reports a failure under `status` with `message`.
    pub open spec fn failure(status: u16, message: Seq<char>) -> ReplyView {
        ReplyView { status, ok: false, text: None, error: Some(message) }
    }

    /// The reply that reports `error`, under the status of its kind.
    pub open spec fn of_error(error: ApiErrorView) -> ReplyView {
        ReplyView::failure(error.status(), error.message())
    }

    /// The reply that stands for a result: the text as payload, or the
    /// error.
    pub open spec fn of_result(result: Result<Seq<char>, ApiErrorView>) -> ReplyView {
        match result {
            Ok(text) => ReplyView::success(text),
            Err(error) => ReplyView::of_error(error),
        }
    }

    /// A success carries a payload and no error; a failure carries an error
    /// and no payload.
    pub open spec fn well_formed(self) -> bool {
        if self.ok {
            self.text is Some && self.error is None
        } else {
            self.text is None && self.error is Some
        }
    }
}

impl View for Reply<TextOut> {
    type V = ReplyView;

    open spec fn view(&self) -> ReplyView {
        ReplyView {
            status: self.status,
            ok: self.body.ok,
            text: match self.body.data {
                Some(data) => Some(data@),
                None => None,
            },
            error: match self.body.error {
                Some(message) => Some(message@),
                None => None,
            },
        }
    }
}

/// The reply that carries `data` as its payload, under status 200.
pub fn ok<T>(data: T) -> (r: Reply<T>)
    ensures
        r.status == STATUS_OK,
        r.body.ok,
        r.body.data == Some(data),
        r.body.error is None,
        r.body.well_formed(),
{
    Reply { status: STATUS_OK, body: ApiResp { ok: true, data: Some(data), error: None } }
}

/// The reply that reports a failure under `status`, with `message` as the
/// error and no payload.
pub fn err<T>(status: u16, message: String) -> (r: Reply<T>)
    ensures
        r.status == status,
        !r.body.ok,
        r.body.data is None,
        r.body.error == Some(message),
        r.body.well_formed(),
{
    Reply { status, body: ApiResp { ok: false, data: None, error: Some(message) } }
}

} // verus!
