//! What a request is answered with: a status and a body.

use vstd::prelude::*;

verus! {

/// Status of an answer that carries what was asked for.
pub const STATUS_OK: u16 = 200;

/// Status of an answer to a request for a record that does not exist.
pub const STATUS_NOT_FOUND: u16 = 404;

/// The answer to a request.
#[derive(Debug, PartialEq, Eq)]
pub enum Reply<T> {
    /// Success. The value is the body, to be sent as JSON.
    Json(T),
    /// No record has the requested key. The text is the body, sent as it is.
    NotFound(String),
}

/// What a `Reply` holds.
pub enum ReplyView<V> {
    Json(V),
    NotFound(Seq<char>),
}

impl<V> ReplyView<V> {
    /// The status that goes with the answer.
    pub open spec fn status(self) -> int {
        match self {
            ReplyView::Json(_) => STATUS_OK as int,
            ReplyView::NotFound(_) => STATUS_NOT_FOUND as int,
        }
    }
}

impl<T: DeepView> View for Reply<T> {
    type V = ReplyView<T::V>;

    open spec fn view(&self) -> ReplyView<T::V> {
        match self {
            Reply::Json(value) => ReplyView::Json(value.deep_view()),
            Reply::NotFound(text) => ReplyView::NotFound(text@),
        }
    }
}

impl<T: DeepView> DeepView for Reply<T> {
    type V = ReplyView<T::V>;

    open spec fn deep_view(&self) -> ReplyView<T::V> {
        self@
    }
}

impl<T> Reply<T> {
    /// The status that goes with the answer.
    pub fn status(&self) -> (s: u16)
        ensures
            s == if self is Json {
                STATUS_OK
            } else {
                STATUS_NOT_FOUND
            },
    {
        match self {
            Reply::Json(_) => STATUS_OK,
            Reply::NotFound(_) => STATUS_NOT_FOUND,
        }
    }
}

} // verus!
