//! How an answer is read, whatever the operation: first as the payload
//! that the operation expects; failing that, as an error that the mint
//! reports; failing that, as something the client cannot read, handed back
//! as it came.

use vstd::prelude::*;
use crate::error::{Error, ErrorView};
use crate::json::{Json, JsonView};
use crate::schema::{mint_failure_of, read_mint_failure};

verus! {

/// The body of an answer: its text as it was received, and the JSON value
/// that the text holds.
#[derive(Debug, Clone, PartialEq, Eq)]
pub struct Body {
    pub text: String,
    pub json: Json,
}

/// What a [`Body`] holds, with its strings and vectors taken as sequences.
pub ghost struct BodyView {
    pub text: Seq<char>,
    pub json: JsonView,
}

impl View for Body {
    type V = BodyView;

    open spec fn view(&self) -> BodyView {
        BodyView { text: self.text@, json: self.json@ }
    }
}

impl DeepView for Body {
    type V = BodyView;

    open spec fn deep_view(&self) -> BodyView {
        self@
    }
}

/// What the transport hands over for a request: the body of the answer,
/// or, where the request could not be completed, the transport's message.
/// The status that came with an answer is no part of it: the protocol does
/// not tell success from failure by status, so the body alone decides.
pub type Reply = Result<Body, String>;

/// A [`Reply`] with its strings and vectors taken as sequences.
pub open spec fn reply_view(reply: Reply) -> Result<BodyView, Seq<char>> {
    match reply {
        Ok(body) => Ok(body@),
        Err(message) => Err(message@),
    }
}

/// The result of an operation with its strings and vectors taken as
/// sequences.
pub open spec fn outcome_view<T: DeepView>(outcome: Result<T, Error>) -> Result<T::V, ErrorView> {
    match outcome {
        Ok(value) => Ok(value.deep_view()),
        Err(error) => Err(error@),
    }
}

/// The error for a body that is not what the operation expects: the mint's
/// own error where the body has that shape, else the body's text.
pub open spec fn failure_of(body: BodyView) -> ErrorView {
    match mint_failure_of(body.json) {
        Some((code, detail)) => ErrorView::Protocol { code, detail },
        None => ErrorView::Decode(body.text),
    }
}

/// What an operation returns for a reply, where `shape` says which JSON
/// values stand for the payload it expects.
pub open spec fn answered<V>(
    reply: Result<BodyView, Seq<char>>,
    shape: spec_fn(JsonView) -> Option<V>,
) -> Result<V, ErrorView> {
    match reply {
        Err(message) => Err(ErrorView::Transport(message)),
        Ok(body) => match shape(body.json) {
            Some(value) => Ok(value),
            None => Err(failure_of(body)),
        },
    }
}

/// A body that has the expected shape is returned as the payload it stands
/// for, whether or not it could also be read as an error of the mint.
pub proof fn lemma_expected_shape_wins<V>(
    body: BodyView,
    shape: spec_fn(JsonView) -> Option<V>,
    value: V,
)
    requires
        shape(body.json) == Some(value),
    ensures
        answered(Ok(body), shape) == Ok::<V, ErrorView>(value),
{
}

/// A body that has only the shape of a mint's error is returned as a
/// protocol error with the mint's code and detail, unchanged.
pub proof fn lemma_mint_error_is_kept<V>(
    body: BodyView,
    shape: spec_fn(JsonView) -> Option<V>,
    code: u64,
    detail: Seq<char>,
)
    requires
        shape(body.json) is None,
        mint_failure_of(body.json) == Some((code, detail)),
    ensures
        answered(Ok(body), shape) == Err::<V, ErrorView>(ErrorView::Protocol { code, detail }),
{
}

/// A body that has neither shape is returned as a decode error that
/// carries the body's text exactly as it was received.
pub proof fn lemma_unread_body_is_kept<V>(body: BodyView, shape: spec_fn(JsonView) -> Option<V>)
    requires
        shape(body.json) is None,
        mint_failure_of(body.json) is None,
    ensures
        answered(Ok(body), shape) == Err::<V, ErrorView>(ErrorView::Decode(body.text)),
{
}

/// A request that the transport could not complete gives a transport error
/// with the transport's message, whatever shape the operation expects.
pub proof fn lemma_transport_failure_is_kept<V>(
    message: Seq<char>,
    shape: spec_fn(JsonView) -> Option<V>,
)
    ensures
        answered(Err(message), shape) == Err::<V, ErrorView>(ErrorView::Transport(message)),
{
}

/// Every reply gives either a payload or exactly one of the three kinds of
/// error, and a transport error only where the transport failed.
pub proof fn lemma_one_outcome<V>(
    reply: Result<BodyView, Seq<char>>,
    shape: spec_fn(JsonView) -> Option<V>,
)
    ensures
        answered(reply, shape) is Ok <==> reply is Ok && shape(reply->Ok_0.json) is Some,
        answered(reply, shape) matches Err(error) ==> (error is Transport <==> reply is Err),
        answered(reply, shape) matches Err(ErrorView::Protocol { code, detail }) ==> reply is Ok
            && mint_failure_of(reply->Ok_0.json) == Some((code, detail)),
        answered(reply, shape) matches Err(ErrorView::Decode(text)) ==> reply is Ok
            && mint_failure_of(reply->Ok_0.json) is None && text == reply->Ok_0.text,
{
}

/// The error for a body that is not what the operation expects.
pub fn failure(body: Body) -> (error: Error)
    ensures
        error@ == failure_of(body@),
{
    match read_mint_failure(&body.json) {
        Some((code, detail)) => Error::Protocol { code, detail },
        None => Error::Decode(body.text),
    }
}

/// Reads a reply for an operation that expects what `read` reads. This is
/// the one place where the order of the attempts is decided.
pub fn respond<T, F: Fn(&Json) -> Option<T>>(reply: Reply, read: F) -> (outcome: Result<T, Error>)
    requires
        forall|json: &Json| call_requires(read, (json,)),
    ensures
        match reply {
            Err(message) => outcome matches Err(error) && error@ == ErrorView::Transport(message@),
            Ok(body) => match outcome {
                Ok(value) => call_ensures(read, (&body.json,), Some(value)),
                Err(error) => call_ensures(read, (&body.json,), None) && error@ == failure_of(
                    body@,
                ),
            },
        },
{
    match reply {
        Err(message) => Err(Error::Transport(message)),
        Ok(body) => match read(&body.json) {
            Some(value) => Ok(value),
            None => Err(failure(body)),
        },
    }
}

} // verus!
