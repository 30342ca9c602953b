//! The one error type that every operation returns.

use vstd::prelude::*;

verus! {

/// Why an operation failed.
#[derive(Debug, Clone, PartialEq, Eq)]
pub enum Error {
    /// The request could not be completed; carries the transport's message.
    Transport(String),
    /// The mint answered with a well-formed error body.
    Protocol { code: u64, detail: String },
    /// The answer had neither the expected shape nor the shape of a mint
    /// error; carries the answer's text as it was received.
    Decode(String),
}

/// An [`Error`] with its strings taken as sequences of characters.
pub ghost enum ErrorView {
    Transport(Seq<char>),
    Protocol { code: u64, detail: Seq<char> },
    Decode(Seq<char>),
}

impl View for Error {
    type V = ErrorView;

    open spec fn view(&self) -> ErrorView {
        match self {
            Error::Transport(message) => ErrorView::Transport(message@),
            Error::Protocol { code, detail } => ErrorView::Protocol {
                code: *code,
                detail: detail@,
            },
            Error::Decode(text) => ErrorView::Decode(text@),
        }
    }
}

} // verus!
