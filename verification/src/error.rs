//! What can go wrong, by kind.
use vstd::prelude::*;

verus! {

/// The base URL handed to the client is not one it can send requests to.
#[derive(Clone, Copy, Debug, PartialEq, Eq, Structural)]
pub struct ConfigError;

/// Why a fetch from the Engine gave no value.
#[derive(Clone, Copy, Debug, PartialEq, Eq, Structural)]
pub enum FetchError {
    /// No response came back: the Engine could not be reached, the request
    /// timed out, or the body broke off.
    Transport,
    /// The Engine answered with a status outside 200..=299.
    Upstream { status: u16 },
    /// The body is not JSON, or not of the shape asked for.
    Decode,
}

/// Why a page could not be produced.
#[derive(Clone, Copy, Debug, PartialEq, Eq, Structural)]
pub enum PageError {
    /// The fetch behind the page failed.
    Fetch(FetchError),
    /// The template is missing or could not be rendered.
    Template,
}

/// The HTTP status that stands for an error towards the dashboard's own
/// client: 502 for a transport or an upstream error, 500 for a decode or a
/// template error.
pub open spec fn status_of(error: PageError) -> u16 {
    match error {
        PageError::Fetch(FetchError::Transport) => 502,
        PageError::Fetch(FetchError::Upstream { .. }) => 502,
        PageError::Fetch(FetchError::Decode) => 500,
        PageError::Template => 500,
    }
}

/// What to tell the dashboard's own client about an error.
pub open spec fn message_of(error: PageError) -> Seq<char> {
    match error {
        PageError::Fetch(FetchError::Transport) => "The Docker Engine could not be reached."@,
        PageError::Fetch(FetchError::Upstream { .. }) => {
            "The Docker Engine answered with an error."@
        },
        PageError::Fetch(FetchError::Decode) => {
            "The Docker Engine sent an answer that could not be read."@
        },
        PageError::Template => "The page could not be rendered."@,
    }
}

impl PageError {
    /// The text to answer with.
    pub fn message(&self) -> (text: &'static str)
        ensures
            text@ == message_of(*self),
    {
        match self {
            PageError::Fetch(FetchError::Transport) => "The Docker Engine could not be reached.",
            PageError::Fetch(FetchError::Upstream { .. }) => {
                "The Docker Engine answered with an error."
            },
            PageError::Fetch(FetchError::Decode) => {
                "The Docker Engine sent an answer that could not be read."
            },
            PageError::Template => "The page could not be rendered.",
        }
    }

    /// The HTTP status to answer with.
    pub fn status(&self) -> (code: u16)
        ensures
            code == status_of(*self),
    {
        match self {
            PageError::Fetch(FetchError::Transport) => 502,
            PageError::Fetch(FetchError::Upstream { .. }) => 502,
            PageError::Fetch(FetchError::Decode) => 500,
            PageError::Template => 500,
        }
    }
}

} // verus!
