//! The data model: team records as the directory reports them, the fully
//! assembled team entity shown to the user, and the single classified error
//! that every failure of the search pipeline collapses into.

use vstd::prelude::*;

verus! {

/// One entry of the team directory: the fields the remote stats service
/// reports for every team.
#[derive(Debug, Clone, PartialEq)]
pub struct TeamRecord {
    pub id: u32,
    pub name: String,
    pub active: bool,
}

/// A fully assembled search result. `image` is the name of the cache file
/// that backs the team's logo; the unverified shell resolves it under the
/// platform's temporary directory and loads the vector image from it.
#[derive(Debug, Clone, PartialEq)]
pub struct Team {
    pub number: u32,
    pub name: String,
    pub active: bool,
    pub image: String,
}

/// The underlying causes a search can fail with. The presentation layer
/// never distinguishes them: `classify` collapses them all.
#[derive(Debug, Clone, Copy, PartialEq, Eq, Structural)]
pub enum FailureKind {
    Transport,
    MalformedRequest,
    UnreadableResponse,
    WriteFailed,
}

/// The one error kind surfaced to the presentation layer.
#[derive(Debug, Clone, Copy, PartialEq, Eq, Structural)]
pub enum Error {
    APIError,
}

/// Every failure cause is collapsed into the single classified error.
pub fn classify(kind: FailureKind) -> (e: Error)
    ensures
        e == Error::APIError,
{
    match kind {
        FailureKind::Transport => Error::APIError,
        FailureKind::MalformedRequest => Error::APIError,
        FailureKind::UnreadableResponse => Error::APIError,
        FailureKind::WriteFailed => Error::APIError,
    }
}

} // verus!
