use vstd::prelude::*;

verus! {

/// The kinds of failure that a command can report.
#[derive(Clone, Copy, Debug, PartialEq, Eq, Structural)]
pub enum ErrorKind {
    /// Reading or writing a local file failed.
    IoError,
    /// The session store could not be opened or used.
    SessionStoreError,
    /// The protocol client, its sync engine or one of its services failed.
    ProtocolError,
    /// A value could not be encoded or decoded.
    SerializationError,
    /// The protocol client could not be built.
    ClientBuildError,
    /// A feed identifier is not well formed.
    InvalidIdentifier,
    /// The poll was cancelled before a patch arrived.
    Cancelled,
    /// A feed identifier does not resolve to a known feed.
    NotFound,
    /// The feed kind already has a live subscription.
    AlreadySubscribed,
    /// The feed kind has no live subscription.
    NotSubscribed,
    /// The feed's patch source has ended.
    StreamTerminated,
    /// A session is already established.
    AlreadyLoggedIn,
}

} // verus!
