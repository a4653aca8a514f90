//! What is decided when a request is done.
//!
//! The transaction of a request is committed when the response is neither a
//! client error nor a server error. Otherwise it is left to be dropped, which
//! rolls it back.

use crate::extension::Extension;
use vstd::prelude::*;

verus! {

/// The status is a client error: one of 400 to 499.
pub open spec fn spec_is_client_error(status: u16) -> bool {
    400 <= status < 500
}

/// The status is a server error: one of 500 to 599.
pub open spec fn spec_is_server_error(status: u16) -> bool {
    500 <= status < 600
}

/// A response with this status has its transaction committed.
pub open spec fn spec_commits(status: u16) -> bool {
    !spec_is_server_error(status) && !spec_is_client_error(status)
}

/// Whether the status is a client error.
#[verifier::when_used_as_spec(spec_is_client_error)]
pub fn is_client_error(status: u16) -> (client_error: bool)
    ensures
        client_error == spec_is_client_error(status),
{
    400 <= status && status < 500
}

/// Whether the status is a server error.
#[verifier::when_used_as_spec(spec_is_server_error)]
pub fn is_server_error(status: u16) -> (server_error: bool)
    ensures
        server_error == spec_is_server_error(status),
{
    500 <= status && status < 600
}

/// Whether the transaction of a request is committed, given the status of
/// the response.
#[verifier::when_used_as_spec(spec_commits)]
pub fn commits(status: u16) -> (commit: bool)
    ensures
        commit == spec_commits(status),
{
    !is_server_error(status) && !is_client_error(status)
}

/// What to answer a request with, once its transaction is dealt with.
#[derive(Debug)]
pub enum Reply<E> {
    /// The response as it came.
    Forward,
    /// An error response in its place: the commit failed, so what the
    /// response reports did not happen.
    Fail { error: E },
}

/// Ends a request: hands out the transaction that is to be committed, given
/// the status of the response.
///
/// Nothing is handed out for a status that does not commit. What the request
/// was bound to is gone afterwards, and with it a transaction that was not
/// handed out.
pub fn conclude<P, R>(extension: Extension<P, R>, status: u16) -> (tx: Option<R>)
    ensures
        !commits(status) ==> tx is None,
{
    if commits(status) {
        let mut extension = extension;
        extension.resolve()
    } else {
        None
    }
}

/// Decides the answer from how the commit went. Where there was nothing to
/// commit, `committed` is `Ok`.
pub fn reply<E>(committed: Result<(), E>) -> (reply: Reply<E>)
    ensures
        reply == (match committed {
            Ok(_) => Reply::Forward,
            Err(error) => Reply::Fail { error },
        }),
{
    match committed {
        Ok(()) => Reply::Forward,
        Err(error) => Reply::Fail { error },
    }
}

} // verus!
