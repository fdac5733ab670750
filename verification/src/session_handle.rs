//! The handle by which a Kubernetes session is closed.
use vstd::prelude::*;

verus! {

/// `tokio_util`'s cancellation token, which its clones share.
#[verifier::external_type_specification]
#[verifier::external_body]
pub struct ExCancellationToken(tokio_util::sync::CancellationToken);

/// Which cancellation a token stands for: tokens of one number are cancelled
/// together.
pub uninterp spec fn cancellation_of(token: tokio_util::sync::CancellationToken) -> int;

/// The cancellation of the token, as its owner left it, has been asked for.
/// Once asked for, a cancellation is never taken back.
pub uninterp spec fn cancel_requested(token: tokio_util::sync::CancellationToken) -> bool;

/// `tokio_util::sync::CancellationToken::new`: a token that nobody has
/// cancelled.
#[verifier::external_body]
fn new_token() -> (token: tokio_util::sync::CancellationToken)
    ensures
        !cancel_requested(token),
{
    tokio_util::sync::CancellationToken::new()
}

/// `tokio_util::sync::CancellationToken::clone`: a token for the same
/// cancellation.
#[verifier::external_body]
fn clone_token(token: &tokio_util::sync::CancellationToken) -> (copy:
    tokio_util::sync::CancellationToken)
    ensures
        cancellation_of(copy) == cancellation_of(*token),
{
    token.clone()
}

/// `tokio_util::sync::CancellationToken::cancel`: the cancellation of the token
/// has been asked for when the call returns. That every other token for the
/// same cancellation then reads as cancelled is left unsaid: those tokens are
/// in other hands.
#[verifier::external_body]
fn cancel_token(token: &mut tokio_util::sync::CancellationToken)
    ensures
        cancellation_of(*final(token)) == cancellation_of(*old(token)),
        cancel_requested(*final(token)),
{
    token.cancel()
}

/// Closes a session that is served somewhere else.
pub trait SessionHandle {
    /// The session has been told to close.
    spec fn closed(&self) -> bool;

    /// Tells the session to close.
    fn close(&mut self)
        ensures
            final(self).closed(),
    ;
}

/// Closes a Kubernetes session by cancelling the token that its requests are
/// raced against.
pub struct KubernetesSessionHandle {
    closed: tokio_util::sync::CancellationToken,
}

impl KubernetesSessionHandle {
    /// Which cancellation the handle controls.
    pub closed spec fn cancellation(&self) -> int {
        cancellation_of(self.closed)
    }

    /// The handle together with the token that it cancels on `close`, so that
    /// the requests in flight can be raced against it.
    pub fn new() -> (r: (KubernetesSessionHandle, tokio_util::sync::CancellationToken))
        ensures
            cancellation_of(r.1) == r.0.cancellation(),
            !r.0.closed(),
    {
        let closed: tokio_util::sync::CancellationToken = new_token();
        let token: tokio_util::sync::CancellationToken = clone_token(&closed);
        (KubernetesSessionHandle { closed }, token)
    }
}

impl SessionHandle for KubernetesSessionHandle {
    closed spec fn closed(&self) -> bool {
        cancel_requested(self.closed)
    }

    fn close(&mut self)
        ensures
            final(self).cancellation() == old(self).cancellation(),
    {
        cancel_token(&mut self.closed)
    }
}

} // verus!
