//! Single-peer admission: the compare-and-swap that lets exactly one connection in.

use std::sync::atomic::{AtomicBool, Ordering};
use tokio_util::sync::CancellationToken;
use vstd::prelude::*;

verus! {

/// Why an inbound connection was not handed a tunnel session.
#[derive(Debug, PartialEq, Eq)]
pub enum AcceptError {
    /// The authentication strategy refused the connection; holds its reason.
    AuthenticationFailed(String),
    /// Another peer was admitted earlier; the tunnel serves one peer only.
    AlreadyHavePeer,
}

impl AcceptError {
    /// A human-readable description of the error.
    pub fn message(&self) -> (r: String)
        ensures
            r@ == accept_error_message(*self),
    {
        match self {
            AcceptError::AuthenticationFailed(_) => "error during authentication".to_owned(),
            AcceptError::AlreadyHavePeer => "already have a peer".to_owned(),
        }
    }
}

pub open spec fn accept_error_message(e: AcceptError) -> Seq<char> {
    match e {
        AcceptError::AuthenticationFailed(_) => "error during authentication"@,
        AcceptError::AlreadyHavePeer => "already have a peer"@,
    }
}

/// What `compare_exchange(false, true)` returns on a flag that holds `has_peer`:
/// the previous value, as `Ok` when the swap was made and as `Err` when it was not.
pub open spec fn exchange_on(has_peer: bool) -> Result<bool, bool> {
    if has_peer {
        Err(true)
    } else {
        Ok(false)
    }
}

/// The admission decision for the outcome of the compare-and-swap.
pub open spec fn admission_of(exchange: Result<bool, bool>) -> Result<(), AcceptError> {
    match exchange {
        Ok(_) => Ok(()),
        Err(_) => Err(AcceptError::AlreadyHavePeer),
    }
}

/// Turns the outcome of the compare-and-swap on the admission flag into an admission
/// decision: a connection is admitted exactly when its swap from "no peer" was made.
pub fn admission_from_exchange(exchange: Result<bool, bool>) -> (r: Result<(), AcceptError>)
    ensures
        r == admission_of(exchange),
{
    match exchange {
        Ok(_) => Ok(()),
        Err(_) => Err(AcceptError::AlreadyHavePeer),
    }
}

/// Whether the handler may admit a new peer once the admitted one has gone.
#[derive(Debug, Clone, Copy, PartialEq, Eq)]
pub enum PeerPolicy {
    /// One peer for the handler's whole lifetime: the slot is never freed.
    Lifetime,
    /// One peer at a time: the slot is freed when the admitted peer's session ends.
    OneAtATime,
}

/// The tunnel session admission handler: admits the first connection that reaches it
/// and refuses every other one while its peer slot is taken. Under the default
/// policy the slot is taken for the handler's whole lifetime.
#[derive(Debug)]
pub struct ApplicationProtocol {
    cancel: CancellationToken,
    has_peer: AtomicBool,
    policy: PeerPolicy,
}

impl ApplicationProtocol {
    /// The policy the handler was made with.
    pub closed spec fn spec_policy(&self) -> PeerPolicy {
        self.policy
    }

    /// The scope under which the handler runs its sessions.
    pub closed spec fn spec_cancel(&self) -> CancellationToken {
        self.cancel
    }

    /// A handler that has admitted no peer yet, whose sessions run under `cancel`, and
    /// that admits one peer for its whole lifetime.
    pub fn new(cancel: CancellationToken) -> (r: Self)
        ensures
            r.spec_policy() == PeerPolicy::Lifetime,
            r.spec_cancel() == cancel,
    {
        ApplicationProtocol { cancel, has_peer: AtomicBool::new(false), policy: PeerPolicy::Lifetime }
    }

    /// A handler that has admitted no peer yet, whose sessions run under `cancel`, with
    /// the given policy.
    pub fn with_policy(cancel: CancellationToken, policy: PeerPolicy) -> (r: Self)
        ensures
            r.spec_policy() == policy,
            r.spec_cancel() == cancel,
    {
        ApplicationProtocol { cancel, has_peer: AtomicBool::new(false), policy }
    }

    /// The policy the handler was made with.
    pub fn policy(&self) -> (r: PeerPolicy)
        ensures
            r == self.spec_policy(),
    {
        self.policy
    }

    /// Called when the admitted peer's session has ended: frees the peer slot when the
    /// policy allows one peer at a time, and does nothing under the lifetime policy.
    /// Returns whether the slot was freed.
    pub fn release_peer(&self) -> (r: bool)
        ensures
            r <==> self.spec_policy() == PeerPolicy::OneAtATime,
    {
        match self.policy {
            PeerPolicy::Lifetime => false,
            PeerPolicy::OneAtATime => {
                self.has_peer.store(false, Ordering::SeqCst);
                true
            }
        }
    }

    /// Attempts to admit a connection. On admission, returns the cancellation scope
    /// for its forwarding task, a child of the handler's own scope; otherwise the
    /// connection is refused because a peer was admitted before.
    pub fn accept_sync(&self) -> (r: Result<CancellationToken, AcceptError>)
        ensures
            r is Err ==> r == Err::<CancellationToken, AcceptError>(AcceptError::AlreadyHavePeer),
    {
        let exchange = self.has_peer.compare_exchange(false, true, Ordering::SeqCst, Ordering::SeqCst);
        match admission_from_exchange(exchange) {
            Ok(()) => Ok(self.cancel.child_token()),
            Err(e) => Err(e),
        }
    }
}

} // verus!
