//! Authentication strategies and the handler that runs one before admission.

use crate::admission::{admission_of, exchange_on, AcceptError, ApplicationProtocol};
use crate::alpn::{alpn_of, compose_alpn};
use std::sync::Arc;
use tokio_util::sync::CancellationToken;
use vstd::prelude::*;

verus! {

/// An authentication strategy. Each strategy has its own protocol identifier: the
/// shared namespace followed by the strategy's suffix.
pub trait AuthStrategy {
    /// The suffix that identifies the strategy inside the namespace.
    spec fn suffix() -> Seq<char>;

    fn alpn_suffix() -> (r: &'static str)
        ensures
            r@ == Self::suffix(),
    ;
}

/// The strategy that accepts every connection.
#[derive(Debug, Clone, Copy, PartialEq, Eq)]
pub struct NoAuth;

impl AuthStrategy for NoAuth {
    open spec fn suffix() -> Seq<char> {
        "/noauth"@
    }

    fn alpn_suffix() -> (r: &'static str) {
        "/noauth"
    }
}

impl NoAuth {
    /// Authentication without a check: it always succeeds.
    pub fn authenticate(&self) -> (r: Result<(), String>)
        ensures
            r is Ok,
    {
        Ok(())
    }
}

/// Model of one connection attempt: on a handler whose admission flag holds
/// `has_peer`, given what authentication returned, the flag afterwards and the
/// attempt's result. In the model a refused authentication leaves the flag as it was.
/// The flag itself is an atomic with no view; the model follows `accept_authenticated`
/// and `admission_from_exchange` on the documented behaviour of the compare-and-swap.
pub open spec fn attempt(has_peer: bool, auth: Result<(), String>) -> (bool, Result<(), AcceptError>) {
    match auth {
        Err(m) => (has_peer, Err(AcceptError::AuthenticationFailed(m))),
        Ok(_) => (true, admission_of(exchange_on(has_peer))),
    }
}

/// Model of the admission flag after the attempts `attempts`, taken in the order in
/// which the compare-and-swap serialised them, starting from `has_peer`, with the
/// peer slot not released in between (as under the lifetime policy).
pub open spec fn flag_after(has_peer: bool, attempts: Seq<Result<(), String>>) -> bool
    decreases attempts.len(),
{
    if attempts.len() == 0 {
        has_peer
    } else {
        attempt(flag_after(has_peer, attempts.drop_last()), attempts.last()).0
    }
}

/// Model of the result of the `i`-th of the attempts `attempts`, starting from `has_peer`.
pub open spec fn outcome_at(has_peer: bool, attempts: Seq<Result<(), String>>, i: int) -> Result<(), AcceptError> {
    attempt(flag_after(has_peer, attempts.take(i)), attempts[i]).1
}

/// Wraps the admission handler with an authentication strategy: a connection reaches
/// admission only once the strategy has accepted it.
#[derive(Debug)]
pub struct Auth<A> {
    pub strategy: A,
    pub inner: Arc<ApplicationProtocol>,
}

impl<A: AuthStrategy> Auth<A> {
    /// The protocol identifier under which this handler is registered.
    pub fn alpn(&self) -> (r: String)
        ensures
            r@ == alpn_of(A::suffix()),
    {
        compose_alpn(A::alpn_suffix())
    }

    /// Finishes a connection attempt once authentication has returned `auth`. A
    /// refused authentication is reported as such and admission is not attempted;
    /// otherwise the admission handler decides.
    pub fn accept_authenticated(&self, auth: Result<(), String>) -> (r: Result<CancellationToken, AcceptError>)
        ensures
            auth is Err ==> r == Err::<CancellationToken, AcceptError>(
                AcceptError::AuthenticationFailed(auth->Err_0),
            ),
            auth is Ok && r is Err ==> r == Err::<CancellationToken, AcceptError>(
                AcceptError::AlreadyHavePeer,
            ),
    {
        match auth {
            Err(m) => Err(AcceptError::AuthenticationFailed(m)),
            Ok(()) => self.inner.accept_sync(),
        }
    }
}

proof fn lemma_flag_step(has_peer: bool, attempts: Seq<Result<(), String>>, i: int)
    requires
        0 <= i < attempts.len(),
    ensures
        flag_after(has_peer, attempts.take(i + 1)) == attempt(
            flag_after(has_peer, attempts.take(i)),
            attempts[i],
        ).0,
{
    assert(attempts.take(i + 1).drop_last() =~= attempts.take(i));
}

/// In the model, starting with no peer, the flag is set after the first `i` attempts
/// exactly when one of them authenticated.
pub proof fn lemma_flag_set_iff_authenticated(attempts: Seq<Result<(), String>>, i: int)
    requires
        0 <= i <= attempts.len(),
    ensures
        flag_after(false, attempts.take(i)) <==> exists|j: int| 0 <= j < i && (#[trigger] attempts[j]) is Ok,
    decreases i,
{
    if i == 0 {
        assert(attempts.take(0) =~= Seq::<Result<(), String>>::empty());
    } else {
        lemma_flag_set_iff_authenticated(attempts, i - 1);
        lemma_flag_step(false, attempts, i - 1);
        if attempts[i - 1] is Ok {
            assert(exists|j: int| 0 <= j < i && (#[trigger] attempts[j]) is Ok);
        }
        if exists|j: int| 0 <= j < i && (#[trigger] attempts[j]) is Ok {
            let j = choose|j: int| 0 <= j < i && (#[trigger] attempts[j]) is Ok;
            if j < i - 1 {
                assert(exists|k: int| 0 <= k < i - 1 && (#[trigger] attempts[k]) is Ok);
            }
        }
    }
}

/// In the model, authentication gates admission: an attempt whose authentication
/// failed leaves the modelled flag unchanged and ends with the authentication error,
/// never reaching admission.
pub proof fn lemma_auth_gating(has_peer: bool, attempts: Seq<Result<(), String>>, i: int)
    requires
        0 <= i < attempts.len(),
        attempts[i] is Err,
    ensures
        flag_after(has_peer, attempts.take(i + 1)) == flag_after(has_peer, attempts.take(i)),
        outcome_at(has_peer, attempts, i) == Err::<(), AcceptError>(
            AcceptError::AuthenticationFailed(attempts[i]->Err_0),
        ),
{
    lemma_flag_step(has_peer, attempts, i);
}

/// Exclusivity, in the model: of any sequence of authenticated attempts on a fresh
/// handler, the first is admitted and every later one is refused with
/// `AlreadyHavePeer`; the modelled flag changes once, at the first attempt, and never
/// again.
pub proof fn lemma_exclusive(attempts: Seq<Result<(), String>>)
    requires
        attempts.len() >= 1,
        forall|i: int| 0 <= i < attempts.len() ==> (#[trigger] attempts[i]) is Ok,
    ensures
        outcome_at(false, attempts, 0) is Ok,
        forall|i: int|
            1 <= i < attempts.len() ==> #[trigger] outcome_at(false, attempts, i) == Err::<(), AcceptError>(
                AcceptError::AlreadyHavePeer,
            ),
        forall|i: int| 1 <= i <= attempts.len() ==> #[trigger] flag_after(false, attempts.take(i)),
{
    assert(attempts.take(0) =~= Seq::<Result<(), String>>::empty());
    assert forall|i: int| 1 <= i <= attempts.len() implies #[trigger] flag_after(false, attempts.take(i)) by {
        lemma_flag_set_iff_authenticated(attempts, i);
        assert(attempts[0] is Ok);
    }
    assert forall|i: int| 1 <= i < attempts.len() implies #[trigger] outcome_at(false, attempts, i)
        == Err::<(), AcceptError>(AcceptError::AlreadyHavePeer) by {
        lemma_flag_set_iff_authenticated(attempts, i);
        assert(attempts[0] is Ok);
    }
}

/// In the model, of any sequence of attempts on a fresh handler, an attempt is
/// admitted exactly when it authenticated and no earlier attempt did: at most one is
/// ever admitted.
pub proof fn lemma_admitted_iff_first_authenticated(attempts: Seq<Result<(), String>>, i: int)
    requires
        0 <= i < attempts.len(),
    ensures
        outcome_at(false, attempts, i) is Ok <==> (attempts[i] is Ok && forall|j: int|
            0 <= j < i ==> (#[trigger] attempts[j]) is Err),
{
    lemma_flag_set_iff_authenticated(attempts, i);
}

} // verus!
