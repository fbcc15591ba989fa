use ptunp::admission::{admission_from_exchange, AcceptError, ApplicationProtocol, PeerPolicy};
use ptunp::auth::{Auth, NoAuth};
use std::sync::Arc;
use tokio_util::sync::CancellationToken;

fn runtime() -> tokio::runtime::Runtime {
    tokio::runtime::Builder::new_multi_thread().worker_threads(4).enable_all().build().unwrap()
}

#[test]
fn first_peer_admitted_second_rejected() {
    let handler = ApplicationProtocol::new(CancellationToken::new());
    assert!(handler.accept_sync().is_ok());
    assert_eq!(handler.accept_sync().err(), Some(AcceptError::AlreadyHavePeer));
    assert_eq!(handler.accept_sync().err(), Some(AcceptError::AlreadyHavePeer));
}

#[test]
fn exactly_one_of_concurrent_attempts_is_admitted() {
    let rt = runtime();
    let handler = Arc::new(ApplicationProtocol::new(CancellationToken::new()));
    let admitted = rt.block_on(async {
        let mut tasks = Vec::new();
        for _ in 0..64 {
            let h = handler.clone();
            tasks.push(tokio::task::spawn(async move { h.accept_sync() }));
        }
        let mut admitted = 0;
        for t in tasks {
            match t.await.unwrap() {
                Ok(_) => admitted += 1,
                Err(e) => assert_eq!(e, AcceptError::AlreadyHavePeer),
            }
        }
        admitted
    });
    assert_eq!(admitted, 1);
    assert_eq!(handler.accept_sync().err(), Some(AcceptError::AlreadyHavePeer));
}

#[test]
fn exchange_outcome_decides_admission() {
    assert_eq!(admission_from_exchange(Ok(false)), Ok(()));
    assert_eq!(admission_from_exchange(Err(true)), Err(AcceptError::AlreadyHavePeer));
}

#[test]
fn failed_authentication_never_reaches_admission() {
    let handler = Auth { strategy: NoAuth, inner: Arc::new(ApplicationProtocol::new(CancellationToken::new())) };
    let refused = handler.accept_authenticated(Err("bad token".to_string()));
    assert_eq!(refused.err(), Some(AcceptError::AuthenticationFailed("bad token".to_string())));
    let refused_again = handler.accept_authenticated(Err("expired".to_string()));
    assert_eq!(refused_again.err(), Some(AcceptError::AuthenticationFailed("expired".to_string())));
    // the admission flag is untouched: the first authenticated peer is still admitted
    assert!(handler.accept_authenticated(Ok(())).is_ok());
    assert_eq!(handler.accept_authenticated(Ok(())).err(), Some(AcceptError::AlreadyHavePeer));
}

#[test]
fn accept_error_messages() {
    assert_eq!(AcceptError::AlreadyHavePeer.message(), "already have a peer");
    assert_eq!(AcceptError::AuthenticationFailed("x".to_string()).message(), "error during authentication");
}

#[test]
fn cancelling_root_reaches_session_scope() {
    let root = CancellationToken::new();
    let handler = ApplicationProtocol::new(root.child_token());
    let session = handler.accept_sync().unwrap();
    assert!(!session.is_cancelled());
    root.cancel();
    assert!(session.is_cancelled());
}

#[test]
fn blocked_session_ends_promptly_on_cancel() {
    let rt = runtime();
    let root = CancellationToken::new();
    let handler = ApplicationProtocol::new(root.child_token());
    let session = handler.accept_sync().unwrap();
    rt.block_on(async move {
        let task = tokio::task::spawn(async move {
            let _guard = session.clone().drop_guard();
            let blocked_io = Box::pin(std::future::pending::<()>());
            let cancelled = Box::pin(session.cancelled());
            match futures::future::select(blocked_io, cancelled).await {
                futures::future::Either::Left(_) => unreachable!(),
                futures::future::Either::Right(_) => {}
            }
        });
        root.cancel();
        task.await.unwrap();
    });
}

#[test]
fn lifetime_policy_never_frees_the_slot() {
    let handler = ApplicationProtocol::new(CancellationToken::new());
    assert_eq!(handler.policy(), PeerPolicy::Lifetime);
    assert!(handler.accept_sync().is_ok());
    assert!(!handler.release_peer());
    assert_eq!(handler.accept_sync().err(), Some(AcceptError::AlreadyHavePeer));
}

#[test]
fn one_at_a_time_policy_frees_the_slot() {
    let handler = ApplicationProtocol::with_policy(CancellationToken::new(), PeerPolicy::OneAtATime);
    assert_eq!(handler.policy(), PeerPolicy::OneAtATime);
    assert!(handler.accept_sync().is_ok());
    assert_eq!(handler.accept_sync().err(), Some(AcceptError::AlreadyHavePeer));
    assert!(handler.release_peer());
    assert!(handler.accept_sync().is_ok());
    assert_eq!(handler.accept_sync().err(), Some(AcceptError::AlreadyHavePeer));
}
