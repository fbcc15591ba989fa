use ptunp::admission::{AcceptError, ApplicationProtocol};
use ptunp::config::{default_interface_config, InterfaceConfig, OUR_IP, THEIR_IP};
use ptunp::lifecycle::{
    close_after_session, join_outcome, startup_step, JoinError, Startup, StartupAction, StartupError, StartupEvent,
    INTERNAL_ERROR_CODE,
};
use ptunp::server::{Server, ServerBuilder};
use ptunp::auth::NoAuth;
use tokio_util::sync::CancellationToken;

#[test]
fn default_interface_addressing() {
    let cfg = default_interface_config();
    assert_eq!(cfg.address, [10, 0, 0, 0]);
    assert_eq!(cfg.destination, [10, 0, 0, 1]);
    assert_eq!(cfg.netmask, [255, 255, 255, 254]);
    assert!(cfg.up);
    assert_eq!(OUR_IP, [10, 0, 0, 0]);
    assert_eq!(THEIR_IP, [10, 0, 0, 1]);
}

#[test]
fn builder_options() {
    let b = Server::builder();
    assert!(b.cancel.is_none() && b.tun_cfg.is_none());
    assert_eq!(b.interface_config(), default_interface_config());
    let custom = InterfaceConfig { address: [192, 168, 7, 1], destination: [192, 168, 7, 2], netmask: [255, 255, 255, 252], up: false };
    let b = ServerBuilder::default().with_tun_cfg(custom).with_auth(NoAuth);
    assert_eq!(b.interface_config(), custom);
    let token = CancellationToken::new();
    let b = b.with_cancel(token.clone());
    let (scope, auth) = b.into_scope_and_auth();
    assert_eq!(auth, NoAuth);
    token.cancel();
    assert!(scope.is_cancelled());
}

#[test]
fn builder_without_scope_gets_fresh_one() {
    let (scope, _) = ServerBuilder::new().into_scope_and_auth();
    assert!(!scope.is_cancelled());
}

#[test]
fn startup_happy_path() {
    let (s, a) = startup_step(Startup::CreatingInterface, StartupEvent::InterfaceCreated);
    assert_eq!((s, a), (Startup::BindingEndpoint, StartupAction::BindEndpoint));
    let (s, a) = startup_step(s, StartupEvent::EndpointBound);
    assert_eq!((s, a), (Startup::Registering, StartupAction::RegisterHandler));
    let (s, a) = startup_step(s, StartupEvent::Registered);
    assert_eq!((s, a), (Startup::Running, StartupAction::SpawnSupervisor));
}

#[test]
fn startup_fails_when_interface_cannot_be_created() {
    let (s, a) = startup_step(Startup::CreatingInterface, StartupEvent::InterfaceFailed("permission denied".to_string()));
    assert_eq!(s, Startup::Failed);
    let err = StartupError::InterfaceCreation("permission denied".to_string());
    assert_eq!(err.message(), "failed to create tun network device");
    assert_eq!(err.suggestion(), Some("try running as root on linux".to_string()));
    assert_eq!(a, StartupAction::Fail(err));
    // nothing is bound or spawned afterwards
    let (s, a) = startup_step(s, StartupEvent::EndpointBound);
    assert_eq!((s, a), (Startup::Failed, StartupAction::Ignore));
    let (s, a) = startup_step(s, StartupEvent::Registered);
    assert_eq!((s, a), (Startup::Failed, StartupAction::Ignore));
}

#[test]
fn startup_fails_when_endpoint_cannot_bind() {
    let (s, _) = startup_step(Startup::CreatingInterface, StartupEvent::InterfaceCreated);
    let (s, a) = startup_step(s, StartupEvent::EndpointFailed("address in use".to_string()));
    assert_eq!(s, Startup::Failed);
    let err = StartupError::EndpointBind("address in use".to_string());
    assert_eq!(err.message(), "failed to bind iroh endpoint");
    assert_eq!(err.suggestion(), None);
    assert_eq!(a, StartupAction::Fail(err));
}

#[test]
fn out_of_order_event_is_ignored() {
    let (s, a) = startup_step(Startup::CreatingInterface, StartupEvent::Registered);
    assert_eq!((s, a), (Startup::CreatingInterface, StartupAction::Ignore));
}

#[test]
fn failed_session_closes_with_internal_error() {
    assert_eq!(close_after_session(&Ok(())), None);
    let close = close_after_session(&Err("tun read failed".to_string())).unwrap();
    assert_eq!(close.code, 500);
    assert_eq!(INTERNAL_ERROR_CODE, 500);
    assert_eq!(close.reason, "internal server error");
}

#[test]
fn join_outcomes() {
    assert_eq!(join_outcome(Some(Ok(()))), Ok(()));
    assert_eq!(join_outcome(None), Err(JoinError::ShutdownTaskPanicked));
    assert_eq!(join_outcome(Some(Err("x".to_string()))), Err(JoinError::ShutdownFailed("x".to_string())));
    assert_eq!(JoinError::ShutdownTaskPanicked.message(), "router shutdown task panicked");
    assert_eq!(JoinError::ShutdownFailed("x".to_string()).message(), "failed to shutdown router properly");
}

fn running_server(rt: &tokio::runtime::Runtime) -> (Server, ApplicationProtocol) {
    let root = CancellationToken::new();
    let guard = root.clone().drop_guard();
    let (tx, rx) = tokio::sync::oneshot::channel::<Result<(), String>>();
    let supervisor_scope = root.child_token();
    rt.spawn(async move {
        supervisor_scope.cancelled().await;
        let _ = tx.send(Ok(()));
    });
    let handler = ApplicationProtocol::new(root.child_token());
    (Server::from_parts(root, guard, rx), handler)
}

#[test]
fn happy_path_cancel_then_join_succeeds() {
    let rt = tokio::runtime::Builder::new_multi_thread().enable_all().build().unwrap();
    let (mut server, handler) = running_server(&rt);
    let session = handler.accept_sync().unwrap();
    assert_eq!(handler.accept_sync().err(), Some(AcceptError::AlreadyHavePeer));
    server.cancel();
    assert!(session.is_cancelled());
    let (rx, _guard) = server.into_shutdown_parts();
    let received = rt.block_on(rx).ok();
    assert_eq!(join_outcome(received), Ok(()));
}

#[test]
fn cancel_twice_is_harmless() {
    let rt = tokio::runtime::Builder::new_multi_thread().enable_all().build().unwrap();
    let (mut server, handler) = running_server(&rt);
    server.cancel();
    server.cancel();
    assert!(handler.accept_sync().unwrap().is_cancelled());
    let (rx, _guard) = server.into_shutdown_parts();
    assert_eq!(join_outcome(rt.block_on(rx).ok()), Ok(()));
}

#[test]
fn dropping_server_cancels() {
    let rt = tokio::runtime::Builder::new_multi_thread().enable_all().build().unwrap();
    let (server, handler) = running_server(&rt);
    let session = handler.accept_sync().unwrap();
    drop(server);
    assert!(session.is_cancelled());
}
