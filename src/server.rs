//! The server's configuration and the handle of a running server.

use crate::auth::NoAuth;
use crate::config::{default_interface_config, default_interface_spec, InterfaceConfig};
use tokio::sync::oneshot::Receiver;
use tokio_util::sync::{CancellationToken, DropGuard};
use vstd::prelude::*;

verus! {

#[verifier::external_type_specification]
#[verifier::external_body]
#[verifier::reject_recursive_types(T)]
pub struct ExReceiver<T>(tokio::sync::oneshot::Receiver<T>);

// The receiver's `Future` impl names this error type, so Verus needs it declared
// wherever the receiver is.
#[verifier::external_type_specification]
#[verifier::external_body]
pub struct ExRecvError(tokio::sync::oneshot::error::RecvError);

/// The server's configuration, gathered before it starts. Options left out take
/// their defaults when the server starts.
pub struct ServerBuilder<A = NoAuth> {
    pub cancel: Option<CancellationToken>,
    pub tun_cfg: Option<InterfaceConfig>,
    pub auth_handler: A,
}

impl ServerBuilder {
    /// A builder with no options set and no authentication.
    pub fn new() -> (r: Self)
        ensures
            r.cancel is None,
            r.tun_cfg is None,
    {
        ServerBuilder { cancel: None, tun_cfg: None, auth_handler: NoAuth }
    }
}

impl Default for ServerBuilder {
    fn default() -> (r: Self)
        ensures
            r.cancel is None,
            r.tun_cfg is None,
    {
        Self::new()
    }
}

impl<A> ServerBuilder<A> {
    /// Runs the server under `cancel`: cancelling it stops the server.
    pub fn with_cancel(self, cancel: CancellationToken) -> (r: Self)
        ensures
            r.cancel == Some(cancel),
            r.tun_cfg == self.tun_cfg,
            r.auth_handler == self.auth_handler,
    {
        ServerBuilder { cancel: Some(cancel), tun_cfg: self.tun_cfg, auth_handler: self.auth_handler }
    }

    /// Sets up the virtual interface with `tun_cfg` instead of the default addressing.
    pub fn with_tun_cfg(self, tun_cfg: InterfaceConfig) -> (r: Self)
        ensures
            r.tun_cfg == Some(tun_cfg),
            r.cancel == self.cancel,
            r.auth_handler == self.auth_handler,
    {
        ServerBuilder { cancel: self.cancel, tun_cfg: Some(tun_cfg), auth_handler: self.auth_handler }
    }

    /// Authenticates connections with `auth`, keeping the other options.
    pub fn with_auth<B>(self, auth: B) -> (r: ServerBuilder<B>)
        ensures
            r.auth_handler == auth,
            r.cancel == self.cancel,
            r.tun_cfg == self.tun_cfg,
    {
        ServerBuilder { auth_handler: auth, cancel: self.cancel, tun_cfg: self.tun_cfg }
    }

    /// The interface configuration the server starts with: the one given, or the
    /// default addressing.
    pub fn interface_config(&self) -> (r: InterfaceConfig)
        ensures
            r == match self.tun_cfg {
                Some(c) => c,
                None => default_interface_spec(),
            },
    {
        match self.tun_cfg {
            Some(c) => c,
            None => default_interface_config(),
        }
    }

    /// The root cancellation scope and the strategy, taking a fresh scope when none
    /// was given.
    pub fn into_scope_and_auth(self) -> (r: (CancellationToken, A))
        ensures
            self.cancel is Some ==> r.0 == self.cancel->Some_0,
            r.1 == self.auth_handler,
    {
        let cancel = match self.cancel {
            Some(c) => c,
            None => CancellationToken::new(),
        };
        (cancel, self.auth_handler)
    }
}

/// A running server. Dropping it cancels it, without waiting for its tasks.
pub struct Server {
    cancel: CancellationToken,
    cancel_guard: DropGuard,
    router_shutdown_rx: Receiver<Result<(), String>>,
}

impl Server {
    /// The root cancellation scope of the server.
    pub closed spec fn spec_cancel(&self) -> CancellationToken {
        self.cancel
    }

    /// The guard that cancels the root scope when dropped.
    pub closed spec fn spec_cancel_guard(&self) -> DropGuard {
        self.cancel_guard
    }

    /// The receiver of the transport shutdown's outcome.
    pub closed spec fn spec_shutdown_rx(&self) -> Receiver<Result<(), String>> {
        self.router_shutdown_rx
    }

    /// A builder with no options set and no authentication.
    pub fn builder() -> (r: ServerBuilder)
        ensures
            r.cancel is None,
            r.tun_cfg is None,
    {
        ServerBuilder::new()
    }

    /// A server stopped by `cancel`, cancelled when `cancel_guard` is dropped, whose
    /// transport shutdown reports its outcome through `router_shutdown_rx`.
    pub fn from_parts(
        cancel: CancellationToken,
        cancel_guard: DropGuard,
        router_shutdown_rx: Receiver<Result<(), String>>,
    ) -> (r: Self)
        ensures
            r.spec_cancel() == cancel,
            r.spec_cancel_guard() == cancel_guard,
            r.spec_shutdown_rx() == router_shutdown_rx,
    {
        Server { cancel, cancel_guard, router_shutdown_rx }
    }

    /// Cancels the server's tasks without waiting for them. Calling it again does nothing more.
    pub fn cancel(&mut self)
        ensures
            final(self).spec_cancel() == old(self).spec_cancel(),
            final(self).spec_cancel_guard() == old(self).spec_cancel_guard(),
            final(self).spec_shutdown_rx() == old(self).spec_shutdown_rx(),
    {
        self.cancel.cancel();
    }

    /// The receiver of the transport shutdown's outcome, to be awaited by `join`, and
    /// the guard that cancels the server when dropped, to be held while awaiting.
    pub fn into_shutdown_parts(self) -> (r: (Receiver<Result<(), String>>, DropGuard))
        ensures
            r.0 == self.spec_shutdown_rx(),
            r.1 == self.spec_cancel_guard(),
    {
        (self.router_shutdown_rx, self.cancel_guard)
    }
}

} // verus!
