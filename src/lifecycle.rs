//! The decisions of the server's start, of its sessions' end and of its shutdown.
//! The caller performs each action and reports what came of it.

use vstd::prelude::*;

verus! {

/// Code with which a connection is closed when its session failed on our side.
pub const INTERNAL_ERROR_CODE: u32 = 500;

/// Why the server could not start.
#[derive(Debug, PartialEq, Eq)]
pub enum StartupError {
    /// The virtual interface could not be created; holds the system's reason.
    InterfaceCreation(String),
    /// The transport endpoint could not be bound; holds its reason.
    EndpointBind(String),
}

impl StartupError {
    /// What failed, in words.
    pub fn message(&self) -> (r: String)
        ensures
            r@ == startup_error_message(*self),
    {
        match self {
            StartupError::InterfaceCreation(_) => "failed to create tun network device".to_owned(),
            StartupError::EndpointBind(_) => "failed to bind iroh endpoint".to_owned(),
        }
    }

    /// What the user may do about it, if anything.
    pub fn suggestion(&self) -> (r: Option<String>)
        ensures
            self is InterfaceCreation <==> r is Some,
            r is Some ==> r->Some_0@ == "try running as root on linux"@,
    {
        match self {
            StartupError::InterfaceCreation(_) => Some("try running as root on linux".to_owned()),
            StartupError::EndpointBind(_) => None,
        }
    }
}

pub open spec fn startup_error_message(e: StartupError) -> Seq<char> {
    match e {
        StartupError::InterfaceCreation(_) => "failed to create tun network device"@,
        StartupError::EndpointBind(_) => "failed to bind iroh endpoint"@,
    }
}

/// Where the start of the server stands. It begins in `CreatingInterface`.
#[derive(Debug, Clone, Copy, PartialEq, Eq)]
pub enum Startup {
    CreatingInterface,
    BindingEndpoint,
    Registering,
    Running,
    Failed,
}

/// What the caller reports after performing the last action.
#[derive(Debug, PartialEq, Eq)]
pub enum StartupEvent {
    InterfaceCreated,
    InterfaceFailed(String),
    EndpointBound,
    EndpointFailed(String),
    Registered,
}

/// What the caller is to do next.
#[derive(Debug, PartialEq, Eq)]
pub enum StartupAction {
    /// Bind the transport endpoint.
    BindEndpoint,
    /// Build the handlers, register them under their identifier and start the router.
    RegisterHandler,
    /// Spawn the task that shuts the transport down once the root scope is cancelled.
    SpawnSupervisor,
    /// Give up and report the error to the caller of `build`.
    Fail(StartupError),
    /// Nothing: the event does not belong to this stage.
    Ignore,
}

/// The next stage and action after `event` in stage `state`.
pub open spec fn startup_next(state: Startup, event: StartupEvent) -> (Startup, StartupAction) {
    match (state, event) {
        (Startup::CreatingInterface, StartupEvent::InterfaceCreated) => (Startup::BindingEndpoint, StartupAction::BindEndpoint),
        (Startup::CreatingInterface, StartupEvent::InterfaceFailed(m)) => (Startup::Failed, StartupAction::Fail(StartupError::InterfaceCreation(m))),
        (Startup::BindingEndpoint, StartupEvent::EndpointBound) => (Startup::Registering, StartupAction::RegisterHandler),
        (Startup::BindingEndpoint, StartupEvent::EndpointFailed(m)) => (Startup::Failed, StartupAction::Fail(StartupError::EndpointBind(m))),
        (Startup::Registering, StartupEvent::Registered) => (Startup::Running, StartupAction::SpawnSupervisor),
        (s, _) => (s, StartupAction::Ignore),
    }
}

/// Advances the start of the server by one event.
pub fn startup_step(state: Startup, event: StartupEvent) -> (r: (Startup, StartupAction))
    ensures
        r == startup_next(state, event),
{
    match (state, event) {
        (Startup::CreatingInterface, StartupEvent::InterfaceCreated) => (Startup::BindingEndpoint, StartupAction::BindEndpoint),
        (Startup::CreatingInterface, StartupEvent::InterfaceFailed(m)) => (Startup::Failed, StartupAction::Fail(StartupError::InterfaceCreation(m))),
        (Startup::BindingEndpoint, StartupEvent::EndpointBound) => (Startup::Registering, StartupAction::RegisterHandler),
        (Startup::BindingEndpoint, StartupEvent::EndpointFailed(m)) => (Startup::Failed, StartupAction::Fail(StartupError::EndpointBind(m))),
        (Startup::Registering, StartupEvent::Registered) => (Startup::Running, StartupAction::SpawnSupervisor),
        (s, _) => (s, StartupAction::Ignore),
    }
}

/// The stage after the events `events`, starting from `state`.
pub open spec fn startup_after(state: Startup, events: Seq<StartupEvent>) -> Startup
    decreases events.len(),
{
    if events.len() == 0 {
        state
    } else {
        startup_next(startup_after(state, events.drop_last()), events.last()).0
    }
}

/// The action answered to the `i`-th of the events `events`, starting from `state`.
pub open spec fn startup_action_at(state: Startup, events: Seq<StartupEvent>, i: int) -> StartupAction {
    startup_next(startup_after(state, events.take(i)), events[i]).1
}

proof fn lemma_failed_stays(events: Seq<StartupEvent>, i: int)
    requires
        1 <= i <= events.len(),
        events[0] is InterfaceFailed,
    ensures
        startup_after(Startup::CreatingInterface, events.take(i)) == Startup::Failed,
    decreases i,
{
    if i == 1 {
        assert(events.take(1).drop_last() =~= Seq::<StartupEvent>::empty());
        assert(events.take(1).last() == events[0]);
        assert(startup_after(Startup::CreatingInterface, events.take(1).drop_last()) == Startup::CreatingInterface);
        assert(startup_next(Startup::CreatingInterface, events[0]).0 == Startup::Failed);
    } else {
        lemma_failed_stays(events, i - 1);
        assert(events.take(i).drop_last() =~= events.take(i - 1));
        assert(events.take(i).last() == events[i - 1]);
        assert(startup_next(Startup::Failed, events[i - 1]).0 == Startup::Failed);
    }
}

/// A failed interface creation ends the start: the error is reported at once, and
/// whatever is reported afterwards, no endpoint is bound, nothing is registered and
/// no task is spawned.
pub proof fn lemma_interface_failure_stops_startup(events: Seq<StartupEvent>)
    requires
        events.len() >= 1,
        events[0] is InterfaceFailed,
    ensures
        startup_action_at(Startup::CreatingInterface, events, 0) == StartupAction::Fail(
            StartupError::InterfaceCreation(events[0]->InterfaceFailed_0),
        ),
        forall|i: int| 1 <= i < events.len() ==> #[trigger] startup_action_at(Startup::CreatingInterface, events, i) == StartupAction::Ignore,
        startup_after(Startup::CreatingInterface, events) == Startup::Failed,
{
    assert(events.take(0) =~= Seq::<StartupEvent>::empty());
    assert forall|i: int| 1 <= i < events.len() implies #[trigger] startup_action_at(Startup::CreatingInterface, events, i) == StartupAction::Ignore by {
        lemma_failed_stays(events, i);
    }
    lemma_failed_stays(events, events.len() as int);
    assert(events.take(events.len() as int) =~= events);
}

/// How a connection is closed: a numeric code and a reason.
#[derive(Debug, PartialEq, Eq)]
pub struct CloseRequest {
    pub code: u32,
    pub reason: String,
}

/// Decides, once a forwarding task has ended with `outcome`, whether its connection
/// is to be closed from our side: only when the task failed, with the internal error
/// code.
pub fn close_after_session(outcome: &Result<(), String>) -> (r: Option<CloseRequest>)
    ensures
        outcome is Ok <==> r is None,
        r is Some ==> r->Some_0.code == INTERNAL_ERROR_CODE && r->Some_0.reason@ == "internal server error"@,
{
    match outcome {
        Ok(()) => None,
        Err(_) => Some(CloseRequest { code: INTERNAL_ERROR_CODE, reason: "internal server error".to_owned() }),
    }
}

/// Why waiting for the server to stop failed.
#[derive(Debug, PartialEq, Eq)]
pub enum JoinError {
    /// The task that shuts the transport down ended without reporting.
    ShutdownTaskPanicked,
    /// The transport reported a failed shutdown; holds its reason.
    ShutdownFailed(String),
}

impl JoinError {
    /// What failed, in words.
    pub fn message(&self) -> (r: String)
        ensures
            r@ == match *self {
                JoinError::ShutdownTaskPanicked => "router shutdown task panicked"@,
                JoinError::ShutdownFailed(_) => "failed to shutdown router properly"@,
            },
    {
        match self {
            JoinError::ShutdownTaskPanicked => "router shutdown task panicked".to_owned(),
            JoinError::ShutdownFailed(_) => "failed to shutdown router properly".to_owned(),
        }
    }
}

/// The outcome of `join`, from what the shutdown channel delivered: `None` when the
/// sender was dropped without sending, else the transport's shutdown result.
pub fn join_outcome(received: Option<Result<(), String>>) -> (r: Result<(), JoinError>)
    ensures
        r == match received {
            None => Err(JoinError::ShutdownTaskPanicked),
            Some(Ok(())) => Ok(()),
            Some(Err(m)) => Err(JoinError::ShutdownFailed(m)),
        },
{
    match received {
        None => Err(JoinError::ShutdownTaskPanicked),
        Some(Ok(())) => Ok(()),
        Some(Err(m)) => Err(JoinError::ShutdownFailed(m)),
    }
}

} // verus!
