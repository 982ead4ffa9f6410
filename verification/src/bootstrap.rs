//! Bringing the listener up, step by step. The steps that touch the
//! machine (resolving the path, binding the addresses, serving) are done
//! by the caller; what to do next, and how each failure is classified, is
//! decided here.

use vstd::prelude::*;
use vstd::string::*;
use crate::address::SocketAddress;
use crate::announce::{announcement, is_announcement};
use crate::endpoints::{EndpointModel, ResolvedEndpoint};
use crate::errors::{ContextualError, Failure};

verus! {

/// How many seconds a listener that was told to stop has to finish the
/// work it has begun.
pub const SHUTDOWN_GRACE_SECONDS: u64 = 3;

/// Where the start of the listener stands.
#[derive(Debug)]
pub enum ListenerBootstrap {
    /// The directory to serve has to be resolved to its canonical path.
    ResolvingPath { endpoints: Vec<ResolvedEndpoint>, path: String },
    /// One listener has to be bound to all the addresses.
    Binding { endpoints: Vec<ResolvedEndpoint>, served_path: String },
    /// The listener is bound and was announced.
    Serving,
    /// The start has failed.
    Failed,
}

/// What the caller reports back.
#[derive(Debug)]
pub enum Event {
    /// The canonical path of the directory, or why there is none.
    PathResolved(Result<String, String>),
    /// That the listener is bound to all the addresses, or why it is
    /// bound to none.
    Bound(Result<(), String>),
}

/// What the caller has to do next.
#[derive(Debug)]
pub enum Action {
    /// Resolve this path to the canonical path of an existing directory,
    /// and report `PathResolved`.
    ResolvePath(String),
    /// Bind one listener to all these addresses, or to none of them, and
    /// report `Bound`.
    Bind(Vec<SocketAddress>),
    /// Show the announcement and serve; once told to stop, give the work
    /// in progress this many seconds.
    Serve { announcement: String, grace_seconds: u64 },
    /// Report the failure and give up.
    Fail(ContextualError),
    /// Nothing: the start is over.
    Done,
}

/// A stage as a value of mathematics.
pub enum BootstrapModel {
    ResolvingPath { endpoints: Seq<EndpointModel>, path: Seq<char> },
    Binding { endpoints: Seq<EndpointModel>, served_path: Seq<char> },
    Serving,
    Failed,
}

/// An event as a value of mathematics.
pub enum EventModel {
    PathResolved(Result<Seq<char>, Seq<char>>),
    Bound(Result<(), Seq<char>>),
}

/// An action as a value of mathematics.
pub enum ActionModel {
    ResolvePath(Seq<char>),
    Bind(Seq<SocketAddress>),
    Serve { announcement: Seq<char>, grace_seconds: u64 },
    Fail(Failure),
    Done,
}

impl View for ListenerBootstrap {
    type V = BootstrapModel;

    open spec fn view(&self) -> BootstrapModel {
        match *self {
            ListenerBootstrap::ResolvingPath { endpoints, path } => BootstrapModel::ResolvingPath {
                endpoints: endpoints.deep_view(),
                path: path@,
            },
            ListenerBootstrap::Binding { endpoints, served_path } => BootstrapModel::Binding {
                endpoints: endpoints.deep_view(),
                served_path: served_path@,
            },
            ListenerBootstrap::Serving => BootstrapModel::Serving,
            ListenerBootstrap::Failed => BootstrapModel::Failed,
        }
    }
}

impl View for Event {
    type V = EventModel;

    open spec fn view(&self) -> EventModel {
        match *self {
            Event::PathResolved(Ok(path)) => EventModel::PathResolved(Ok(path@)),
            Event::PathResolved(Err(cause)) => EventModel::PathResolved(Err(cause@)),
            Event::Bound(Ok(())) => EventModel::Bound(Ok(())),
            Event::Bound(Err(cause)) => EventModel::Bound(Err(cause@)),
        }
    }
}

impl View for Action {
    type V = ActionModel;

    open spec fn view(&self) -> ActionModel {
        match *self {
            Action::ResolvePath(path) => ActionModel::ResolvePath(path@),
            Action::Bind(addresses) => ActionModel::Bind(addresses@),
            Action::Serve { announcement, grace_seconds } => ActionModel::Serve {
                announcement: announcement@,
                grace_seconds,
            },
            Action::Fail(error) => ActionModel::Fail(error@),
            Action::Done => ActionModel::Done,
        }
    }
}

/// The addresses of the endpoints, in their order.
pub open spec fn addresses_of(endpoints: Seq<EndpointModel>) -> Seq<SocketAddress> {
    Seq::new(endpoints.len(), |i: int| endpoints[i].address)
}

/// What a stage waits for the caller to do.
pub open spec fn pending(stage: BootstrapModel) -> ActionModel {
    match stage {
        BootstrapModel::ResolvingPath { path, .. } => ActionModel::ResolvePath(path),
        BootstrapModel::Binding { endpoints, .. } => ActionModel::Bind(addresses_of(endpoints)),
        BootstrapModel::Serving => ActionModel::Done,
        BootstrapModel::Failed => ActionModel::Done,
    }
}

/// Whether a step from `before` on `event` may end in `after` with
/// `action`.
///
/// A resolved path leads to binding, and a bound listener to serving.
/// Either failure ends the start, with the cause in a failure of its own
/// kind; nothing is tried again and no endpoint is announced. An event
/// that does not answer what the stage waits for changes nothing, and the
/// action is asked for again. Once the start is over nothing happens any
/// more.
pub open spec fn step_allows(
    before: BootstrapModel,
    event: EventModel,
    after: BootstrapModel,
    action: ActionModel,
) -> bool {
    match (before, event) {
        (
            BootstrapModel::ResolvingPath { endpoints, path },
            EventModel::PathResolved(Ok(served_path)),
        ) => {
            &&& after == BootstrapModel::Binding { endpoints, served_path }
            &&& action == ActionModel::Bind(addresses_of(endpoints))
        },
        (BootstrapModel::ResolvingPath { .. }, EventModel::PathResolved(Err(cause))) => {
            &&& after == BootstrapModel::Failed
            &&& action == ActionModel::Fail(Failure::PathResolution(cause))
        },
        (BootstrapModel::Binding { endpoints, served_path }, EventModel::Bound(Ok(_))) => {
            &&& after == BootstrapModel::Serving
            &&& action matches ActionModel::Serve { announcement, grace_seconds }
            &&& is_announcement(announcement, served_path, endpoints)
            &&& grace_seconds == SHUTDOWN_GRACE_SECONDS
        },
        (BootstrapModel::Binding { .. }, EventModel::Bound(Err(cause))) => {
            &&& after == BootstrapModel::Failed
            &&& action == ActionModel::Fail(Failure::Bind(cause))
        },
        _ => after == before && action == pending(before),
    }
}

/// The addresses of the endpoints, in their order.
pub fn bind_addresses(endpoints: &Vec<ResolvedEndpoint>) -> (addresses: Vec<SocketAddress>)
    ensures
        addresses@ == addresses_of(endpoints.deep_view()),
{
    let mut addresses: Vec<SocketAddress> = Vec::new();
    let mut i: usize = 0;
    while i < endpoints.len()
        invariant
            i <= endpoints.len(),
            addresses@.len() == i,
            forall|j: int| 0 <= j < i ==> addresses@[j] == endpoints@[j].address,
        decreases endpoints.len() - i,
    {
        addresses.push(endpoints[i].address);
        i = i + 1;
    }
    assert(addresses@ =~= addresses_of(endpoints.deep_view()));
    addresses
}

impl ListenerBootstrap {
    /// Begins the start of a listener for `endpoints` that serves the
    /// directory `path`. The first thing to do is to resolve the path.
    pub fn begin(endpoints: Vec<ResolvedEndpoint>, path: String) -> (started: (
        ListenerBootstrap,
        Action,
    ))
        ensures
            started.0@ == (BootstrapModel::ResolvingPath {
                endpoints: endpoints.deep_view(),
                path: path@,
            }),
            started.1@ == ActionModel::ResolvePath(path@),
    {
        let action = Action::ResolvePath(path.clone());
        (ListenerBootstrap::ResolvingPath { endpoints, path }, action)
    }

    /// What this stage waits for the caller to do.
    pub fn pending_action(&self) -> (action: Action)
        ensures
            action@ == pending(self@),
    {
        match self {
            ListenerBootstrap::ResolvingPath { path, .. } => Action::ResolvePath(path.clone()),
            ListenerBootstrap::Binding { endpoints, .. } => Action::Bind(bind_addresses(endpoints)),
            ListenerBootstrap::Serving => Action::Done,
            ListenerBootstrap::Failed => Action::Done,
        }
    }

    /// Takes one step: from this stage, on what the caller reports, to
    /// the next stage and what to do there. See `step_allows`.
    pub fn step(self, event: Event) -> (next: (ListenerBootstrap, Action))
        ensures
            step_allows(self@, event@, next.0@, next.1@),
    {
        match self {
            ListenerBootstrap::ResolvingPath { endpoints, path } => match event {
                Event::PathResolved(Ok(served_path)) => {
                    let action = Action::Bind(bind_addresses(&endpoints));
                    (ListenerBootstrap::Binding { endpoints, served_path }, action)
                },
                Event::PathResolved(Err(cause)) => (
                    ListenerBootstrap::Failed,
                    Action::Fail(ContextualError::PathResolutionError(cause)),
                ),
                Event::Bound(_) => {
                    let action = Action::ResolvePath(path.clone());
                    (ListenerBootstrap::ResolvingPath { endpoints, path }, action)
                },
            },
            ListenerBootstrap::Binding { endpoints, served_path } => match event {
                Event::Bound(Ok(_)) => {
                    let announcement = announcement(served_path.as_str(), &endpoints);
                    (
                        ListenerBootstrap::Serving,
                        Action::Serve { announcement, grace_seconds: SHUTDOWN_GRACE_SECONDS },
                    )
                },
                Event::Bound(Err(cause)) => (
                    ListenerBootstrap::Failed,
                    Action::Fail(ContextualError::BindError(cause)),
                ),
                Event::PathResolved(_) => {
                    let action = Action::Bind(bind_addresses(&endpoints));
                    (ListenerBootstrap::Binding { endpoints, served_path }, action)
                },
            },
            ListenerBootstrap::Serving => (ListenerBootstrap::Serving, Action::Done),
            ListenerBootstrap::Failed => (ListenerBootstrap::Failed, Action::Done),
        }
    }
}

} // verus!
