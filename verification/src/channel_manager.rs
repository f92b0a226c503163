//! The lifecycle of the channel manager: what is built, in which order, and
//! what a failure along the way means.
//!
//! The chain monitor, the routing graph, the scorer, the router and the
//! channel engine are built by the caller, who alone can reach the disk and
//! the engine. The manager keeps them, says which one is to be built next,
//! and decides what a read that failed means: a graph or a scorer that
//! cannot be read is replaced by a fresh one, a manager snapshot that cannot
//! be read ends the restart.
//!
//! A run begins with `start`, `restart` or `network_graph`, each of which
//! gives the first order. The caller performs the order and hands its
//! report to `resume`, which gives the next order, until the order is
//! `Ready` or the run has failed.

use crate::error::{outcome_view, Error, ErrorView};
use crate::model::{LampoConf, Network};
use bitcoin::BlockHash;
use vstd::prelude::*;
use vstd::string::StringExecFns;

verus! {

/// The tip of the chain that a fresh channel engine starts from.
#[derive(Debug, PartialEq, Eq)]
pub struct BestBlock {
    pub block_hash: BlockHash,
    pub height: u32,
}

/// The chain that a fresh channel engine is built for.
#[derive(Debug, PartialEq, Eq)]
pub struct ChainParameters {
    pub network: Network,
    pub best_block: BestBlock,
}

/// The graph, the scorer over it and the router over both: they exist
/// together or not at all.
#[derive(Debug, PartialEq, Eq)]
pub struct Routing<G, S, R> {
    pub graph: G,
    pub scorer: S,
    pub router: R,
}

/// What is being worked towards.
#[derive(Debug, PartialEq, Eq)]
pub enum Goal {
    /// The router alone.
    Router,
    /// A fresh channel engine at the given chain tip and time.
    Start { params: ChainParameters, timestamp: u32 },
    /// The channel engine of the last run, restored from its snapshot.
    Restart,
}

/// The order that is outstanding, with what was built for the router so far.
#[derive(Debug, PartialEq, Eq)]
pub enum Stage<G, S> {
    Idle,
    BuildingMonitor { goal: Goal },
    ReadingGraph { goal: Goal },
    CreatingGraph { goal: Goal },
    ReadingScorer { goal: Goal, graph: G },
    CreatingScorer { goal: Goal, graph: G },
    DerivingRouter { goal: Goal, graph: G, scorer: S },
    ReadingMonitors,
    RestoringManager,
    BuildingManager,
}

/// What the caller is to do next.
#[derive(Debug, PartialEq, Eq)]
pub enum Order {
    /// Build a chain monitor: it is built anew in every run.
    BuildMonitor,
    /// Read the routing graph at the graph path.
    ReadGraph,
    /// Make an empty routing graph for the network.
    CreateGraph { network: Network },
    /// Read the scorer at the scorer path, against the pending graph.
    ReadScorer,
    /// Make a scorer over the pending graph with the default decay
    /// parameters.
    CreateScorer,
    /// Derive the router from the pending graph, the pending scorer and a
    /// fresh random seed.
    DeriveRouter,
    /// Read every persisted channel monitor.
    ReadMonitors,
    /// Read the snapshot at the manager path and restore the channel engine
    /// from it, with the chain monitor, the router and the channel monitors.
    RestoreManager,
    /// Build a fresh channel engine, with the chain monitor and the router.
    BuildManager { params: ChainParameters, timestamp: u32 },
    /// Nothing is left to do.
    Ready,
}

/// Why no channel engine came out of the snapshot.
#[derive(Debug, Clone, PartialEq, Eq)]
pub enum SnapshotFailure {
    /// The snapshot could not be opened.
    Missing(String),
    /// The snapshot could not be decoded.
    Corrupt(String),
}

/// What came of the order that was outstanding. A graph or a scorer that is
/// absent or unreadable is reported as `None`. Whatever the order was, the
/// caller may report that it lacks what the order needs: the key source, the
/// chain backend.
#[derive(Debug, PartialEq, Eq)]
pub enum Report<M, G, S, R, C> {
    Unavailable(String),
    MonitorBuilt(M),
    GraphRead(Option<G>),
    GraphCreated(G),
    ScorerRead(Option<S>),
    ScorerCreated(S),
    RouterDerived(R),
    MonitorsRead(Result<(), String>),
    ManagerRestored(Result<C, SnapshotFailure>),
    ManagerBuilt(C),
}

/// Which of the parts exist.
#[derive(Debug, Clone, Copy, PartialEq, Eq)]
pub struct Readiness {
    pub monitor: bool,
    pub router: bool,
    pub manager: bool,
    pub handler: bool,
}

/// The channel manager as contracts speak of it.
pub struct Lifecycle<M, G, S, R, C, H> {
    pub network: Network,
    pub path: Seq<char>,
    pub monitor: Option<M>,
    pub routing: Option<Routing<G, S, R>>,
    pub channeld: Option<C>,
    pub handler: Option<H>,
    pub stage: Stage<G, S>,
}

/// Where the routing graph is kept, under the storage root.
pub open spec fn graph_path(root: Seq<char>) -> Seq<char> {
    root + "/network_graph"@
}

/// Where the scorer is kept, under the storage root.
pub open spec fn scorer_path(root: Seq<char>) -> Seq<char> {
    root + "/scorer"@
}

/// Where the snapshot of the channel engine is kept, under the storage root.
pub open spec fn snapshot_path(root: Seq<char>) -> Seq<char> {
    root + "/manager"@
}

impl<G, S> Stage<G, S> {
    /// Whether the router is being put together.
    pub open spec fn routes(self) -> bool {
        self is ReadingGraph || self is CreatingGraph || self is ReadingScorer
            || self is CreatingScorer || self is DerivingRouter
    }

    /// Whether a fresh channel engine is being worked towards.
    pub open spec fn starting(self) -> bool {
        self is BuildingManager || ((self is BuildingMonitor || self.routes())
            && self.goal() is Start)
    }

    /// Whether the channel engine of the last run is being worked towards.
    pub open spec fn restarting(self) -> bool {
        self is ReadingMonitors || self is RestoringManager || ((self is BuildingMonitor
            || self.routes()) && self.goal() is Restart)
    }

    /// The graph that the router is being put together from, once there is
    /// one.
    pub open spec fn graph(self) -> Option<G> {
        match self {
            Stage::ReadingScorer { graph, .. } => Some(graph),
            Stage::CreatingScorer { graph, .. } => Some(graph),
            Stage::DerivingRouter { graph, .. } => Some(graph),
            _ => None,
        }
    }

    /// The scorer that the router is being put together from, once there is
    /// one.
    pub open spec fn scorer(self) -> Option<S> {
        match self {
            Stage::DerivingRouter { scorer, .. } => Some(scorer),
            _ => None,
        }
    }

    /// What the chain monitor or the router is being built for.
    pub open spec fn goal(self) -> Goal {
        match self {
            Stage::BuildingMonitor { goal } => goal,
            Stage::ReadingGraph { goal } => goal,
            Stage::CreatingGraph { goal } => goal,
            Stage::ReadingScorer { goal, .. } => goal,
            Stage::CreatingScorer { goal, .. } => goal,
            Stage::DerivingRouter { goal, .. } => goal,
            _ => Goal::Router,
        }
    }
}

impl<M, G, S, R, C, H> Lifecycle<M, G, S, R, C, H> {
    /// A channel engine never exists without the chain monitor and the
    /// router that it was built with; the router is put together only while
    /// there is none; and a start or restart has its chain monitor before it
    /// turns to the router or to the engine. This holds of a new manager and
    /// keeps holding whatever is done with it.
    pub open spec fn wf(self) -> bool {
        &&& self.channeld is Some ==> self.monitor is Some && self.routing is Some
        &&& self.stage.routes() ==> self.routing is None
        &&& self.stage.routes() && !(self.stage.goal() is Router) ==> self.monitor is Some
        &&& self.stage is ReadingMonitors || self.stage is RestoringManager
            || self.stage is BuildingManager ==> self.monitor is Some && self.routing is Some
    }

    /// What follows once the router is there.
    pub open spec fn proceed(self, goal: Goal) -> (Self, Result<Order, ErrorView>) {
        match goal {
            Goal::Router => (Lifecycle { stage: Stage::Idle, ..self }, Ok(Order::Ready)),
            Goal::Start { params, timestamp } => (
                Lifecycle { stage: Stage::BuildingManager, ..self },
                Ok(Order::BuildManager { params, timestamp }),
            ),
            Goal::Restart => (
                Lifecycle { stage: Stage::ReadingMonitors, ..self },
                Ok(Order::ReadMonitors),
            ),
        }
    }

    /// The manager after a report, and the next order or the failure that
    /// ends the run. A report that answers no outstanding order changes
    /// nothing.
    pub open spec fn step(self, report: Report<M, G, S, R, C>) -> (Self, Result<Order, ErrorView>) {
        match (self.stage, report) {
            (Stage::Idle, _) => (self, Err(ErrorView::OutOfTurn)),
            (_, Report::Unavailable(reason)) => (
                Lifecycle { stage: Stage::Idle, ..self },
                Err(ErrorView::Unavailable { reason: reason@ }),
            ),
            (Stage::BuildingMonitor { goal }, Report::MonitorBuilt(monitor)) => {
                let watched = Lifecycle { monitor: Some(monitor), ..self };
                if self.routing is Some {
                    watched.proceed(goal)
                } else {
                    (
                        Lifecycle { stage: Stage::ReadingGraph { goal }, ..watched },
                        Ok(Order::ReadGraph),
                    )
                }
            },
            (Stage::ReadingGraph { goal }, Report::GraphRead(Some(graph))) => (
                Lifecycle { stage: Stage::ReadingScorer { goal, graph }, ..self },
                Ok(Order::ReadScorer),
            ),
            (Stage::ReadingGraph { goal }, Report::GraphRead(None)) => (
                Lifecycle { stage: Stage::CreatingGraph { goal }, ..self },
                Ok(Order::CreateGraph { network: self.network }),
            ),
            (Stage::CreatingGraph { goal }, Report::GraphCreated(graph)) => (
                Lifecycle { stage: Stage::ReadingScorer { goal, graph }, ..self },
                Ok(Order::ReadScorer),
            ),
            (Stage::ReadingScorer { goal, graph }, Report::ScorerRead(Some(scorer))) => (
                Lifecycle { stage: Stage::DerivingRouter { goal, graph, scorer }, ..self },
                Ok(Order::DeriveRouter),
            ),
            (Stage::ReadingScorer { goal, graph }, Report::ScorerRead(None)) => (
                Lifecycle { stage: Stage::CreatingScorer { goal, graph }, ..self },
                Ok(Order::CreateScorer),
            ),
            (Stage::CreatingScorer { goal, graph }, Report::ScorerCreated(scorer)) => (
                Lifecycle { stage: Stage::DerivingRouter { goal, graph, scorer }, ..self },
                Ok(Order::DeriveRouter),
            ),
            (Stage::DerivingRouter { goal, graph, scorer }, Report::RouterDerived(router)) => {
                let routed = Lifecycle { routing: Some(Routing { graph, scorer, router }), ..self };
                routed.proceed(goal)
            },
            (Stage::ReadingMonitors, Report::MonitorsRead(Ok(_))) => (
                Lifecycle { stage: Stage::RestoringManager, ..self },
                Ok(Order::RestoreManager),
            ),
            (Stage::ReadingMonitors, Report::MonitorsRead(Err(reason))) => (
                Lifecycle { stage: Stage::Idle, ..self },
                Err(ErrorView::MonitorStore { reason: reason@ }),
            ),
            (Stage::RestoringManager, Report::ManagerRestored(Ok(manager))) => (
                Lifecycle { channeld: Some(manager), stage: Stage::Idle, ..self },
                Ok(Order::Ready),
            ),
            (
                Stage::RestoringManager,
                Report::ManagerRestored(Err(SnapshotFailure::Missing(reason))),
            ) => (
                Lifecycle { stage: Stage::Idle, ..self },
                Err(ErrorView::SnapshotMissing { path: snapshot_path(self.path), reason: reason@ }),
            ),
            (
                Stage::RestoringManager,
                Report::ManagerRestored(Err(SnapshotFailure::Corrupt(reason))),
            ) => (
                Lifecycle { stage: Stage::Idle, ..self },
                Err(ErrorView::SnapshotCorrupt { path: snapshot_path(self.path), reason: reason@ }),
            ),
            (Stage::BuildingManager, Report::ManagerBuilt(manager)) => (
                Lifecycle { channeld: Some(manager), stage: Stage::Idle, ..self },
                Ok(Order::Ready),
            ),
            _ => (self, Err(ErrorView::OutOfTurn)),
        }
    }

    /// The manager after it was asked for the router: a router that exists
    /// is used as it is, and nothing is read; else the graph is read first.
    pub open spec fn want_router(self) -> (Self, Order) {
        if self.routing is Some {
            (self, Order::Ready)
        } else {
            (
                Lifecycle { stage: Stage::ReadingGraph { goal: Goal::Router }, ..self },
                Order::ReadGraph,
            )
        }
    }

    /// The manager after it was told to work towards a fresh or a restored
    /// channel engine: either begins with a new chain monitor.
    pub open spec fn set_out(self, goal: Goal) -> (Self, Order) {
        (Lifecycle { stage: Stage::BuildingMonitor { goal }, ..self }, Order::BuildMonitor)
    }
}

/// The channel manager. `M` is the chain monitor, `G` the routing graph, `S`
/// the scorer, `R` the router, `C` the channel engine and `H` the event
/// handler of the node.
pub struct LampoChannelManager<M, G, S, R, C, H> {
    conf: LampoConf,
    monitor: Option<M>,
    routing: Option<Routing<G, S, R>>,
    channeld: Option<C>,
    handler: Option<H>,
    stage: Stage<G, S>,
}

impl<M, G, S, R, C, H> View for LampoChannelManager<M, G, S, R, C, H> {
    type V = Lifecycle<M, G, S, R, C, H>;

    closed spec fn view(&self) -> Lifecycle<M, G, S, R, C, H> {
        Lifecycle {
            network: self.conf.network,
            path: self.conf.path@,
            monitor: self.monitor,
            routing: self.routing,
            channeld: self.channeld,
            handler: self.handler,
            stage: self.stage,
        }
    }
}

impl<M, G, S, R, C, H> LampoChannelManager<M, G, S, R, C, H> {
    /// A manager of which nothing is built yet.
    pub fn new(conf: LampoConf) -> (manager: Self)
        ensures
            manager@ == (Lifecycle::<M, G, S, R, C, H> {
                network: conf.network,
                path: conf.path@,
                monitor: None,
                routing: None,
                channeld: None,
                handler: None,
                stage: Stage::Idle,
            }),
            manager@.wf(),
    {
        LampoChannelManager {
            conf,
            monitor: None,
            routing: None,
            channeld: None,
            handler: None,
            stage: Stage::Idle,
        }
    }

    /// Which of the parts exist.
    pub fn readiness(&self) -> (ready: Readiness)
        ensures
            ready.monitor == self@.monitor is Some,
            ready.router == self@.routing is Some,
            ready.manager == self@.channeld is Some,
            ready.handler == self@.handler is Some,
    {
        Readiness {
            monitor: self.monitor.is_some(),
            router: self.routing.is_some(),
            manager: self.channeld.is_some(),
            handler: self.handler.is_some(),
        }
    }

    /// Writes the handler slot. The slot is written once: a second write is
    /// refused and changes nothing.
    pub fn set_handler(&mut self, handler: H) -> (done: Result<(), Error>)
        ensures
            old(self)@.handler is None ==> done is Ok && final(self)@ == (Lifecycle {
                handler: Some(handler),
                ..old(self)@
            }),
            old(self)@.handler is Some ==> done == Err::<(), Error>(Error::HandlerAlreadySet)
                && final(self)@ == old(self)@,
            old(self)@.wf() ==> final(self)@.wf(),
    {
        if self.handler.is_some() {
            Err(Error::HandlerAlreadySet)
        } else {
            self.handler = Some(handler);
            Ok(())
        }
    }

    /// The event handler of the node.
    pub fn handler(&self) -> (handler: &H)
        requires
            self@.handler is Some,
        ensures
            self@.handler == Some(*handler),
    {
        self.handler.as_ref().unwrap()
    }

    /// The chain monitor of this run.
    pub fn chain_monitor(&self) -> (monitor: &M)
        requires
            self@.monitor is Some,
        ensures
            self@.monitor == Some(*monitor),
    {
        self.monitor.as_ref().unwrap()
    }

    /// The channel engine.
    pub fn manager(&self) -> (manager: &C)
        requires
            self@.channeld is Some,
        ensures
            self@.channeld == Some(*manager),
    {
        self.channeld.as_ref().unwrap()
    }

    /// The routing graph.
    pub fn graph(&self) -> (graph: &G)
        requires
            self@.routing is Some,
        ensures
            self@.routing->0.graph == *graph,
    {
        &self.routing.as_ref().unwrap().graph
    }

    /// The scorer.
    pub fn scorer(&self) -> (scorer: &S)
        requires
            self@.routing is Some,
        ensures
            self@.routing->0.scorer == *scorer,
    {
        &self.routing.as_ref().unwrap().scorer
    }

    /// The router.
    pub fn router(&self) -> (router: &R)
        requires
            self@.routing is Some,
        ensures
            self@.routing->0.router == *router,
    {
        &self.routing.as_ref().unwrap().router
    }

    /// The graph of the router that is being put together: the one to read
    /// the scorer against and to derive the router from.
    pub fn pending_graph(&self) -> (graph: Option<&G>)
        ensures
            match graph {
                Some(held) => self@.stage.graph() == Some(*held),
                None => self@.stage.graph() is None,
            },
    {
        match &self.stage {
            Stage::ReadingScorer { graph, .. } => Some(graph),
            Stage::CreatingScorer { graph, .. } => Some(graph),
            Stage::DerivingRouter { graph, .. } => Some(graph),
            _ => None,
        }
    }

    /// The scorer of the router that is being put together: the one to
    /// derive the router from.
    pub fn pending_scorer(&self) -> (scorer: Option<&S>)
        ensures
            match scorer {
                Some(held) => self@.stage.scorer() == Some(*held),
                None => self@.stage.scorer() is None,
            },
    {
        match &self.stage {
            Stage::DerivingRouter { scorer, .. } => Some(scorer),
            _ => None,
        }
    }

    /// The path of the routing graph.
    pub fn network_graph_path(&self) -> (path: String)
        ensures
            path@ == graph_path(self@.path),
    {
        self.conf.path.clone().concat("/network_graph")
    }

    /// The path of the scorer.
    pub fn scorer_path(&self) -> (path: String)
        ensures
            path@ == scorer_path(self@.path),
    {
        self.conf.path.clone().concat("/scorer")
    }

    /// The path of the snapshot of the channel engine. A node restarts if
    /// and only if there is a file at this path.
    pub fn manager_path(&self) -> (path: String)
        ensures
            path@ == snapshot_path(self@.path),
    {
        self.conf.path.clone().concat("/manager")
    }

    /// Asks for the router. Where it exists nothing changes and nothing is
    /// to be read; where it does not, the graph is to be read first, and a
    /// run that was under way is given up.
    pub fn network_graph(&mut self) -> (order: Order)
        requires
            old(self)@.wf(),
        ensures
            (final(self)@, order) == old(self)@.want_router(),
            final(self)@.wf(),
    {
        if self.routing.is_some() {
            Order::Ready
        } else {
            self.stage = Stage::ReadingGraph { goal: Goal::Router };
            Order::ReadGraph
        }
    }

    /// Sets out for a fresh channel engine at the given chain tip. A run
    /// that was under way is given up.
    pub fn start(&mut self, block: BlockHash, height: u32, block_timestamp: u32) -> (order: Order)
        requires
            old(self)@.wf(),
        ensures
            (final(self)@, order) == old(self)@.set_out(
                Goal::Start {
                    params: ChainParameters {
                        network: old(self)@.network,
                        best_block: BestBlock { block_hash: block, height },
                    },
                    timestamp: block_timestamp,
                },
            ),
            final(self)@.wf(),
    {
        let params = ChainParameters {
            network: self.conf.network,
            best_block: BestBlock { block_hash: block, height },
        };
        self.stage = Stage::BuildingMonitor {
            goal: Goal::Start { params, timestamp: block_timestamp },
        };
        Order::BuildMonitor
    }

    /// Sets out for the channel engine of the last run. A run that was
    /// under way is given up.
    pub fn restart(&mut self) -> (order: Order)
        requires
            old(self)@.wf(),
        ensures
            (final(self)@, order) == old(self)@.set_out(Goal::Restart),
            final(self)@.wf(),
    {
        self.stage = Stage::BuildingMonitor { goal: Goal::Restart };
        Order::BuildMonitor
    }

    /// What follows once the router is there.
    fn proceed(&mut self, goal: Goal) -> (next: Result<Order, Error>)
        ensures
            (final(self)@, outcome_view(next)) == old(self)@.proceed(goal),
    {
        match goal {
            Goal::Router => {
                self.stage = Stage::Idle;
                Ok(Order::Ready)
            },
            Goal::Start { params, timestamp } => {
                self.stage = Stage::BuildingManager;
                Ok(Order::BuildManager { params, timestamp })
            },
            Goal::Restart => {
                self.stage = Stage::ReadingMonitors;
                Ok(Order::ReadMonitors)
            },
        }
    }

    /// Takes the report of the outstanding order and says what comes next.
    pub fn resume(&mut self, report: Report<M, G, S, R, C>) -> (next: Result<Order, Error>)
        requires
            old(self)@.wf(),
        ensures
            (final(self)@, outcome_view(next)) == old(self)@.step(report),
            final(self)@.wf(),
    {
        let mut stage = Stage::Idle;
        core::mem::swap(&mut self.stage, &mut stage);
        let report = match report {
            Report::Unavailable(reason) => {
                return match stage {
                    Stage::Idle => Err(Error::OutOfTurn),
                    _ => Err(Error::Unavailable { reason }),
                };
            },
            other => other,
        };
        match stage {
            Stage::BuildingMonitor { goal } => match report {
                Report::MonitorBuilt(monitor) => {
                    self.monitor = Some(monitor);
                    if self.routing.is_some() {
                        self.proceed(goal)
                    } else {
                        self.stage = Stage::ReadingGraph { goal };
                        Ok(Order::ReadGraph)
                    }
                },
                _ => {
                    self.stage = Stage::BuildingMonitor { goal };
                    Err(Error::OutOfTurn)
                },
            },
            Stage::ReadingGraph { goal } => match report {
                Report::GraphRead(Some(graph)) => {
                    self.stage = Stage::ReadingScorer { goal, graph };
                    Ok(Order::ReadScorer)
                },
                Report::GraphRead(None) => {
                    self.stage = Stage::CreatingGraph { goal };
                    Ok(Order::CreateGraph { network: self.conf.network })
                },
                _ => {
                    self.stage = Stage::ReadingGraph { goal };
                    Err(Error::OutOfTurn)
                },
            },
            Stage::CreatingGraph { goal } => match report {
                Report::GraphCreated(graph) => {
                    self.stage = Stage::ReadingScorer { goal, graph };
                    Ok(Order::ReadScorer)
                },
                _ => {
                    self.stage = Stage::CreatingGraph { goal };
                    Err(Error::OutOfTurn)
                },
            },
            Stage::ReadingScorer { goal, graph } => match report {
                Report::ScorerRead(Some(scorer)) => {
                    self.stage = Stage::DerivingRouter { goal, graph, scorer };
                    Ok(Order::DeriveRouter)
                },
                Report::ScorerRead(None) => {
                    self.stage = Stage::CreatingScorer { goal, graph };
                    Ok(Order::CreateScorer)
                },
                _ => {
                    self.stage = Stage::ReadingScorer { goal, graph };
                    Err(Error::OutOfTurn)
                },
            },
            Stage::CreatingScorer { goal, graph } => match report {
                Report::ScorerCreated(scorer) => {
                    self.stage = Stage::DerivingRouter { goal, graph, scorer };
                    Ok(Order::DeriveRouter)
                },
                _ => {
                    self.stage = Stage::CreatingScorer { goal, graph };
                    Err(Error::OutOfTurn)
                },
            },
            Stage::DerivingRouter { goal, graph, scorer } => match report {
                Report::RouterDerived(router) => {
                    self.routing = Some(Routing { graph, scorer, router });
                    self.proceed(goal)
                },
                _ => {
                    self.stage = Stage::DerivingRouter { goal, graph, scorer };
                    Err(Error::OutOfTurn)
                },
            },
            Stage::ReadingMonitors => match report {
                Report::MonitorsRead(Ok(_)) => {
                    self.stage = Stage::RestoringManager;
                    Ok(Order::RestoreManager)
                },
                Report::MonitorsRead(Err(reason)) => Err(Error::MonitorStore { reason }),
                _ => {
                    self.stage = Stage::ReadingMonitors;
                    Err(Error::OutOfTurn)
                },
            },
            Stage::RestoringManager => match report {
                Report::ManagerRestored(Ok(manager)) => {
                    self.channeld = Some(manager);
                    Ok(Order::Ready)
                },
                Report::ManagerRestored(Err(SnapshotFailure::Missing(reason))) => Err(
                    Error::SnapshotMissing { path: self.manager_path(), reason },
                ),
                Report::ManagerRestored(Err(SnapshotFailure::Corrupt(reason))) => Err(
                    Error::SnapshotCorrupt { path: self.manager_path(), reason },
                ),
                _ => {
                    self.stage = Stage::RestoringManager;
                    Err(Error::OutOfTurn)
                },
            },
            Stage::BuildingManager => match report {
                Report::ManagerBuilt(manager) => {
                    self.channeld = Some(manager);
                    Ok(Order::Ready)
                },
                _ => {
                    self.stage = Stage::BuildingManager;
                    Err(Error::OutOfTurn)
                },
            },
            Stage::Idle => Err(Error::OutOfTurn),
        }
    }
}

/// A report keeps the manager well formed: whatever is reported, no channel
/// engine comes to exist without its chain monitor and its router.
pub proof fn lemma_step_keeps_wf<M, G, S, R, C, H>(
    manager: Lifecycle<M, G, S, R, C, H>,
    report: Report<M, G, S, R, C>,
)
    requires
        manager.wf(),
    ensures
        manager.step(report).0.wf(),
{
}

/// The channel engine is ordered last: whenever the channel monitors, a
/// restored engine or a fresh engine are ordered, the chain monitor and the
/// router exist.
pub proof fn lemma_engine_is_ordered_last<M, G, S, R, C, H>(
    manager: Lifecycle<M, G, S, R, C, H>,
    report: Report<M, G, S, R, C>,
)
    requires
        manager.wf(),
    ensures
        ({
            let next = manager.step(report);
            next.1 matches Ok(order) && (order is ReadMonitors || order is RestoreManager
                || order is BuildManager) ==> next.0.monitor is Some && next.0.routing is Some
        }),
{
}

/// A router that exists is never built again. Asking for it changes
/// nothing and orders nothing, so asking twice gives the same router; and
/// neither a report nor a new start or restart replaces it.
pub proof fn lemma_router_is_built_once<M, G, S, R, C, H>(
    manager: Lifecycle<M, G, S, R, C, H>,
    report: Report<M, G, S, R, C>,
    goal: Goal,
)
    requires
        manager.wf(),
        manager.routing is Some,
    ensures
        manager.want_router() == (manager, Order::Ready),
        manager.want_router().0.want_router() == manager.want_router(),
        manager.step(report).0.routing == manager.routing,
        manager.set_out(goal).0.routing == manager.routing,
{
}

/// The router that was derived is the one that is kept, with the graph and
/// the scorer that it was derived from; asked for again, it is there.
pub proof fn lemma_derived_router_is_kept<M, G, S, R, C, H>(
    manager: Lifecycle<M, G, S, R, C, H>,
    graph: G,
    scorer: S,
    router: R,
)
    requires
        manager.wf(),
        manager.stage == (Stage::DerivingRouter { goal: Goal::Router, graph, scorer }),
    ensures
        ({
            let kept = manager.step(Report::RouterDerived(router));
            &&& kept.1 == Ok::<Order, ErrorView>(Order::Ready)
            &&& kept.0.routing == Some(Routing { graph, scorer, router })
            &&& kept.0.want_router() == (kept.0, Order::Ready)
        }),
{
}

/// A start on a manager of which nothing is built, with nothing on disk,
/// where every part can be built: the chain monitor is built, the graph and
/// the scorer are made afresh, the router is derived, the engine is built
/// for the configured network at the given tip and time, and the manager is
/// ready with exactly these parts.
pub proof fn lemma_fresh_start_gets_ready<M, G, S, R, C, H>(
    manager: Lifecycle<M, G, S, R, C, H>,
    params: ChainParameters,
    timestamp: u32,
    monitor: M,
    graph: G,
    scorer: S,
    router: R,
    engine: C,
)
    requires
        manager.wf(),
        manager.routing is None,
    ensures
        ({
            let s0 = manager.set_out(Goal::Start { params, timestamp });
            let s1 = s0.0.step(Report::MonitorBuilt(monitor));
            let s2 = s1.0.step(Report::GraphRead(None));
            let s3 = s2.0.step(Report::GraphCreated(graph));
            let s4 = s3.0.step(Report::ScorerRead(None));
            let s5 = s4.0.step(Report::ScorerCreated(scorer));
            let s6 = s5.0.step(Report::RouterDerived(router));
            let s7 = s6.0.step(Report::ManagerBuilt(engine));
            &&& s0.1 == Order::BuildMonitor
            &&& s1.1 == Ok::<Order, ErrorView>(Order::ReadGraph)
            &&& s2.1 == Ok::<Order, ErrorView>(Order::CreateGraph { network: manager.network })
            &&& s3.1 == Ok::<Order, ErrorView>(Order::ReadScorer)
            &&& s4.1 == Ok::<Order, ErrorView>(Order::CreateScorer)
            &&& s5.1 == Ok::<Order, ErrorView>(Order::DeriveRouter)
            &&& s6.1 == Ok::<Order, ErrorView>(Order::BuildManager { params, timestamp })
            &&& s7.1 == Ok::<Order, ErrorView>(Order::Ready)
            &&& s7.0 == (Lifecycle {
                monitor: Some(monitor),
                routing: Some(Routing { graph, scorer, router }),
                channeld: Some(engine),
                stage: Stage::Idle,
                ..manager
            })
        }),
{
}

/// A restart does not fail for want of a scorer: where the graph was read
/// and the scorer was not, a fresh scorer is ordered, and with the monitors
/// and the snapshot read the manager is ready.
pub proof fn lemma_restart_without_scorer<M, G, S, R, C, H>(
    manager: Lifecycle<M, G, S, R, C, H>,
    monitor: M,
    graph: G,
    scorer: S,
    router: R,
    engine: C,
)
    requires
        manager.wf(),
        manager.routing is None,
    ensures
        ({
            let s0 = manager.set_out(Goal::Restart);
            let s1 = s0.0.step(Report::MonitorBuilt(monitor));
            let s2 = s1.0.step(Report::GraphRead(Some(graph)));
            let s3 = s2.0.step(Report::ScorerRead(None));
            let s4 = s3.0.step(Report::ScorerCreated(scorer));
            let s5 = s4.0.step(Report::RouterDerived(router));
            let s6 = s5.0.step(Report::MonitorsRead(Ok(())));
            let s7 = s6.0.step(Report::ManagerRestored(Ok(engine)));
            &&& s3.1 == Ok::<Order, ErrorView>(Order::CreateScorer)
            &&& s5.1 == Ok::<Order, ErrorView>(Order::ReadMonitors)
            &&& s6.1 == Ok::<Order, ErrorView>(Order::RestoreManager)
            &&& s7.1 == Ok::<Order, ErrorView>(Order::Ready)
            &&& s7.0.routing == Some(Routing { graph, scorer, router })
            &&& s7.0.channeld == Some(engine)
        }),
{
}

/// A restart whose snapshot cannot be opened or decoded ends there: the
/// failure names the path of the snapshot, no channel engine is put in
/// place of the one that was, and the run is over.
pub proof fn lemma_restart_needs_snapshot<M, G, S, R, C, H>(
    manager: Lifecycle<M, G, S, R, C, H>,
    failure: SnapshotFailure,
)
    requires
        manager.stage is RestoringManager,
    ensures
        ({
            let ended = manager.step(Report::ManagerRestored(Err(failure)));
            &&& ended.0 == (Lifecycle { stage: Stage::Idle, ..manager })
            &&& match failure {
                SnapshotFailure::Missing(reason) => ended.1 == Err::<Order, ErrorView>(
                    ErrorView::SnapshotMissing {
                        path: snapshot_path(manager.path),
                        reason: reason@,
                    },
                ),
                SnapshotFailure::Corrupt(reason) => ended.1 == Err::<Order, ErrorView>(
                    ErrorView::SnapshotCorrupt {
                        path: snapshot_path(manager.path),
                        reason: reason@,
                    },
                ),
            }
        }),
{
}

/// A start fails only for want of a dependency. Until the manager is
/// ready, every report either is out of turn and changes nothing, or says
/// that a dependency is unavailable and ends the run, or leads to the next
/// order of the start.
pub proof fn lemma_start_fails_only_for_want<M, G, S, R, C, H>(
    manager: Lifecycle<M, G, S, R, C, H>,
    report: Report<M, G, S, R, C>,
)
    requires
        manager.wf(),
        manager.stage.starting(),
    ensures
        ({
            let next = manager.step(report);
            match next.1 {
                Ok(Order::Ready) => next.0.stage is Idle && next.0.channeld is Some,
                Ok(_) => next.0.stage.starting(),
                Err(ErrorView::OutOfTurn) => next.0 == manager,
                Err(error) => error is Unavailable && report is Unavailable && next.0.stage is Idle,
            }
        }),
{
}

/// A restart fails for want of a dependency, for the channel monitors that
/// cannot be read, and for the snapshot that cannot be opened or decoded,
/// and for nothing else: not for a graph or a scorer that cannot be read.
pub proof fn lemma_restart_fails_only_for_its_records<M, G, S, R, C, H>(
    manager: Lifecycle<M, G, S, R, C, H>,
    report: Report<M, G, S, R, C>,
)
    requires
        manager.wf(),
        manager.stage.restarting(),
    ensures
        ({
            let next = manager.step(report);
            match next.1 {
                Ok(Order::Ready) => next.0.stage is Idle && next.0.channeld is Some,
                Ok(_) => next.0.stage.restarting(),
                Err(ErrorView::OutOfTurn) => next.0 == manager,
                Err(ErrorView::Unavailable { .. }) => report is Unavailable,
                Err(ErrorView::MonitorStore { .. }) => manager.stage is ReadingMonitors,
                Err(ErrorView::SnapshotMissing { .. }) => manager.stage is RestoringManager,
                Err(ErrorView::SnapshotCorrupt { .. }) => manager.stage is RestoringManager,
                Err(_) => false,
            }
        }),
{
}

} // verus!
