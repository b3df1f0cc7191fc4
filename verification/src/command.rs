//! Fetch commands and the FIFO queue that carries them to the worker.
//!
//! The render loop produces commands; the worker drains them strictly in
//! order, one at a time. The queue is unbounded and does no deduplication:
//! duplicate refreshes may coexist, and the only throttle is on the producer
//! side (the tick/poll ratio). Closing the queue is the shutdown signal — a
//! drained, closed queue tells the worker that no command can ever arrive.

use vstd::prelude::*;
use crate::records::{Namespace, Node, NodeMetrics, Pod, Service};

verus! {

/// The resource kinds the dashboard can query.
#[derive(Clone, Copy, Debug, PartialEq, Eq, Structural)]
pub enum ResourceKind {
    Namespaces,
    Pods,
    Nodes,
    Services,
    NodeMetrics,
}

/// One named fetch request, created by the render loop and consumed exactly
/// once by the worker. Listings that are namespace-scoped carry the namespace
/// filter they were issued under (`None` means all namespaces).
#[derive(Clone, Debug, PartialEq, Eq)]
pub enum Command {
    ListNamespaces,
    ListPods { namespace: Option<String> },
    ListNodes,
    ListServices { namespace: Option<String> },
    GetNodeMetrics,
}

impl Command {
    /// The resource kind a command queries.
    pub open spec fn kind(self) -> ResourceKind {
        match self {
            Command::ListNamespaces => ResourceKind::Namespaces,
            Command::ListPods { .. } => ResourceKind::Pods,
            Command::ListNodes => ResourceKind::Nodes,
            Command::ListServices { .. } => ResourceKind::Services,
            Command::GetNodeMetrics => ResourceKind::NodeMetrics,
        }
    }
}

/// What one successful cluster query carries back: the full replacement
/// listing for exactly one resource kind.
#[derive(Clone, Debug, PartialEq, Eq)]
pub enum FetchResult {
    Namespaces(Vec<Namespace>),
    Pods(Vec<Pod>),
    Nodes(Vec<Node>),
    Services(Vec<Service>),
    Metrics(Vec<NodeMetrics>),
}

/// The outcome of one cluster query: a replacement listing, or a
/// human-readable description of why the fetch failed.
pub type FetchOutcome = Result<FetchResult, String>;

/// The ordered, unbounded, single-consumer command channel, modelled as the
/// sequence of commands that have been produced and not yet consumed.
#[derive(Debug)]
pub struct CommandQueue {
    pub items: Vec<Command>,
    pub closed: bool,
}

impl CommandQueue {
    /// An open, empty queue.
    pub fn new() -> (r: Self)
        ensures
            r.items@.len() == 0,
            !r.closed,
    {
        CommandQueue { items: Vec::new(), closed: false }
    }

    /// Appends a command at the back. A closed queue accepts nothing: the
    /// producer side has hung up and the command is discarded.
    pub fn enqueue(&mut self, cmd: Command)
        ensures
            !old(self).closed ==> final(self).items@ == old(self).items@.push(cmd),
            old(self).closed ==> *final(self) == *old(self),
            final(self).closed == old(self).closed,
    {
        if !self.closed {
            self.items.push(cmd);
        }
    }

    /// Removes and returns the oldest command, in exactly the order enqueued;
    /// nothing when the queue is currently empty.
    pub fn take_next(&mut self) -> (r: Option<Command>)
        ensures
            old(self).items@.len() == 0 ==> r is None && *final(self) == *old(self),
            old(self).items@.len() > 0 ==> r == Some(old(self).items@[0])
                && final(self).items@ == old(self).items@.drop_first(),
            final(self).closed == old(self).closed,
    {
        if self.items.len() == 0 {
            None
        } else {
            let cmd = self.items.remove(0);
            proof {
                assert(self.items@ =~= old(self).items@.drop_first());
            }
            Some(cmd)
        }
    }

    /// Removes and returns the oldest command, in exactly the order
    /// enqueued; the caller must know one is waiting.
    pub fn pop_front(&mut self) -> (r: Command)
        requires
            old(self).items@.len() > 0,
        ensures
            r == old(self).items@[0],
            final(self).items@ == old(self).items@.drop_first(),
            final(self).closed == old(self).closed,
    {
        let cmd = self.items.remove(0);
        proof {
            assert(self.items@ =~= old(self).items@.drop_first());
        }
        cmd
    }

    /// Closes the producer side: the shutdown signal. Pending commands stay
    /// to be drained; no new command can ever arrive.
    pub fn close(&mut self)
        ensures
            final(self).items@ == old(self).items@,
            final(self).closed,
    {
        self.closed = true;
    }

    /// Whether the queue is finished for good: closed and fully drained.
    pub fn is_done(&self) -> (r: bool)
        ensures
            r <==> (self.closed && self.items@.len() == 0),
    {
        self.closed && self.items.len() == 0
    }

    /// How many commands are waiting.
    pub fn len(&self) -> (r: usize)
        ensures
            r == self.items@.len(),
    {
        self.items.len()
    }
}

} // verus!
