//! The background worker's write-back discipline.
//!
//! The worker is one sequential context: it takes the oldest command, raises
//! the coarse loading signal, performs exactly one cluster query to
//! completion — with no lock held during the query — and then writes the
//! outcome back into the shared state. A success replaces the corresponding
//! cached listing wholesale and clears the last error; a failure records the
//! error message and leaves every cached listing untouched, because stale
//! data is preferred over no data. The query itself happens outside this
//! crate; its outcome arrives here as a plain value, so everything below
//! holds whatever the cluster returned.

use vstd::prelude::*;
use crate::command::{Command, CommandQueue, FetchOutcome, FetchResult};
use crate::state::SharedAppState;

verus! {

/// The state after one outcome is written back: the loading signal drops,
/// a success replaces exactly the one listing it carries and clears the last
/// error, and a failure records its message and touches nothing else.
pub open spec fn apply_outcome_spec(s: SharedAppState, outcome: FetchOutcome) -> SharedAppState {
    match outcome {
        Ok(FetchResult::Namespaces(v)) => SharedAppState {
            namespaces: s.namespaces.with_items(v),
            last_error: None,
            is_loading: false,
            ..s
        },
        Ok(FetchResult::Pods(v)) => SharedAppState {
            pods: s.pods.with_items(v),
            last_error: None,
            is_loading: false,
            ..s
        },
        Ok(FetchResult::Nodes(v)) => SharedAppState {
            nodes: s.nodes.with_items(v),
            last_error: None,
            is_loading: false,
            ..s
        },
        Ok(FetchResult::Services(v)) => SharedAppState {
            services: s.services.with_items(v),
            last_error: None,
            is_loading: false,
            ..s
        },
        Ok(FetchResult::Metrics(v)) => SharedAppState {
            node_metrics: v,
            last_error: None,
            is_loading: false,
            ..s
        },
        Err(m) => SharedAppState { last_error: Some(m), is_loading: false, ..s },
    }
}

/// The state after a whole sequence of outcomes is written back in order.
pub open spec fn apply_outcomes_spec(s: SharedAppState, outs: Seq<FetchOutcome>) -> SharedAppState
    decreases outs.len(),
{
    if outs.len() == 0 {
        s
    } else {
        apply_outcome_spec(apply_outcomes_spec(s, outs.drop_last()), outs.last())
    }
}

/// Raises the coarse loading signal before a query begins. It is one flag
/// shared across all resource kinds: the worker does not track per-kind
/// in-flight status.
pub fn worker_begin(state: &mut SharedAppState)
    ensures
        *final(state) == old(state).with_loading(),
        final(state).well_formed() == old(state).well_formed(),
{
    state.is_loading = true;
}

/// Writes one query outcome into the shared state, under the lock and after
/// the query has already completed. On success the one listing the outcome
/// carries is replaced atomically and the last error is cleared; on failure
/// only the error message changes and every cached listing stays as it was.
pub fn apply_fetch_outcome(state: &mut SharedAppState, outcome: FetchOutcome)
    requires
        old(state).well_formed(),
    ensures
        final(state).well_formed(),
        *final(state) == apply_outcome_spec(*old(state), outcome),
        outcome matches Err(m) ==> final(state).last_error == Some(m)
            && final(state).namespaces == old(state).namespaces
            && final(state).pods == old(state).pods
            && final(state).nodes == old(state).nodes
            && final(state).services == old(state).services
            && final(state).node_metrics == old(state).node_metrics
            && final(state).selected_ns == old(state).selected_ns
            && final(state).active_tab == old(state).active_tab,
        outcome is Ok ==> final(state).last_error is None,
        !final(state).is_loading,
{
    state.is_loading = false;
    match outcome {
        Ok(FetchResult::Namespaces(v)) => {
            state.namespaces.set_items(v);
            state.last_error = None;
        }
        Ok(FetchResult::Pods(v)) => {
            state.pods.set_items(v);
            state.last_error = None;
        }
        Ok(FetchResult::Nodes(v)) => {
            state.nodes.set_items(v);
            state.last_error = None;
        }
        Ok(FetchResult::Services(v)) => {
            state.services.set_items(v);
            state.last_error = None;
        }
        Ok(FetchResult::Metrics(v)) => {
            state.node_metrics = v;
            state.last_error = None;
        }
        Err(m) => {
            state.last_error = Some(m);
        }
    }
}

/// Drains a closed queue to its end, beginning each command in exactly the
/// order enqueued and writing each supplied outcome back in turn. Once the
/// queue is closed and empty the worker writes nothing further: draining an
/// already-empty queue returns the state bit-for-bit unchanged.
pub fn run_worker(
    state: &mut SharedAppState,
    queue: &mut CommandQueue,
    outcomes: Vec<FetchOutcome>,
) -> (began: Vec<Command>)
    requires
        old(state).well_formed(),
        old(queue).closed,
        outcomes@.len() == old(queue).items@.len(),
    ensures
        final(state).well_formed(),
        began@ == old(queue).items@,
        final(queue).items@.len() == 0,
        final(queue).closed,
        *final(state) == apply_outcomes_spec(*old(state), outcomes@),
        old(queue).items@.len() == 0 ==> *final(state) == *old(state),
{
    let ghost qs0 = old(queue).items@;
    let ghost outs0 = outcomes@;
    let mut remaining = outcomes;
    let mut began: Vec<Command> = Vec::new();
    while queue.len() > 0
        invariant
            state.well_formed(),
            queue.closed,
            began@.len() <= qs0.len(),
            outs0.len() == qs0.len(),
            queue.items@ == qs0.skip(began@.len() as int),
            began@ == qs0.take(began@.len() as int),
            remaining@ == outs0.skip(began@.len() as int),
            *state == apply_outcomes_spec(*old(state), outs0.take(began@.len() as int)),
        decreases qs0.len() - began@.len(),
    {
        let ghost i = began@.len() as int;
        let cmd = queue.pop_front();
        proof {
            assert(qs0.skip(i).drop_first() =~= qs0.skip(i + 1));
            assert(cmd == qs0[i]);
            assert(qs0.take(i + 1) =~= qs0.take(i).push(cmd));
            assert(outs0.skip(i).drop_first() =~= outs0.skip(i + 1));
        }
        worker_begin(state);
        began.push(cmd);
        let outcome = remaining.remove(0);
        proof {
            assert(outcome == outs0[i]);
            assert(outs0.take(i + 1).drop_last() =~= outs0.take(i));
            assert(outs0.take(i + 1).last() == outs0[i]);
        }
        apply_fetch_outcome(state, outcome);
    }
    proof {
        let ghost n = began@.len() as int;
        assert(qs0.skip(n).len() == 0);
        assert(n == qs0.len());
        assert(qs0.take(n) =~= qs0);
        assert(outs0.take(n) =~= outs0);
    }
    began
}

} // verus!
