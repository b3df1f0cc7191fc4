//! The typed records a cluster query returns, one struct per resource kind.
//!
//! These are plain values: the opaque cluster client (outside this crate)
//! maps its wire types onto them, and everything the verified logic reads is
//! an ordinary field. Node metrics carry their utilisation percentages in
//! hundredths of a percent, so the averages the gauges need stay in exact
//! integer arithmetic; the shell divides once at the edge to draw a ratio.

use vstd::prelude::*;

verus! {

/// One namespace row.
#[derive(Clone, Debug, PartialEq, Eq)]
pub struct Namespace {
    pub name: String,
    pub status: String,
}

/// One pod row.
#[derive(Clone, Debug, PartialEq, Eq)]
pub struct Pod {
    pub namespace: String,
    pub name: String,
    pub ready: String,
    pub status: String,
    pub restarts: u32,
    pub age: String,
}

/// One node row.
#[derive(Clone, Debug, PartialEq, Eq)]
pub struct Node {
    pub name: String,
    pub status: String,
    pub role: String,
    pub version: String,
    pub pods: u32,
    pub cpu: String,
    pub mem: String,
    pub cpu_percent: String,
    pub mem_percent: String,
    pub age: String,
}

/// One service row.
#[derive(Clone, Debug, PartialEq, Eq)]
pub struct Service {
    pub namespace: String,
    pub name: String,
    pub type_: String,
    pub cluster_ip: String,
    pub external_ip: String,
    pub ports: String,
    pub age: String,
}

/// Utilisation of one node, in hundredths of a percent.
#[derive(Clone, Debug, PartialEq, Eq)]
pub struct NodeMetrics {
    pub name: String,
    pub cpu_centi_percent: u32,
    pub mem_centi_percent: u32,
}

/// Sum of the CPU readings of a sequence of node metrics.
pub open spec fn sum_cpu_centi(s: Seq<NodeMetrics>) -> int
    decreases s.len(),
{
    if s.len() == 0 {
        0
    } else {
        sum_cpu_centi(s.drop_last()) + s.last().cpu_centi_percent
    }
}

/// Sum of the memory readings of a sequence of node metrics.
pub open spec fn sum_mem_centi(s: Seq<NodeMetrics>) -> int
    decreases s.len(),
{
    if s.len() == 0 {
        0
    } else {
        sum_mem_centi(s.drop_last()) + s.last().mem_centi_percent
    }
}

/// Mean CPU utilisation across the nodes, in hundredths of a percent,
/// rounded down; zero when no metrics have arrived yet.
pub fn average_cpu_centi(metrics: &Vec<NodeMetrics>) -> (r: u64)
    requires
        metrics@.len() <= u32::MAX,
    ensures
        metrics@.len() == 0 ==> r == 0,
        metrics@.len() > 0 ==> r == sum_cpu_centi(metrics@) / metrics@.len() as int,
{
    let n = metrics.len();
    if n == 0 {
        return 0;
    }
    let mut total: u64 = 0;
    let mut i: usize = 0;
    while i < n
        invariant
            i <= n,
            n == metrics@.len(),
            n <= u32::MAX,
            total == sum_cpu_centi(metrics@.take(i as int)),
            total <= i * (u32::MAX as u64),
        decreases n - i,
    {
        proof {
            assert(metrics@.take(i + 1).drop_last() =~= metrics@.take(i as int));
            assert(metrics@.take(i + 1).last() == metrics@[i as int]);
        }
        total = total + metrics[i].cpu_centi_percent as u64;
        i = i + 1;
    }
    proof {
        assert(metrics@.take(n as int) =~= metrics@);
    }
    total / (n as u64)
}

/// Mean memory utilisation across the nodes, in hundredths of a percent,
/// rounded down; zero when no metrics have arrived yet.
pub fn average_mem_centi(metrics: &Vec<NodeMetrics>) -> (r: u64)
    requires
        metrics@.len() <= u32::MAX,
    ensures
        metrics@.len() == 0 ==> r == 0,
        metrics@.len() > 0 ==> r == sum_mem_centi(metrics@) / metrics@.len() as int,
{
    let n = metrics.len();
    if n == 0 {
        return 0;
    }
    let mut total: u64 = 0;
    let mut i: usize = 0;
    while i < n
        invariant
            i <= n,
            n == metrics@.len(),
            n <= u32::MAX,
            total == sum_mem_centi(metrics@.take(i as int)),
            total <= i * (u32::MAX as u64),
        decreases n - i,
    {
        proof {
            assert(metrics@.take(i + 1).drop_last() =~= metrics@.take(i as int));
            assert(metrics@.take(i + 1).last() == metrics@[i as int]);
        }
        total = total + metrics[i].mem_centi_percent as u64;
        i = i + 1;
    }
    proof {
        assert(metrics@.take(n as int) =~= metrics@);
    }
    total / (n as u64)
}

} // verus!
