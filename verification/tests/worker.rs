use kdash::command::{Command, CommandQueue, FetchResult};
use kdash::records::{average_cpu_centi, average_mem_centi, Namespace, NodeMetrics, Pod};
use kdash::state::SharedAppState;
use kdash::worker::{apply_fetch_outcome, run_worker, worker_begin};

fn pod(name: &str) -> Pod {
    Pod {
        namespace: String::from("default"),
        name: String::from(name),
        ready: String::from("1/1"),
        status: String::from("Running"),
        restarts: 0,
        age: String::from("1d"),
    }
}

fn metrics(name: &str, cpu: u32, mem: u32) -> NodeMetrics {
    NodeMetrics { name: String::from(name), cpu_centi_percent: cpu, mem_centi_percent: mem }
}

#[test]
fn queue_is_fifo() {
    let mut q = CommandQueue::new();
    q.enqueue(Command::ListNamespaces);
    q.enqueue(Command::ListNodes);
    q.enqueue(Command::GetNodeMetrics);
    assert_eq!(q.take_next(), Some(Command::ListNamespaces));
    assert_eq!(q.take_next(), Some(Command::ListNodes));
    assert_eq!(q.take_next(), Some(Command::GetNodeMetrics));
    assert_eq!(q.take_next(), None);
}

#[test]
fn worker_begins_commands_in_enqueue_order() {
    let a = Command::ListPods { namespace: None };
    let b = Command::ListNodes;
    let c = Command::ListServices { namespace: Some(String::from("default")) };
    let mut q = CommandQueue::new();
    q.enqueue(a.clone());
    q.enqueue(b.clone());
    q.enqueue(c.clone());
    q.close();
    let mut s = SharedAppState::new(2);
    let outcomes = vec![
        Ok(FetchResult::Pods(vec![pod("web")])),
        Ok(FetchResult::Nodes(vec![])),
        Err(String::from("services endpoint timed out")),
    ];
    let began = run_worker(&mut s, &mut q, outcomes);
    assert_eq!(began, vec![a, b, c]);
    assert_eq!(q.len(), 0);
}

#[test]
fn closed_queue_accepts_nothing_and_worker_writes_nothing() {
    let mut q = CommandQueue::new();
    q.close();
    q.enqueue(Command::ListNodes);
    assert_eq!(q.len(), 0);
    assert!(q.is_done());

    let mut s = SharedAppState::new(2);
    s.selected_ns = Some(String::from("default"));
    s.tick_count = 7;
    let began = run_worker(&mut s, &mut q, vec![]);
    assert!(began.is_empty());
    assert_eq!(s.tick_count, 7);
    assert_eq!(s.selected_ns.as_deref(), Some("default"));
    assert!(!s.is_loading);
    assert!(s.last_error.is_none());
}

#[test]
fn success_replaces_listing_and_clears_error() {
    let mut s = SharedAppState::new(2);
    s.last_error = Some(String::from("older failure"));
    worker_begin(&mut s);
    assert!(s.is_loading);
    apply_fetch_outcome(&mut s, Ok(FetchResult::Pods(vec![pod("web"), pod("db")])));
    assert!(!s.is_loading);
    assert!(s.last_error.is_none());
    assert_eq!(s.pods.len(), 2);
    assert_eq!(s.pods.selected_index(), Some(0));
}

#[test]
fn fetch_error_leaves_other_listings_untouched() {
    let mut s = SharedAppState::new(2);
    apply_fetch_outcome(
        &mut s,
        Ok(FetchResult::Namespaces(vec![Namespace {
            name: String::from("default"),
            status: String::from("Active"),
        }])),
    );
    apply_fetch_outcome(&mut s, Ok(FetchResult::Pods(vec![pod("web")])));
    let namespaces_before = s.namespaces.clone();
    let pods_before = s.pods.clone();
    apply_fetch_outcome(&mut s, Err(String::from("nodes query failed")));
    assert_eq!(s.last_error.as_deref(), Some("nodes query failed"));
    assert_eq!(s.namespaces, namespaces_before);
    assert_eq!(s.pods, pods_before);
    assert_eq!(s.nodes.len(), 0);
    assert_eq!(s.services.len(), 0);
}

#[test]
fn stale_data_survives_a_later_failure_of_its_own_kind() {
    let mut s = SharedAppState::new(2);
    apply_fetch_outcome(&mut s, Ok(FetchResult::Pods(vec![pod("web")])));
    apply_fetch_outcome(&mut s, Err(String::from("pods query failed")));
    assert_eq!(s.pods.len(), 1);
    assert_eq!(s.last_error.as_deref(), Some("pods query failed"));
}

#[test]
fn metrics_replace_wholesale() {
    let mut s = SharedAppState::new(2);
    apply_fetch_outcome(
        &mut s,
        Ok(FetchResult::Metrics(vec![metrics("a", 5000, 7000), metrics("b", 1000, 3000)])),
    );
    assert_eq!(s.node_metrics.len(), 2);
    apply_fetch_outcome(&mut s, Ok(FetchResult::Metrics(vec![metrics("c", 100, 200)])));
    assert_eq!(s.node_metrics.len(), 1);
    assert_eq!(s.node_metrics[0].name, "c");
}

#[test]
fn gauge_averages_are_exact_integer_means() {
    let m = vec![metrics("a", 5000, 7000), metrics("b", 1000, 3000)];
    assert_eq!(average_cpu_centi(&m), 3000);
    assert_eq!(average_mem_centi(&m), 5000);
    let empty: Vec<NodeMetrics> = Vec::new();
    assert_eq!(average_cpu_centi(&empty), 0);
    assert_eq!(average_mem_centi(&empty), 0);
    let odd = vec![metrics("a", 1, 2), metrics("b", 2, 3), metrics("c", 2, 3)];
    assert_eq!(average_cpu_centi(&odd), 1);
    assert_eq!(average_mem_centi(&odd), 2);
}
