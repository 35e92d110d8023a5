use framegraph::scheduler::DepGraph;
use framegraph::GraphError;

#[test]
fn empty_graph_resolves_empty() {
    let g = DepGraph::new();
    let order = g.resolve_order().unwrap();
    assert_eq!(order.len(), 0);
}

#[test]
fn single_node_resolves_itself() {
    let mut g = DepGraph::new();
    g.register_node();
    assert_eq!(g.resolve_order().unwrap(), vec![0]);
}

#[test]
fn dependencies_come_first() {
    // 0 <- 1, 0 <- 2, {1,2} <- 3 (a diamond)
    let mut g = DepGraph::new();
    g.register_node();
    g.register_node();
    g.register_node();
    g.register_node();
    g.register_dependencies(1, &vec![0]);
    g.register_dependencies(2, &vec![0]);
    g.register_dependencies(3, &vec![1, 2]);
    let order = g.resolve_order().unwrap();
    assert_eq!(order.len(), 4);
    let pos = |n: usize| order.iter().position(|&x| x == n).unwrap();
    assert!(pos(0) < pos(1));
    assert!(pos(0) < pos(2));
    assert!(pos(1) < pos(3));
    assert!(pos(2) < pos(3));
    // stable tie-break: independent nodes keep registration order
    assert_eq!(order, vec![0, 1, 2, 3]);
}

#[test]
fn each_node_appears_exactly_once() {
    let mut g = DepGraph::new();
    for _ in 0..5 {
        g.register_node();
    }
    g.register_dependencies(4, &vec![2, 2, 0]);
    let order = g.resolve_order().unwrap();
    assert_eq!(order.len(), 5);
    for n in 0..5 {
        assert_eq!(order.iter().filter(|&&x| x == n).count(), 1);
    }
}

#[test]
fn two_cycle_fails_at_resolve_not_registration() {
    let mut g = DepGraph::new();
    g.register_node();
    g.register_node();
    // registering the edges that close the cycle succeeds ...
    g.register_dependencies(0, &vec![1]);
    g.register_dependencies(1, &vec![0]);
    // ... only resolution reports it
    assert_eq!(g.resolve_order(), Err(GraphError::CyclicDependency));
}

#[test]
fn self_cycle_fails_at_resolve() {
    let mut g = DepGraph::new();
    g.register_node();
    g.register_dependencies(0, &vec![0]);
    assert_eq!(g.resolve_order(), Err(GraphError::CyclicDependency));
}

#[test]
fn longer_cycle_behind_a_chain_fails() {
    // 0 -> 1 -> 2 -> 3 -> 1
    let mut g = DepGraph::new();
    for _ in 0..4 {
        g.register_node();
    }
    g.register_dependencies(0, &vec![1]);
    g.register_dependencies(1, &vec![2]);
    g.register_dependencies(2, &vec![3]);
    g.register_dependencies(3, &vec![1]);
    assert_eq!(g.resolve_order(), Err(GraphError::CyclicDependency));
}
