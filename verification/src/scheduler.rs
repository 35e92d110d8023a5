use vstd::prelude::*;

use crate::error::GraphError;

verus! {

/// Traversal mark for one node while the schedule is being resolved.
#[derive(Clone, Copy, Debug, PartialEq, Eq, Structural)]
enum Mark {
    /// Not reached yet.
    New,
    /// On the active traversal stack; meeting such a node again means the
    /// dependency relation is cyclic.
    Active,
    /// Scheduled: the node and all it depends on are already in the order.
    Done,
}

/// A registry of nodes (numbered in registration order) and their directed
/// "depends on" edges, together with the scheduler that turns them into a
/// deterministic execution order.
///
/// Node `n` depending on node `d` means `d` must be scheduled before `n`.
pub struct DepGraph {
    deps: Vec<Vec<usize>>,
}

impl DepGraph {
    /// How many nodes are registered.
    pub closed spec fn node_count(self) -> int {
        self.deps@.len() as int
    }

    /// How many dependency edges leave node `n`.
    pub closed spec fn dep_count(self, n: int) -> int {
        self.deps@[n]@.len() as int
    }

    /// The target of the `j`-th dependency edge of node `n`.
    pub closed spec fn dep_at(self, n: int, j: int) -> int {
        self.deps@[n]@[j] as int
    }

    /// Node `n` depends directly on node `d`.
    pub open spec fn has_edge(self, n: int, d: int) -> bool {
        exists|j: int| 0 <= j < self.dep_count(n) && self.dep_at(n, j) == d
    }

    /// Every edge points at a registered node.
    pub closed spec fn wf(self) -> bool {
        forall|n: int, j: int|
            0 <= n < self.node_count() && 0 <= j < self.dep_count(n)
                ==> 0 <= #[trigger] self.dep_at(n, j) < self.node_count()
    }

    /// `order` schedules every registered node exactly once, and everything a
    /// node depends on comes strictly before it.
    pub open spec fn is_valid_order(self, order: Seq<usize>) -> bool {
        &&& order.no_duplicates()
        &&& forall|k: int| 0 <= k < order.len() ==> (#[trigger] order[k] as int) < self.node_count()
        &&& forall|i: usize| (i as int) < self.node_count() ==> #[trigger] order.contains(i)
        &&& forall|k: int, d: int|
            0 <= k < order.len() && #[trigger] self.has_edge(order[k] as int, d)
                ==> exists|m: int| 0 <= m < k && order[m] as int == d
    }

    /// `p` walks along edges and returns to its starting node.
    pub open spec fn is_cycle_path(self, p: Seq<usize>) -> bool {
        &&& p.len() >= 2
        &&& p[0] == p[p.len() - 1]
        &&& forall|i: int| 0 <= i < p.len() ==> ((#[trigger] p[i]) as int) < self.node_count()
        &&& forall|i: int| 0 <= i < p.len() - 1
            ==> self.has_edge((#[trigger] p[i]) as int, p[i + 1] as int)
    }

    /// Some node depends, possibly through others, on itself.
    pub open spec fn has_cycle(self) -> bool {
        exists|p: Seq<usize>| self.is_cycle_path(p)
    }

    /// An empty registry.
    pub fn new() -> (g: DepGraph)
        ensures
            g.wf(),
            g.node_count() == 0,
    {
        DepGraph { deps: Vec::new() }
    }

    /// Registers one more node, with no edges; its number is the old count.
    pub fn register_node(&mut self)
        requires
            old(self).wf(),
        ensures
            final(self).wf(),
            final(self).node_count() == old(self).node_count() + 1,
            final(self).dep_count(old(self).node_count()) == 0,
            forall|n: int| 0 <= n < old(self).node_count()
                ==> #[trigger] final(self).dep_count(n) == old(self).dep_count(n),
            forall|n: int, j: int| 0 <= n < old(self).node_count() && 0 <= j < old(self).dep_count(n)
                ==> #[trigger] final(self).dep_at(n, j) == old(self).dep_at(n, j),
    {
        self.deps.push(Vec::new());
        proof {
            assert forall|n: int, j: int|
                0 <= n < self.node_count() && 0 <= j < self.dep_count(n)
                implies 0 <= #[trigger] self.dep_at(n, j) < self.node_count() by {
                if n < old(self).node_count() {
                    assert(self.dep_at(n, j) == old(self).dep_at(n, j));
                    assert(0 <= old(self).dep_at(n, j) < old(self).node_count());
                }
            }
            assert forall|n: int| 0 <= n < old(self).node_count()
                implies #[trigger] self.dep_count(n) == old(self).dep_count(n) by {}
        }
    }

    /// Adds an edge from node `n` to every node of `ds`, keeping the edges it
    /// already had.
    pub fn register_dependencies(&mut self, n: usize, ds: &Vec<usize>)
        requires
            old(self).wf(),
            (n as int) < old(self).node_count(),
            forall|j: int| 0 <= j < ds@.len() ==> (#[trigger] ds@[j] as int) < old(self).node_count(),
        ensures
            final(self).wf(),
            final(self).node_count() == old(self).node_count(),
            final(self).dep_count(n as int) == old(self).dep_count(n as int) + ds@.len(),
            forall|j: int| 0 <= j < old(self).dep_count(n as int)
                ==> #[trigger] final(self).dep_at(n as int, j) == old(self).dep_at(n as int, j),
            forall|j: int| 0 <= j < ds@.len()
                ==> #[trigger] final(self).dep_at(n as int, old(self).dep_count(n as int) + j)
                    == ds@[j] as int,
            forall|m: int| 0 <= m < old(self).node_count() && m != n as int
                ==> #[trigger] final(self).dep_count(m) == old(self).dep_count(m),
            forall|m: int, j: int|
                0 <= m < old(self).node_count() && m != n as int && 0 <= j < old(self).dep_count(m)
                ==> #[trigger] final(self).dep_at(m, j) == old(self).dep_at(m, j),
    {
        let ghost old_deps = self.deps@;
        let mut row: Vec<usize> = self.deps.remove(n);
        let mut k: usize = 0;
        while k < ds.len()
            invariant
                k <= ds.len(),
                (n as int) < old_deps.len(),
                row@ == old_deps[n as int]@ + ds@.take(k as int),
            decreases ds@.len() - k,
        {
            row.push(ds[k]);
            assert(row@ =~= old_deps[n as int]@ + ds@.take(k as int + 1));
            k = k + 1;
        }
        assert(row@ =~= old_deps[n as int]@ + ds@);
        let ghost new_row = row@;
        self.deps.insert(n, row);
        proof {
            assert(self.deps@ =~= old_deps.update(n as int, self.deps@[n as int]));
            assert(self.deps@[n as int]@ == new_row);
            assert forall|n2: int, j: int|
                0 <= n2 < self.node_count() && 0 <= j < self.dep_count(n2)
                implies 0 <= #[trigger] self.dep_at(n2, j) < self.node_count() by {
                if n2 != n as int {
                    assert(self.dep_at(n2, j) == old(self).dep_at(n2, j));
                    assert(0 <= old(self).dep_at(n2, j) < old(self).node_count());
                } else {
                    if j < old(self).dep_count(n as int) {
                        assert(self.dep_at(n2, j) == old(self).dep_at(n as int, j));
                        assert(0 <= old(self).dep_at(n as int, j) < old(self).node_count());
                    } else {
                        assert(self.dep_at(n2, j) == ds@[j - old(self).dep_count(n as int)] as int);
                    }
                }
            }
            assert forall|m: int| 0 <= m < old(self).node_count() && m != n as int
                implies #[trigger] self.dep_count(m) == old(self).dep_count(m) by {}
            assert forall|m: int, j: int|
                0 <= m < old(self).node_count() && m != n as int && 0 <= j < old(self).dep_count(m)
                implies #[trigger] self.dep_at(m, j) == old(self).dep_at(m, j) by {}
        }
    }
}

/// How many nodes are still unreached.
spec fn count_new(marks: Seq<Mark>) -> int
    decreases marks.len(),
{
    if marks.len() == 0 {
        0
    } else {
        count_new(marks.drop_last()) + if marks.last() == Mark::New { 1int } else { 0int }
    }
}

proof fn lemma_count_new_nonneg(marks: Seq<Mark>)
    ensures
        count_new(marks) >= 0,
    decreases marks.len(),
{
    if marks.len() > 0 {
        lemma_count_new_nonneg(marks.drop_last());
    }
}

proof fn lemma_count_new_update(marks: Seq<Mark>, i: int, v: Mark)
    requires
        0 <= i < marks.len(),
    ensures
        count_new(marks.update(i, v)) == count_new(marks)
            - (if marks[i] == Mark::New { 1int } else { 0int })
            + (if v == Mark::New { 1int } else { 0int }),
    decreases marks.len(),
{
    let u = marks.update(i, v);
    if i == marks.len() - 1 {
        assert(u.drop_last() =~= marks.drop_last());
    } else {
        assert(u.drop_last() =~= marks.drop_last().update(i, v));
        lemma_count_new_update(marks.drop_last(), i, v);
        assert(u.last() == marks.last());
    }
}

/// Dependency edges of the stacked nodes that are still to be examined.
spec fn rem_sum(g: DepGraph, stack: Seq<(usize, usize)>) -> int
    decreases stack.len(),
{
    if stack.len() == 0 {
        0
    } else {
        rem_sum(g, stack.drop_last()) + g.dep_count(stack.last().0 as int)
            - stack.last().1 as int
    }
}

proof fn lemma_rem_sum_nonneg(g: DepGraph, stack: Seq<(usize, usize)>)
    requires
        forall|p: int| 0 <= p < stack.len()
            ==> ((#[trigger] stack[p]).1 as int) <= g.dep_count(stack[p].0 as int),
    ensures
        rem_sum(g, stack) >= 0,
    decreases stack.len(),
{
    if stack.len() > 0 {
        lemma_rem_sum_nonneg(g, stack.drop_last());
    }
}

/// The first `upto` dependency edges of the stacked node `e.0` lead to
/// scheduled nodes.
spec fn examined_done(g: DepGraph, marks: Seq<Mark>, e: (usize, usize), upto: int) -> bool {
    forall|j: int| 0 <= j < upto ==> marks[#[trigger] g.dep_at(e.0 as int, j)] == Mark::Done
}

/// Stack entry `b` sits directly above `a` because it is the dependency of
/// `a` that was examined last.
spec fn chain_link(g: DepGraph, a: (usize, usize), b: (usize, usize)) -> bool {
    &&& a.1 >= 1
    &&& g.dep_at(a.0 as int, a.1 as int - 1) == b.0 as int
}

/// What holds of the schedule built so far and the marks.
spec fn order_marks_ok(g: DepGraph, marks: Seq<Mark>, order: Seq<usize>) -> bool {
    &&& marks.len() == g.node_count()
    &&& order.no_duplicates()
    &&& forall|k: int| 0 <= k < order.len() ==> (#[trigger] order[k] as int) < g.node_count()
    &&& forall|k: int| 0 <= k < order.len() ==> marks[(#[trigger] order[k]) as int] == Mark::Done
    &&& forall|i: int| 0 <= i < marks.len() && (#[trigger] marks[i]) == Mark::Done
        ==> order.contains(i as usize)
    &&& forall|k: int, d: int|
        0 <= k < order.len() && #[trigger] g.has_edge(order[k] as int, d)
            ==> exists|m: int| 0 <= m < k && order[m] as int == d
}

/// What holds of the active traversal stack.
spec fn stack_ok(g: DepGraph, marks: Seq<Mark>, stack: Seq<(usize, usize)>) -> bool {
    &&& forall|p: int| 0 <= p < stack.len() ==> ((#[trigger] stack[p]).0 as int) < g.node_count()
    &&& forall|p: int| 0 <= p < stack.len()
        ==> marks[((#[trigger] stack[p]).0) as int] == Mark::Active
    &&& forall|p: int| 0 <= p < stack.len()
        ==> ((#[trigger] stack[p]).1 as int) <= g.dep_count(stack[p].0 as int)
    &&& forall|p: int| 0 <= p < stack.len() - 1
        ==> chain_link(g, #[trigger] stack[p], stack[p + 1])
    &&& forall|p: int| 0 <= p < stack.len() - 1
        ==> examined_done(g, marks, #[trigger] stack[p], stack[p].1 - 1)
    &&& (stack.len() > 0 ==> examined_done(g, marks, stack.last(), stack.last().1 as int))
    &&& forall|p: int, q: int| 0 <= p < q < stack.len()
        ==> (#[trigger] stack[p]).0 != (#[trigger] stack[q]).0
    &&& forall|i: int| 0 <= i < marks.len() && (#[trigger] marks[i]) == Mark::Active
        ==> exists|p: int| 0 <= p < stack.len() && stack[p].0 as int == i
}

impl DepGraph {
    /// How many nodes are registered.
    pub fn len(&self) -> (n: usize)
        ensures
            n as int == self.node_count(),
    {
        self.deps.len()
    }

    /// How many dependency edges leave node `n`.
    pub fn dep_len(&self, n: usize) -> (c: usize)
        requires
            (n as int) < self.node_count(),
        ensures
            c as int == self.dep_count(n as int),
    {
        self.deps[n].len()
    }

    /// The target of the `j`-th dependency edge of node `n`.
    pub fn dep(&self, n: usize, j: usize) -> (d: usize)
        requires
            self.wf(),
            (n as int) < self.node_count(),
            (j as int) < self.dep_count(n as int),
        ensures
            d as int == self.dep_at(n as int, j as int),
            (d as int) < self.node_count(),
    {
        self.deps[n][j]
    }

    /// Resolves the execution order: a depth-first traversal in
    /// first-registration order, scheduling each node once all its
    /// dependencies are scheduled.  Meeting a node that is still on the
    /// active traversal stack proves the registered edges cyclic.
    #[verifier::rlimit(100)]
    pub fn resolve_order(&self) -> (r: Result<Vec<usize>, GraphError>)
        requires
            self.wf(),
        ensures
            match r {
                Ok(order) => self.is_valid_order(order@),
                Err(e) => e == GraphError::CyclicDependency && self.has_cycle(),
            },
    {
        let n_total: usize = self.deps.len();
        let mut marks: Vec<Mark> = Vec::new();
        let mut i: usize = 0;
        while i < n_total
            invariant
                i <= n_total,
                marks@.len() == i as int,
                forall|t: int| 0 <= t < i as int ==> marks@[t] == Mark::New,
            decreases n_total - i,
        {
            marks.push(Mark::New);
            i = i + 1;
        }

        let mut order: Vec<usize> = Vec::new();
        let mut root: usize = 0;
        while root < n_total
            invariant
                self.wf(),
                (n_total as int) == self.node_count(),
                root <= n_total,
                order_marks_ok(*self, marks@, order@),
                forall|t: int| 0 <= t < marks@.len() ==> (#[trigger] marks@[t]) != Mark::Active,
                forall|t: int| 0 <= t < root as int ==> (#[trigger] marks@[t]) == Mark::Done,
            decreases n_total - root,
        {
            let start_mark: Mark = marks[root];
            if start_mark == Mark::New {
                let mut stack: Vec<(usize, usize)> = Vec::new();
                marks.set(root, Mark::Active);
                stack.push((root, 0));
                proof {
                    assert forall|i2: int|
                        0 <= i2 < marks@.len() && (#[trigger] marks@[i2]) == Mark::Active
                        implies exists|p: int|
                            0 <= p < stack@.len() && stack@[p].0 as int == i2 by {
                        assert(i2 == root as int);
                        assert(stack@[0].0 as int == i2);
                    }
                }
                while stack.len() > 0
                    invariant
                        self.wf(),
                        (n_total as int) == self.node_count(),
                        order_marks_ok(*self, marks@, order@),
                        stack_ok(*self, marks@, stack@),
                        forall|t: int| 0 <= t < root as int
                            ==> (#[trigger] marks@[t]) == Mark::Done,
                        marks@[root as int] != Mark::New,
                        root < n_total,
                    decreases count_new(marks@), rem_sum(*self, stack@), stack@.len(),
                {
                    let ghost marks0 = marks@;
                    let ghost stack0 = stack@;
                    proof {
                        lemma_count_new_nonneg(marks@);
                        lemma_rem_sum_nonneg(*self, stack@);
                    }
                    let top_idx: usize = stack.len() - 1;
                    let top: (usize, usize) = stack[top_idx];
                    let tn: usize = top.0;
                    let tc: usize = top.1;
                    let dc: usize = self.deps[tn].len();
                    if tc < dc {
                        let d: usize = self.deps[tn][tc];
                        assert(d as int == self.dep_at(tn as int, tc as int));
                        stack.set(top_idx, (tn, tc + 1));
                        proof {
                            assert(stack@ =~= stack0.update(
                                top_idx as int, (tn, (tc + 1) as usize)));
                        }
                        let ghost stack1 = stack@;
                        let dmark: Mark = marks[d];
                        match dmark {
                            Mark::New => {
                                marks.set(d, Mark::Active);
                                stack.push((d, 0));
                                proof {
                                    lemma_count_new_update(marks0, d as int, Mark::Active);
                                    assert(stack@.drop_last() =~= stack1);
                                    assert(stack1.drop_last() =~= stack0.drop_last());
                                    assert(stack1.last() == (tn, (tc + 1) as usize));
                                    assert(stack0.last() == (tn, tc));
                                    assert(rem_sum(*self, stack1)
                                        == rem_sum(*self, stack0) - 1);
                                    assert forall|p: int, q: int| 0 <= p < q < stack@.len()
                                        implies (#[trigger] stack@[p]).0
                                            != (#[trigger] stack@[q]).0 by {
                                        if q == stack@.len() - 1 {
                                            assert(stack@[p].0 == stack0[p].0);
                                            assert(marks0[stack0[p].0 as int] == Mark::Active);
                                        } else {
                                            assert(stack@[p].0 == stack0[p].0);
                                            assert(stack@[q].0 == stack0[q].0);
                                        }
                                    }
                                    assert forall|p: int| 0 <= p < stack@.len() - 1
                                        implies chain_link(*self, #[trigger] stack@[p],
                                            stack@[p + 1]) by {
                                        if p < stack@.len() - 2 {
                                            assert(stack@[p] == stack0[p]);
                                            assert(stack@[p + 1].0 == stack0[p + 1].0);
                                            assert(chain_link(*self, stack0[p],
                                                stack0[p + 1]));
                                        } else {
                                            assert(stack@[p] == (tn, (tc + 1) as usize));
                                            assert(stack@[p + 1].0 == d);
                                        }
                                    }
                                    assert forall|p: int| 0 <= p < stack@.len() - 1
                                        implies examined_done(*self, marks@,
                                            #[trigger] stack@[p], stack@[p].1 - 1) by {
                                        if p < stack@.len() - 2 {
                                            assert(stack@[p] == stack0[p]);
                                            assert(examined_done(*self, marks0, stack0[p],
                                                stack0[p].1 - 1));
                                            assert forall|j: int| 0 <= j < stack@[p].1 - 1
                                                implies marks@[#[trigger] self.dep_at(
                                                    stack@[p].0 as int, j)] == Mark::Done by {
                                                assert(marks0[self.dep_at(
                                                    stack0[p].0 as int, j)] == Mark::Done);
                                            }
                                        } else {
                                            assert(stack@[p] == (tn, (tc + 1) as usize));
                                            assert(examined_done(*self, marks0, (tn, tc),
                                                tc as int));
                                            assert forall|j: int| 0 <= j < tc as int
                                                implies marks@[#[trigger] self.dep_at(
                                                    tn as int, j)] == Mark::Done by {
                                                assert(marks0[self.dep_at(tn as int, j)]
                                                    == Mark::Done);
                                            }
                                        }
                                    }
                                    assert forall|i2: int|
                                        0 <= i2 < marks@.len()
                                            && (#[trigger] marks@[i2]) == Mark::Active
                                        implies exists|p: int|
                                            0 <= p < stack@.len()
                                                && stack@[p].0 as int == i2 by {
                                        if i2 == d as int {
                                            assert(stack@[stack@.len() - 1].0 as int == i2);
                                        } else {
                                            assert(marks0[i2] == Mark::Active);
                                            let p = choose|p: int| 0 <= p < stack0.len()
                                                && stack0[p].0 as int == i2;
                                            assert(stack@[p].0 == stack0[p].0);
                                        }
                                    }
                                    assert(count_new(marks@) == count_new(marks0) - 1);
                                    assert forall|i2: int|
                                        0 <= i2 < marks@.len()
                                            && (#[trigger] marks@[i2]) == Mark::Done
                                        implies order@.contains(i2 as usize) by {
                                        assert(marks0[i2] == Mark::Done);
                                    }
                                    assert forall|k: int| 0 <= k < order@.len()
                                        implies marks@[(#[trigger] order@[k]) as int]
                                            == Mark::Done by {
                                        assert(marks0[order@[k] as int] == Mark::Done);
                                    }
                                    lemma_count_new_nonneg(marks@);
                                    lemma_rem_sum_nonneg(*self, stack@);
                                }
                            }
                            Mark::Active => {
                                proof {
                                    assert(marks@[d as int] == Mark::Active);
                                    let p0 = choose|p: int|
                                        0 <= p < stack0.len() && stack0[p].0 as int == d as int;
                                    assert(stack@[p0].0 as int == d as int);
                                    let sp = choose|p: int|
                                        0 <= p < stack@.len() && stack@[p].0 as int == d as int;
                                    let sl = stack@.len() as int;
                                    let w = Seq::new(
                                        (sl - sp + 1) as nat,
                                        |q: int| if q < sl - sp {
                                            stack@[sp + q].0
                                        } else {
                                            d
                                        },
                                    );
                                    assert(w[0] == d);
                                    assert(w[w.len() - 1] == d);
                                    assert forall|q: int| 0 <= q < w.len() - 1
                                        implies self.has_edge((#[trigger] w[q]) as int,
                                            w[q + 1] as int) by {
                                        if q < sl - sp - 1 {
                                            assert(stack@[sp + q].1 == stack0[sp + q].1
                                                || sp + q == top_idx as int);
                                            assert(chain_link(*self, stack0[sp + q],
                                                stack0[sp + q + 1]));
                                            let a = stack0[sp + q];
                                            assert(stack@[sp + q].0 == a.0);
                                            if sp + q == top_idx as int {
                                                assert(false);
                                            }
                                            assert(stack@[sp + q] == a);
                                            assert(self.dep_at(a.0 as int, a.1 as int - 1)
                                                == stack0[sp + q + 1].0 as int);
                                            assert(stack@[sp + q + 1].0
                                                == stack0[sp + q + 1].0);
                                            assert(0 <= a.1 as int - 1 && a.1 as int - 1 < self.dep_count(a.0 as int));
                                        } else {
                                            assert(w[q] == stack@[sl - 1].0);
                                            assert(stack@[sl - 1] == (tn, (tc + 1) as usize));
                                            assert(self.dep_at(tn as int, tc as int) == d as int);
                                            assert(0 <= tc as int && (tc as int) < self.dep_count(tn as int));
                                        }
                                    }
                                    assert(self.is_cycle_path(w));
                                }
                                return Err(GraphError::CyclicDependency);
                            }
                            Mark::Done => {
                                proof {
                                    assert(stack@.drop_last() =~= stack0.drop_last());
                                    assert(stack@.last() == (tn, (tc + 1) as usize));
                                    assert(stack0.last() == (tn, tc));
                                    assert(rem_sum(*self, stack@) == rem_sum(*self, stack0) - 1);
                                    assert forall|p: int| 0 <= p < stack@.len() - 1
                                        implies chain_link(*self, #[trigger] stack@[p],
                                            stack@[p + 1]) by {
                                        assert(stack@[p] == stack0[p]);
                                        assert(stack@[p + 1].0 == stack0[p + 1].0);
                                        assert(chain_link(*self, stack0[p], stack0[p + 1]));
                                    }
                                    assert forall|p: int| 0 <= p < stack@.len() - 1
                                        implies examined_done(*self, marks@,
                                            #[trigger] stack@[p], stack@[p].1 - 1) by {
                                        assert(stack@[p] == stack0[p]);
                                        assert(examined_done(*self, marks@, stack0[p],
                                            stack0[p].1 - 1));
                                    }
                                    assert(examined_done(*self, marks@,
                                        stack@[stack@.len() - 1], tc + 1 as int)) by {
                                        assert(examined_done(*self, marks0, (tn, tc),
                                            tc as int));
                                        assert forall|j: int| 0 <= j < tc + 1 as int
                                            implies marks@[#[trigger] self.dep_at(
                                                tn as int, j)] == Mark::Done by {
                                            if j < tc as int {
                                                assert(marks0[self.dep_at(tn as int, j)]
                                                    == Mark::Done);
                                            } else {
                                                assert(self.dep_at(tn as int, tc as int)
                                                    == d as int);
                                            }
                                        }
                                    }
                                    assert forall|i2: int|
                                        0 <= i2 < marks@.len()
                                            && (#[trigger] marks@[i2]) == Mark::Active
                                        implies exists|p: int|
                                            0 <= p < stack@.len()
                                                && stack@[p].0 as int == i2 by {
                                        let p = choose|p: int| 0 <= p < stack0.len()
                                            && stack0[p].0 as int == i2;
                                        assert(stack@[p].0 == stack0[p].0);
                                    }
                                    lemma_count_new_nonneg(marks@);
                                    lemma_rem_sum_nonneg(*self, stack@);
                                }
                            }
                        }
    } else {
                        let ghost order0 = order@;
                        let _popped: Option<(usize, usize)> = stack.pop();
                        marks.set(tn, Mark::Done);
                        order.push(tn);
                        proof {
                            lemma_count_new_update(marks0, tn as int, Mark::Done);
                            assert(stack@ =~= stack0.drop_last());
                            assert(rem_sum(*self, stack@) == rem_sum(*self, stack0));
                            let k_new = order@.len() - 1;
                            assert(order@[k_new] == tn);
                            // the schedule stays duplicate-free: tn was Active,
                            // everything scheduled is Done
                            assert forall|k: int| 0 <= k < k_new
                                implies #[trigger] order@[k] != tn by {
                                assert(marks0[order0[k] as int] == Mark::Done);
                            }
                            assert(order@.no_duplicates());
                            // every dependency of tn was examined and is Done,
                            // hence already scheduled
                            assert(examined_done(*self, marks0, (tn, tc), tc as int));
                            assert forall|k: int, d2: int|
                                0 <= k < order@.len() && #[trigger] self.has_edge(
                                    order@[k] as int, d2)
                                implies exists|m: int|
                                    0 <= m < k && order@[m] as int == d2 by {
                                if k == k_new {
                                    let j = choose|j: int| 0 <= j < self.dep_count(tn as int)
                                        && self.dep_at(tn as int, j) == d2;
                                    assert(marks0[d2] == Mark::Done);
                                    assert(order0.contains(d2 as usize));
                                    let m = choose|m: int| 0 <= m < order0.len()
                                        && order0[m] == d2 as usize;
                                    assert(order@[m] as int == d2);
                                } else {
                                    assert(order@[k] == order0[k]);
                                    assert(self.has_edge(order0[k] as int, d2));
                                    let m = choose|m: int| 0 <= m < k
                                        && order0[m] as int == d2;
                                    assert(order@[m] as int == d2);
                                }
                            }
                            // a remaining Active node still sits on the stack
                            assert forall|i2: int|
                                0 <= i2 < marks@.len() && (#[trigger] marks@[i2]) == Mark::Active
                                implies exists|p: int|
                                    0 <= p < stack@.len() && stack@[p].0 as int == i2 by {
                                assert(marks0[i2] == Mark::Active);
                                let p = choose|p: int| 0 <= p < stack0.len()
                                    && stack0[p].0 as int == i2;
                                assert(stack0[stack0.len() - 1].0 == tn);
                                assert(p < stack0.len() - 1);
                                assert(stack@[p].0 as int == i2);
                            }
                            assert(count_new(marks@) == count_new(marks0));
                            assert forall|i2: int|
                                0 <= i2 < marks@.len() && (#[trigger] marks@[i2]) == Mark::Done
                                implies order@.contains(i2 as usize) by {
                                if i2 == tn as int {
                                    assert(order@[k_new] == tn);
                                } else {
                                    assert(marks0[i2] == Mark::Done);
                                    assert(order0.contains(i2 as usize));
                                    let m = choose|m: int| 0 <= m < order0.len()
                                        && order0[m] == i2 as usize;
                                    assert(order@[m] == (i2 as usize));
                                }
                            }
                            assert forall|k: int| 0 <= k < order@.len()
                                implies marks@[(#[trigger] order@[k]) as int] == Mark::Done by {
                                if k < k_new {
                                    assert(order@[k] == order0[k]);
                                    assert(marks0[order0[k] as int] == Mark::Done);
                                }
                            }
                            lemma_count_new_nonneg(marks@);
                            lemma_rem_sum_nonneg(*self, stack@);
                        }
                    }
                }
                proof {
                    assert(marks@[root as int] == Mark::Done);
                }
            }
            root = root + 1;
        }
        proof {
            assert forall|i2: usize| (i2 as int) < self.node_count()
                implies #[trigger] order@.contains(i2) by {
                assert(marks@[i2 as int] == Mark::Done);
            }
        }
        Ok(order)
    }
}

/// The position of node `x` in `order`.
spec fn pos_of(order: Seq<usize>, x: usize) -> int {
    choose|k: int| 0 <= k < order.len() && order[k] == x
}

proof fn lemma_pos_of(g: DepGraph, order: Seq<usize>, x: usize)
    requires
        g.is_valid_order(order),
        (x as int) < g.node_count(),
    ensures
        0 <= pos_of(order, x) < order.len(),
        order[pos_of(order, x)] == x,
{
    assert(order.contains(x));
    let k = choose|k: int| 0 <= k < order.len() && order[k] == x;
    assert(0 <= k < order.len() && order[k] == x);
}

proof fn lemma_edge_scheduled_before(g: DepGraph, order: Seq<usize>, a: usize, b: usize)
    requires
        g.is_valid_order(order),
        g.has_edge(a as int, b as int),
        (a as int) < g.node_count(),
        (b as int) < g.node_count(),
    ensures
        pos_of(order, b) < pos_of(order, a),
{
    lemma_pos_of(g, order, a);
    lemma_pos_of(g, order, b);
    let ka = pos_of(order, a);
    assert(g.has_edge(order[ka] as int, b as int));
    let m = choose|m: int| 0 <= m < ka && order[m] as int == b as int;
    assert(order[m] == order[pos_of(order, b)]);
    assert(m == pos_of(order, b));
}

proof fn lemma_cycle_walk(g: DepGraph, order: Seq<usize>, p: Seq<usize>, i: int)
    requires
        g.is_valid_order(order),
        g.is_cycle_path(p),
        1 <= i < p.len(),
    ensures
        pos_of(order, p[i]) <= pos_of(order, p[0]) - i,
    decreases i,
{
    if i == 1 {
        lemma_edge_scheduled_before(g, order, p[0], p[1]);
    } else {
        lemma_cycle_walk(g, order, p, i - 1);
        lemma_edge_scheduled_before(g, order, p[i - 1], p[i]);
    }
}

/// A schedule that puts every dependency before its dependent rules out any
/// dependency cycle: walking a cycle would move strictly earlier in the
/// schedule at every step and still return to its starting node.  So whenever
/// `resolve_order` succeeds the registered edges are acyclic, and a graph
/// with a cycle always gets `CyclicDependency` back.
pub proof fn lemma_valid_order_acyclic(g: DepGraph, order: Seq<usize>)
    requires
        g.is_valid_order(order),
    ensures
        !g.has_cycle(),
{
    if g.has_cycle() {
        let p = choose|p: Seq<usize>| g.is_cycle_path(p);
        let l = p.len() - 1;
        lemma_cycle_walk(g, order, p, l);
        assert(p[l] == p[0]);
    }
}

/// A valid schedule has exactly one slot per registered node: it misses
/// none and repeats none.
pub proof fn lemma_valid_order_len(g: DepGraph, order: Seq<usize>)
    requires
        g.is_valid_order(order),
        g.node_count() <= usize::MAX,
    ensures
        order.len() == g.node_count(),
{
    broadcast use vstd::seq_lib::seq_to_set_is_finite;


    let oi = order.map_values(|x: usize| x as int);
    assert(oi.no_duplicates()) by {
        assert forall|p: int, q: int|
            0 <= p < oi.len() && 0 <= q < oi.len() && p != q
            implies oi[p] != oi[q] by {
            assert(order[p] != order[q]);
        }
    }
    oi.unique_seq_to_set();
    let rng = vstd::set_lib::set_int_range(0, g.node_count());
    vstd::set_lib::lemma_int_range(0, g.node_count());
    assert(oi.to_set() =~= rng) by {
        assert forall|x: int| oi.to_set().contains(x) implies rng.contains(x) by {
            assert(oi.contains(x));
            let k = choose|k: int| 0 <= k < oi.len() && oi[k] == x;
            assert(order[k] as int == x);
        }
        assert forall|x: int| rng.contains(x) implies oi.to_set().contains(x) by {
            assert(order.contains(x as usize));
            let k = choose|k: int| 0 <= k < order.len() && order[k] == x as usize;
            assert(oi[k] == x);
            assert(oi.contains(x));
        }
    }
}

} // verus!
