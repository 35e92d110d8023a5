use vstd::prelude::*;

use crate::command::Cmd;
use crate::error::GraphError;
use crate::pass::{
    meshes_resolve, spec_input, spec_prepare, spec_render, PassBehavior,
};
use crate::pipeline::{
    local_bind_group_layout, spec_local_layout, BindGroupLayoutEntry, Pipeline,
    PipelineDescription, PipelineDescriptionView, SimplePipelineDesc,
};
use crate::scene::{AssetManager, World};
use crate::scheduler::DepGraph;
use crate::target::{derive_cmds, derive_cubemap, derived_target, RenderTarget};

verus! {

/// One registered pass: its compiled pipeline, its per-frame behaviour, and
/// the two wiring flags.
pub struct RenderGraphNode {
    pub name: String,
    pub pipeline: Pipeline,
    pub pass: PassBehavior,
    /// This node's `prepare` receives its first dependency's current output
    /// target as input.
    pub use_output_from_dependency: bool,
    /// After rendering, reinterpret this node's flat output atlas as six
    /// stacked square faces and replace it with a cube-format target.
    pub create_cubemap_from_output: bool,
}

/// The frame graph: owns the node registry, the per-node output-target
/// table and the dependency scheduler, and records one full frame as a
/// command list.
pub struct RenderGraph {
    scheduler: DepGraph,
    nodes: Vec<RenderGraphNode>,
    outputs: Vec<Option<RenderTarget>>,
    next_target_id: u64,
    local_layout: Vec<BindGroupLayoutEntry>,
}

impl RenderGraph {
    /// The registered nodes, in registration order.
    pub closed spec fn spec_nodes(self) -> Seq<RenderGraphNode> {
        self.nodes@
    }

    /// The per-node output-target table, parallel to the nodes.
    pub closed spec fn spec_outputs(self) -> Seq<Option<RenderTarget>> {
        self.outputs@
    }

    /// The dependency registry the schedule is resolved from.
    pub closed spec fn spec_scheduler(self) -> DepGraph {
        self.scheduler
    }

    /// The id the next derived render target will get.
    pub closed spec fn spec_next_target_id(self) -> u64 {
        self.next_target_id
    }

    /// How many nodes are registered.
    pub open spec fn node_count(self) -> int {
        self.spec_nodes().len() as int
    }

    /// A node with this name is registered.
    pub open spec fn has_node(self, name: Seq<char>) -> bool {
        exists|i: int| 0 <= i < self.node_count()
            && (#[trigger] self.spec_nodes()[i]).name@ == name
    }

    /// The position of the node with this name (names are unique).
    pub open spec fn node_index(self, name: Seq<char>) -> int {
        choose|i: int| 0 <= i < self.node_count() && self.spec_nodes()[i].name@ == name
    }

    /// The graph's internal consistency: scheduler, node registry and
    /// output table describe the same nodes, and names are unique.
    pub closed spec fn wf(self) -> bool {
        &&& self.scheduler.wf()
        &&& self.scheduler.node_count() == self.nodes@.len()
        &&& self.outputs@.len() == self.nodes@.len()
        &&& forall|i: int, j: int| 0 <= i < j < self.nodes@.len()
            ==> (#[trigger] self.nodes@[i]).name@ != (#[trigger] self.nodes@[j]).name@
        &&& self.local_layout@ == spec_local_layout()
    }

    /// An empty graph.
    pub fn new() -> (g: RenderGraph)
        ensures
            g.wf(),
            g.node_count() == 0,
            g.spec_next_target_id() == 0,
    {
        RenderGraph {
            scheduler: DepGraph::new(),
            nodes: Vec::new(),
            outputs: Vec::new(),
            next_target_id: 0,
            local_layout: local_bind_group_layout(),
        }
    }

    /// How many nodes are registered.
    pub fn len(&self) -> (n: usize)
        ensures
            n as int == self.node_count(),
    {
        self.nodes.len()
    }

    /// The id the next derived render target will get.
    pub fn next_target_id(&self) -> (id: u64)
        ensures
            id == self.spec_next_target_id(),
    {
        self.next_target_id
    }

    /// Looks a node up by name.
    fn find_node(&self, name: &String) -> (r: Option<usize>)
        requires
            self.wf(),
        ensures
            match r {
                Some(i) => self.has_node(name@) && i as int == self.node_index(name@)
                    && (i as int) < self.node_count()
                    && self.spec_nodes()[i as int].name@ == name@,
                None => !self.has_node(name@),
            },
    {
        let mut i: usize = 0;
        while i < self.nodes.len()
            invariant
                self.wf(),
                i <= self.nodes@.len(),
                forall|j: int| 0 <= j < i as int
                    ==> (#[trigger] self.nodes@[j]).name@ != name@,
            decreases self.nodes@.len() - i,
        {
            if self.nodes[i].name == *name {
                proof {
                    let c = self.node_index(name@);
                    assert(self.spec_nodes()[c].name@ == name@);
                    assert(c == i as int);
                }
                return Some(i);
            }
            i = i + 1;
        }
        None
    }

    /// Read-only access to a node's pipeline handle and pass behaviour.
    pub fn get(&self, name: &String) -> (r: Result<&RenderGraphNode, GraphError>)
        requires
            self.wf(),
        ensures
            match r {
                Ok(n) => self.has_node(name@)
                    && *n == self.spec_nodes()[self.node_index(name@)],
                Err(e) => e == GraphError::UnknownNode && !self.has_node(name@),
            },
    {
        match self.find_node(name) {
            Some(i) => Ok(&self.nodes[i]),
            None => Err(GraphError::UnknownNode),
        }
    }

    /// The pipeline description a node gets: the pass's own declaration,
    /// with the graph-wide local binding-set layout prepended when the pass
    /// asked for local bindings.
    pub open spec fn spec_built_description(
        d: PipelineDescriptionView,
        include_local_bindings: bool,
    ) -> PipelineDescriptionView {
        if include_local_bindings {
            PipelineDescriptionView { layouts: seq![spec_local_layout()] + d.layouts, ..d }
        } else {
            d
        }
    }

    /// Builds the pass's pipeline and behaviour, registers the node and its
    /// dependency edges, and stores the optional output target.  Nothing is
    /// registered when the name is taken (`DuplicateNode`) or when an entry
    /// of `dependencies` is not a registered node name (`UnknownDependency`).
    pub fn add<T: SimplePipelineDesc>(
        &mut self,
        name: String,
        pipeline_desc: T,
        dependencies: &Vec<String>,
        include_local_bindings: bool,
        swap_format: crate::target::TextureFormat,
        output: Option<RenderTarget>,
        use_output_from_dependency: bool,
        create_cubemap_from_output: bool,
    ) -> (r: Result<(), GraphError>)
        requires
            old(self).wf(),
        ensures
            final(self).wf(),
            match r {
                Ok(()) => {
                    let added = final(self).spec_nodes().last();
                    &&& !old(self).has_node(name@)
                    &&& forall|j: int| 0 <= j < dependencies@.len()
                        ==> old(self).has_node((#[trigger] dependencies@[j])@)
                    &&& final(self).node_count() == old(self).node_count() + 1
                    &&& final(self).spec_nodes().drop_last() == old(self).spec_nodes()
                    &&& added.name@ == name@
                    &&& added.pipeline.desc@ == Self::spec_built_description(
                        pipeline_desc.spec_description(swap_format), include_local_bindings)
                    &&& added.pass == pipeline_desc.spec_behavior()
                    &&& added.use_output_from_dependency == use_output_from_dependency
                    &&& added.create_cubemap_from_output == create_cubemap_from_output
                    &&& final(self).spec_outputs() == old(self).spec_outputs().push(output)
                    &&& final(self).spec_scheduler().dep_count(old(self).node_count())
                        == dependencies@.len()
                    &&& forall|j: int| 0 <= j < dependencies@.len()
                        ==> #[trigger] final(self).spec_scheduler().dep_at(
                            old(self).node_count(), j)
                            == old(self).node_index(dependencies@[j]@)
                    &&& forall|m: int| 0 <= m < old(self).node_count()
                        ==> #[trigger] final(self).spec_scheduler().dep_count(m)
                            == old(self).spec_scheduler().dep_count(m)
                    &&& forall|m: int, j: int|
                        0 <= m < old(self).node_count()
                            && 0 <= j < old(self).spec_scheduler().dep_count(m)
                        ==> #[trigger] final(self).spec_scheduler().dep_at(m, j)
                            == old(self).spec_scheduler().dep_at(m, j)
                },
                Err(e) => *final(self) == *old(self) && ((
                    e == GraphError::DuplicateNode && old(self).has_node(name@)
                ) || (
                    e == GraphError::UnknownDependency && !old(self).has_node(name@)
                        && exists|j: int| 0 <= j < dependencies@.len()
                            && !old(self).has_node((#[trigger] dependencies@[j])@)
                )),
            },
    {
        if self.find_node(&name).is_some() {
            return Err(GraphError::DuplicateNode);
        }
        let mut dep_idxs: Vec<usize> = Vec::new();
        let mut j: usize = 0;
        while j < dependencies.len()
            invariant
                self.wf(),
                j <= dependencies@.len(),
                dep_idxs@.len() == j as int,
                forall|k: int| 0 <= k < j as int
                    ==> old(self).has_node((#[trigger] dependencies@[k])@),
                forall|k: int| 0 <= k < j as int
                    ==> (#[trigger] dep_idxs@[k]) as int
                        == self.node_index(dependencies@[k]@),
                forall|k: int| 0 <= k < j as int
                    ==> ((#[trigger] dep_idxs@[k]) as int) < self.node_count(),
                *self == *old(self),
                !old(self).has_node(name@),
            decreases dependencies@.len() - j,
        {
            match self.find_node(&dependencies[j]) {
                Some(i) => {
                    dep_idxs.push(i);
                },
                None => {
                    return Err(GraphError::UnknownDependency);
                },
            }
            j = j + 1;
        }
        let desc: PipelineDescription = pipeline_desc.description(swap_format);
        let built_desc: PipelineDescription = if include_local_bindings {
            let PipelineDescription {
                shader,
                layouts,
                rasterization,
                topology,
                color_states,
                depth_stencil,
                vertex_state,
            } = desc;
            let mut with_local: Vec<Vec<BindGroupLayoutEntry>> = Vec::new();
            with_local.push(local_bind_group_layout());
            let mut rest = layouts;
            with_local.append(&mut rest);
            let d = PipelineDescription {
                shader,
                layouts: with_local,
                rasterization,
                topology,
                color_states,
                depth_stencil,
                vertex_state,
            };
            proof {
                assert(d@.layouts =~= seq![spec_local_layout()]
                    + pipeline_desc.spec_description(swap_format).layouts);
                assert(d@ == Self::spec_built_description(
                    pipeline_desc.spec_description(swap_format), true));
            }
            d
        } else {
            desc
        };
        let pass: PassBehavior = pipeline_desc.build();
        let node = RenderGraphNode {
            name,
            pipeline: Pipeline { desc: built_desc },
            pass,
            use_output_from_dependency,
            create_cubemap_from_output,
        };
        self.nodes.push(node);
        self.outputs.push(output);
        self.scheduler.register_node();
        self.scheduler.register_dependencies(self.nodes.len() - 1, &dep_idxs);
        proof {
            assert forall|i: int, j2: int| 0 <= i < j2 < self.nodes@.len()
                implies (#[trigger] self.nodes@[i]).name@
                    != (#[trigger] self.nodes@[j2]).name@ by {
                if j2 == self.nodes@.len() - 1 {
                    assert(!old(self).has_node(self.nodes@[j2].name@));
                    assert(old(self).spec_nodes()[i].name@ == self.nodes@[i].name@);
                }
            }
            assert(self.spec_nodes().drop_last() =~= old(self).spec_nodes());
            assert forall|j2: int| 0 <= j2 < dependencies@.len()
                implies #[trigger] self.spec_scheduler().dep_at(old(self).node_count(), j2)
                    == old(self).node_index(dependencies@[j2]@) by {
                assert(self.scheduler.dep_at(old(self).node_count(), 0 + j2)
                    == dep_idxs@[j2] as int);
            }
        }
        Ok(())
    }

    /// Removes and returns the node's output target; the caller owns it,
    /// and the slot stays empty until the graph itself refills it.  Fails
    /// with `NoOutput` once the target was pulled (or never declared), and
    /// with `UnknownNode` for a name that was never registered.
    pub fn pull_render_target(&mut self, name: &String) -> (r: Result<RenderTarget, GraphError>)
        requires
            old(self).wf(),
        ensures
            final(self).wf(),
            final(self).spec_nodes() == old(self).spec_nodes(),
            final(self).spec_scheduler() == old(self).spec_scheduler(),
            final(self).spec_next_target_id() == old(self).spec_next_target_id(),
            match r {
                Ok(t) => old(self).has_node(name@)
                    && old(self).spec_outputs()[old(self).node_index(name@)]
                        == Some::<RenderTarget>(t)
                    && final(self).spec_outputs() == old(self).spec_outputs().update(
                        old(self).node_index(name@), None::<RenderTarget>),
                Err(e) => final(self).spec_outputs() == old(self).spec_outputs() && ((
                    e == GraphError::UnknownNode && !old(self).has_node(name@)
                ) || (
                    e == GraphError::NoOutput && old(self).has_node(name@)
                        && old(self).spec_outputs()[old(self).node_index(name@)]
                            is None
                )),
            },
    {
        match self.find_node(name) {
            Some(i) => {
                let cur: Option<RenderTarget> = self.outputs[i];
                match cur {
                    Some(t) => {
                        self.outputs.set(i, None);
                        Ok(t)
                    },
                    None => Err(GraphError::NoOutput),
                }
            },
            None => Err(GraphError::UnknownNode),
        }
    }
}

/// A successful pull leaves the slot empty: any graph in the state that
/// `pull_render_target` ensures after returning a target is one in which a
/// second pull of the same name finds no output, so its contract forces it
/// to fail with `NoOutput`.
pub proof fn lemma_pull_empties_the_slot(
    g: RenderGraph,
    g1: RenderGraph,
    name: Seq<char>,
    t: RenderTarget,
)
    requires
        g.wf(),
        g1.wf(),
        g.has_node(name),
        g.spec_outputs().len() == g.node_count(),
        g.spec_outputs()[g.node_index(name)] == Some::<RenderTarget>(t),
        g1.spec_nodes() == g.spec_nodes(),
        g1.spec_outputs() == g.spec_outputs().update(
            g.node_index(name), None::<RenderTarget>),
    ensures
        g1.has_node(name),
        g1.spec_outputs()[g1.node_index(name)] is None,
{
    let i = g.node_index(name);
    assert(g.spec_nodes()[i].name@ == name);
    assert(g1.spec_nodes()[i].name@ == name);
    assert(g1.has_node(name));
    let j = g1.node_index(name);
    assert(g1.spec_nodes()[j].name@ == name);
    assert(i == j);
}

/// What one frame step records and how it changes the graph's state.
pub type FrameState = (Seq<Cmd>, Seq<Option<RenderTarget>>, u64);

/// The input a node consumes: its first declared dependency's current
/// output target, when the node asked for one and has a dependency at all.
pub open spec fn spec_node_input(
    nodes: Seq<RenderGraphNode>,
    sched: DepGraph,
    outputs: Seq<Option<RenderTarget>>,
    n: usize,
) -> Option<RenderTarget> {
    if nodes[n as int].use_output_from_dependency && sched.dep_count(n as int) > 0 {
        outputs[sched.dep_at(n as int, 0)]
    } else {
        None
    }
}

/// Everything one node adds to the frame: its `prepare` commands; a render
/// pass opened on its own target (cleared) or, failing that, the frame's
/// swap image (loaded, with the shared depth buffer); its draw calls; and,
/// when it asked for a cube map and has an output, the derivation that
/// replaces that output.  With neither a target nor a swap image the frame
/// fails with `NoRenderTarget`.
pub open spec fn spec_frame_step(
    nodes: Seq<RenderGraphNode>,
    sched: DepGraph,
    world: World,
    assets: AssetManager,
    has_frame: bool,
    outputs: Seq<Option<RenderTarget>>,
    next_id: u64,
    n: usize,
) -> Result<FrameState, GraphError> {
    let input = spec_node_input(nodes, sched, outputs, n);
    let prep = spec_prepare(nodes[n as int].pass, n, world, assets, input);
    let rend = spec_render(nodes[n as int].pass, n, world, assets, input);
    match outputs[n as int] {
        Some(t) => {
            let base = prep + seq![Cmd::BeginTargetPass { node: n, target: t.id }] + rend
                + seq![Cmd::EndPass { node: n }];
            if nodes[n as int].create_cubemap_from_output {
                Ok((
                    base + derive_cmds(t, next_id),
                    outputs.update(n as int, Some(derived_target(t, next_id))),
                    ((next_id + 1) as u64),
                ))
            } else {
                Ok((base, outputs, next_id))
            }
        },
        None => if has_frame {
            Ok((
                prep + seq![Cmd::BeginFramePass { node: n }] + rend
                    + seq![Cmd::EndPass { node: n }],
                outputs,
                next_id,
            ))
        } else {
            Err(GraphError::NoRenderTarget)
        },
    }
}

/// A whole frame: the nodes of `order`, in order, each stepping the state
/// the previous one left.
pub open spec fn spec_frame_rec(
    nodes: Seq<RenderGraphNode>,
    sched: DepGraph,
    world: World,
    assets: AssetManager,
    has_frame: bool,
    order: Seq<usize>,
    outputs: Seq<Option<RenderTarget>>,
    next_id: u64,
) -> Result<FrameState, GraphError>
    decreases order.len(),
{
    if order.len() == 0 {
        Ok((Seq::empty(), outputs, next_id))
    } else {
        match spec_frame_rec(nodes, sched, world, assets, has_frame, order.drop_last(),
            outputs, next_id) {
            Err(e) => Err(e),
            Ok((cmds, outs, id)) => match spec_frame_step(nodes, sched, world, assets,
                has_frame, outs, id, order.last()) {
                Err(e) => Err(e),
                Ok((c2, outs2, id2)) => Ok((cmds + c2, outs2, id2)),
            },
        }
    }
}

proof fn lemma_frame_rec_error(
    nodes: Seq<RenderGraphNode>,
    sched: DepGraph,
    world: World,
    assets: AssetManager,
    has_frame: bool,
    order: Seq<usize>,
    outputs: Seq<Option<RenderTarget>>,
    next_id: u64,
    k: int,
    e: GraphError,
)
    requires
        0 <= k <= order.len(),
        spec_frame_rec(nodes, sched, world, assets, has_frame, order.take(k), outputs,
            next_id) == Err::<FrameState, GraphError>(e),
    ensures
        spec_frame_rec(nodes, sched, world, assets, has_frame, order, outputs, next_id)
            == Err::<FrameState, GraphError>(e),
    decreases order.len() - k,
{
    if k == order.len() {
        assert(order.take(k) =~= order);
    } else {
        assert(order.take(k + 1).drop_last() =~= order.take(k));
        lemma_frame_rec_error(nodes, sched, world, assets, has_frame, order, outputs,
            next_id, k + 1, e);
    }
}

impl RenderGraph {
    /// Resolves the execution order as node names: dependencies first, each
    /// node exactly once, ties broken by first-registration order.  Fails
    /// with `CyclicDependency` when the registered edges admit no schedule.
    pub fn resolve_order(&self) -> (r: Result<Vec<String>, GraphError>)
        requires
            self.wf(),
        ensures
            match r {
                Ok(names) => exists|order: Seq<usize>|
                    #[trigger] self.spec_scheduler().is_valid_order(order)
                        && names@.len() == order.len()
                        && forall|k: int| 0 <= k < order.len()
                            ==> (#[trigger] names@[k])@
                                == self.spec_nodes()[order[k] as int].name@,
                Err(e) => e == GraphError::CyclicDependency
                    && self.spec_scheduler().has_cycle(),
            },
    {
        let order: Vec<usize> = match self.scheduler.resolve_order() {
            Ok(o) => o,
            Err(e) => {
                return Err(e);
            },
        };
        let mut names: Vec<String> = Vec::new();
        let mut k: usize = 0;
        while k < order.len()
            invariant
                self.wf(),
                self.spec_scheduler().is_valid_order(order@),
                k <= order@.len(),
                names@.len() == k as int,
                forall|j: int| 0 <= j < k as int
                    ==> (#[trigger] names@[j])@ == self.spec_nodes()[order@[j] as int].name@,
            decreases order@.len() - k,
        {
            let n: usize = order[k];
            proof {
                assert((order@[k as int] as int) < self.spec_scheduler().node_count());
            }
            names.push(self.nodes[n].name.clone());
            k = k + 1;
        }
        Ok(names)
    }

    /// Records one full frame: resolves the order, then for every node in
    /// turn prepares it, opens its render pass, submits its draws and, when
    /// asked, replaces its output with the derived cube map.  The returned
    /// command list holds every node's commands in schedule order; the GPU
    /// executes them in exactly that order.
    #[verifier::loop_isolation(false)]
    #[verifier::rlimit(100)]
    pub fn render(&mut self, world: &World, assets: &AssetManager, has_frame: bool)
        -> (r: Result<Vec<Cmd>, GraphError>)
        requires
            old(self).wf(),
            meshes_resolve(*world, *assets),
            old(self).spec_next_target_id() as int + old(self).node_count()
                <= u64::MAX as int,
        ensures
            final(self).wf(),
            final(self).spec_nodes() == old(self).spec_nodes(),
            final(self).spec_scheduler() == old(self).spec_scheduler(),
            final(self).spec_outputs().len() == old(self).spec_outputs().len(),
            match r {
                Ok(cmds) => exists|order: Seq<usize>|
                    #[trigger] old(self).spec_scheduler().is_valid_order(order)
                        && spec_frame_rec(old(self).spec_nodes(),
                            old(self).spec_scheduler(), *world, *assets, has_frame, order,
                            old(self).spec_outputs(), old(self).spec_next_target_id())
                            == Ok::<FrameState, GraphError>((cmds@,
                                final(self).spec_outputs(),
                                final(self).spec_next_target_id())),
                Err(e) => (
                    e == GraphError::CyclicDependency
                        && old(self).spec_scheduler().has_cycle()
                        && *final(self) == *old(self)
                ) || (
                    e == GraphError::NoRenderTarget && exists|order: Seq<usize>, k: int|
                        #[trigger] old(self).spec_scheduler().is_valid_order(order)
                            && spec_frame_rec(old(self).spec_nodes(),
                                old(self).spec_scheduler(), *world, *assets, has_frame,
                                order, old(self).spec_outputs(),
                                old(self).spec_next_target_id())
                                == Err::<FrameState, GraphError>(GraphError::NoRenderTarget)
                            && 0 <= k <= order.len()
                            && (#[trigger] spec_frame_rec(old(self).spec_nodes(),
                                old(self).spec_scheduler(), *world, *assets, has_frame,
                                order.take(k), old(self).spec_outputs(),
                                old(self).spec_next_target_id()) matches Ok(st)
                                && st.1 == final(self).spec_outputs()
                                && st.2 == final(self).spec_next_target_id())
                ),
            },
    {
        let ghost nodes0 = self.spec_nodes();
        let ghost sched0 = self.spec_scheduler();
        let ghost outs0 = self.spec_outputs();
        let ghost id0 = self.spec_next_target_id();
        let node_total: usize = self.nodes.len();
        let order: Vec<usize> = match self.scheduler.resolve_order() {
            Ok(o) => o,
            Err(e) => {
                return Err(e);
            },
        };
        proof {
            assert(sched0.node_count() == node_total as int);
            crate::scheduler::lemma_valid_order_len(self.scheduler, order@);
        }
        let mut cmds: Vec<Cmd> = Vec::new();
        let mut k: usize = 0;
        while k < order.len()
            invariant
                k <= order@.len(),
                self.wf(),
                self.spec_nodes() == nodes0,
                self.spec_scheduler() == sched0,
                self.spec_outputs().len() == outs0.len(),
                self.spec_next_target_id() as int <= id0 as int + k as int,
                spec_frame_rec(nodes0, sched0, *world, *assets, has_frame,
                    order@.take(k as int), outs0, id0)
                    == Ok::<FrameState, GraphError>((cmds@, self.spec_outputs(),
                        self.spec_next_target_id())),
            decreases order@.len() - k,
        {
            let ghost outs_k = self.spec_outputs();
            let ghost id_k = self.spec_next_target_id();
            let ghost cmds_k = cmds@;
            let n: usize = order[k];
            proof {
                assert((order@[k as int] as int) < sched0.node_count());
            }
            let use_dep: bool = self.nodes[n].use_output_from_dependency;
            let mut input_opt: Option<RenderTarget> = None;
            if use_dep {
                if self.scheduler.dep_len(n) > 0 {
                    let d: usize = self.scheduler.dep(n, 0);
                    input_opt = self.outputs[d];
                }
            }
            let input_ref: Option<&RenderTarget> = input_opt.as_ref();
            proof {
                assert(spec_input(input_ref) == spec_node_input(nodes0, sched0, outs_k, n));
            }
            let mut prep: Vec<Cmd> = self.nodes[n].pass.prepare(n, world, assets,
                input_ref);
            cmds.append(&mut prep);
            let out_opt: Option<RenderTarget> = self.outputs[n];
            let create_flag: bool = self.nodes[n].create_cubemap_from_output;
            match out_opt {
                Some(t) => {
                    cmds.push(Cmd::BeginTargetPass { node: n, target: t.id });
                },
                None => {
                    if has_frame {
                        cmds.push(Cmd::BeginFramePass { node: n });
                    } else {
                        proof {
                            assert(order@.take(k as int + 1).drop_last()
                                =~= order@.take(k as int));
                            assert(spec_frame_step(nodes0, sched0, *world, *assets,
                                has_frame, outs_k, id_k, n)
                                == Err::<FrameState, GraphError>(GraphError::NoRenderTarget));
                            assert(spec_frame_rec(nodes0, sched0, *world, *assets,
                                has_frame, order@.take(k as int + 1), outs0, id0)
                                == Err::<FrameState, GraphError>(GraphError::NoRenderTarget));
                            lemma_frame_rec_error(nodes0, sched0, *world, *assets,
                                has_frame, order@, outs0, id0, k as int + 1,
                                GraphError::NoRenderTarget);
                            assert(spec_frame_rec(nodes0, sched0, *world, *assets,
                                has_frame, order@.take(k as int), outs0, id0)
                                matches Ok(st) && st.1 == self.spec_outputs()
                                && st.2 == self.spec_next_target_id());
                        }
                        return Err(GraphError::NoRenderTarget);
                    }
                },
            }
            let mut rend: Vec<Cmd> = self.nodes[n].pass.render(n, world, assets,
                input_ref);
            cmds.append(&mut rend);
            cmds.push(Cmd::EndPass { node: n });
            if create_flag {
                if let Some(t) = out_opt {
                    let (new_target, mut dcmds) = derive_cubemap(&t, self.next_target_id);
                    cmds.append(&mut dcmds);
                    self.outputs.set(n, Some(new_target));
                    self.next_target_id = self.next_target_id + 1;
                }
            }
            proof {
                assert(order@.take(k as int + 1).drop_last() =~= order@.take(k as int));
                assert(order@.take(k as int + 1).last() == n);
                assert(spec_frame_step(nodes0, sched0, *world, *assets, has_frame, outs_k,
                    id_k, n) == Ok::<FrameState, GraphError>((
                        cmds@.skip(cmds_k.len() as int), self.spec_outputs(),
                        self.spec_next_target_id()))) by {
                    assert(cmds@.skip(cmds_k.len() as int) =~= match spec_frame_step(
                        nodes0, sched0, *world, *assets, has_frame, outs_k, id_k, n) {
                        Ok(st) => st.0,
                        Err(_) => Seq::empty(),
                    });
                    assert(self.spec_outputs() =~= match spec_frame_step(nodes0, sched0,
                        *world, *assets, has_frame, outs_k, id_k, n) {
                        Ok(st) => st.1,
                        Err(_) => Seq::empty(),
                    });
                }
                assert(cmds@ =~= cmds_k + cmds@.skip(cmds_k.len() as int));
                assert(spec_frame_rec(nodes0, sched0, *world, *assets, has_frame,
                    order@.take(k as int + 1), outs0, id0)
                    == Ok::<FrameState, GraphError>((cmds@, self.spec_outputs(),
                        self.spec_next_target_id())));
            }
            k = k + 1;
        }
        proof {
            assert(order@.take(order@.len() as int) =~= order@);
        }
        Ok(cmds)
    }
}

} // verus!
