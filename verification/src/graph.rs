//! Dependency graphs of plan steps.

use vstd::prelude::*;

use crate::text::holds_id;

verus! {

/// One step of a dependency graph.
#[derive(Clone, Debug, PartialEq, Eq)]
pub struct GraphNode {
    pub id: u32,
    pub depends_on: Vec<u32>,
}

/// The mathematical content of one step.
pub struct NodeModel {
    pub id: u32,
    pub deps: Seq<u32>,
}

/// A dependency graph under examination.
pub struct Graph {
    pub nodes: Vec<GraphNode>,
}

impl View for Graph {
    type V = Seq<NodeModel>;

    open spec fn view(&self) -> Seq<NodeModel> {
        self.nodes@.map_values(|n: GraphNode| NodeModel { id: n.id, deps: n.depends_on@ })
    }
}

/// What is wrong with a dependency graph.
#[derive(Clone, Copy, Debug, PartialEq, Eq, Structural)]
pub enum GraphFault {
    ZeroStepId,
    DuplicateStepId(u32),
    SelfDependency(u32),
    UnknownDependency { step_id: u32, dependency: u32 },
    DependencyCycle,
}

pub open spec fn node_ids(nodes: Seq<NodeModel>) -> Seq<u32> {
    nodes.map_values(|n: NodeModel| n.id)
}

/// The first step number that is zero or was used before.
pub open spec fn id_fault(ids: Seq<u32>) -> Option<GraphFault>
    decreases ids.len(),
{
    if ids.len() == 0 {
        None
    } else if id_fault(ids.drop_last()) is Some {
        id_fault(ids.drop_last())
    } else if ids.last() == 0 {
        Some(GraphFault::ZeroStepId)
    } else if ids.drop_last().contains(ids.last()) {
        Some(GraphFault::DuplicateStepId(ids.last()))
    } else {
        None
    }
}

/// The first dependency of one step that is the step itself or no known step.
pub open spec fn step_dependency_fault(id: u32, deps: Seq<u32>, known: Seq<u32>) -> Option<
    GraphFault,
>
    decreases deps.len(),
{
    if deps.len() == 0 {
        None
    } else if step_dependency_fault(id, deps.drop_last(), known) is Some {
        step_dependency_fault(id, deps.drop_last(), known)
    } else if deps.last() == id {
        Some(GraphFault::SelfDependency(id))
    } else if !known.contains(deps.last()) {
        Some(GraphFault::UnknownDependency { step_id: id, dependency: deps.last() })
    } else {
        None
    }
}

/// The first faulty dependency over all steps, in order.
pub open spec fn dependency_fault(nodes: Seq<NodeModel>, known: Seq<u32>) -> Option<GraphFault>
    decreases nodes.len(),
{
    if nodes.len() == 0 {
        None
    } else if dependency_fault(nodes.drop_last(), known) is Some {
        dependency_fault(nodes.drop_last(), known)
    } else {
        step_dependency_fault(nodes.last().id, nodes.last().deps, known)
    }
}

/// `rank` places every step after all the steps it depends on.
pub open spec fn orders(nodes: Seq<NodeModel>, rank: spec_fn(u32) -> nat) -> bool {
    forall|i: int, k: int|
        0 <= i < nodes.len() && 0 <= k < nodes[i].deps.len() ==> rank(
            #[trigger] nodes[i].deps[k],
        ) < rank(nodes[i].id)
}

/// The steps can be put into an order in which no step comes before one it depends on.
pub open spec fn acyclic(nodes: Seq<NodeModel>) -> bool {
    exists|rank: spec_fn(u32) -> nat| #[trigger] orders(nodes, rank)
}

/// What a dependency graph is refused for, if anything.
pub open spec fn graph_fault(nodes: Seq<NodeModel>) -> Option<GraphFault> {
    if id_fault(node_ids(nodes)) is Some {
        id_fault(node_ids(nodes))
    } else if dependency_fault(nodes, node_ids(nodes)) is Some {
        dependency_fault(nodes, node_ids(nodes))
    } else if !acyclic(nodes) {
        Some(GraphFault::DependencyCycle)
    } else {
        None
    }
}

/// A closed walk along dependencies: each entry is an index, each step's dependency is the next.
pub open spec fn closed_walk(nodes: Seq<NodeModel>, walk: Seq<int>) -> bool {
    &&& walk.len() >= 2
    &&& walk[0] == walk.last()
    &&& forall|j: int| 0 <= j < walk.len() ==> 0 <= #[trigger] walk[j] < nodes.len()
    &&& forall|j: int|
        0 <= j < walk.len() - 1 ==> #[trigger] nodes[walk[j]].deps.contains(
            nodes[walk[j + 1]].id,
        )
}

/// A graph with a closed walk has no dependency order.
pub proof fn closed_walk_is_cyclic(nodes: Seq<NodeModel>, walk: Seq<int>)
    requires
        closed_walk(nodes, walk),
    ensures
        !acyclic(nodes),
{
    if acyclic(nodes) {
        let rank = choose|rank: spec_fn(u32) -> nat| #[trigger] orders(nodes, rank);
        lemma_walk_descends(nodes, walk, rank, walk.len() - 1);
    }
}

proof fn lemma_walk_descends(
    nodes: Seq<NodeModel>,
    walk: Seq<int>,
    rank: spec_fn(u32) -> nat,
    j: int,
)
    requires
        closed_walk(nodes, walk),
        orders(nodes, rank),
        1 <= j < walk.len(),
    ensures
        rank(nodes[walk[j]].id) < rank(nodes[walk[0]].id),
    decreases j,
{
    let from = walk[j - 1];
    assert(nodes[walk[j - 1]].deps.contains(nodes[walk[j - 1 + 1]].id));
    let k = choose|k: int|
        0 <= k < nodes[from].deps.len() && nodes[from].deps[k] == nodes[walk[j]].id;
    assert(rank(nodes[from].deps[k]) < rank(nodes[from].id));
    if j > 1 {
        lemma_walk_descends(nodes, walk, rank, j - 1);
    }
}

fn check_ids(graph: &Graph) -> (fault: Option<GraphFault>)
    ensures
        fault == id_fault(node_ids(graph@)),
{
    let mut ids: Vec<u32> = Vec::new();
    let ghost all = node_ids(graph@);
    let mut i: usize = 0;
    while i < graph.nodes.len()
        invariant
            i <= graph.nodes.len(),
            all == node_ids(graph@),
            ids@ == all.take(i as int),
            id_fault(all.take(i as int)) is None,
        decreases graph.nodes.len() - i,
    {
        let id: u32 = graph.nodes[i].id;
        proof {
            assert(all.take(i + 1).drop_last() =~= all.take(i as int));
            assert(all.take(i + 1).last() == id);
        }
        if id == 0 {
            proof {
                lemma_id_fault_stays(all, i + 1);
            }
            return Some(GraphFault::ZeroStepId);
        }
        if holds_id(&ids, id) {
            proof {
                lemma_id_fault_stays(all, i + 1);
            }
            return Some(GraphFault::DuplicateStepId(id));
        }
        ids.push(id);
        assert(ids@ =~= all.take(i + 1));
        i += 1;
    }
    assert(all.take(all.len() as int) =~= all);
    None
}

proof fn lemma_id_fault_stays(ids: Seq<u32>, n: int)
    requires
        0 <= n <= ids.len(),
        id_fault(ids.take(n)) is Some,
    ensures
        id_fault(ids) == id_fault(ids.take(n)),
    decreases ids.len(),
{
    if n == ids.len() {
        assert(ids.take(n) =~= ids);
    } else {
        assert(ids.drop_last().take(n) =~= ids.take(n));
        lemma_id_fault_stays(ids.drop_last(), n);
    }
}

proof fn lemma_step_fault_stays(id: u32, deps: Seq<u32>, known: Seq<u32>, n: int)
    requires
        0 <= n <= deps.len(),
        step_dependency_fault(id, deps.take(n), known) is Some,
    ensures
        step_dependency_fault(id, deps, known) == step_dependency_fault(id, deps.take(n), known),
    decreases deps.len(),
{
    if n == deps.len() {
        assert(deps.take(n) =~= deps);
    } else {
        assert(deps.drop_last().take(n) =~= deps.take(n));
        lemma_step_fault_stays(id, deps.drop_last(), known, n);
    }
}

proof fn lemma_dependency_fault_stays(nodes: Seq<NodeModel>, known: Seq<u32>, n: int)
    requires
        0 <= n <= nodes.len(),
        dependency_fault(nodes.take(n), known) is Some,
    ensures
        dependency_fault(nodes, known) == dependency_fault(nodes.take(n), known),
    decreases nodes.len(),
{
    if n == nodes.len() {
        assert(nodes.take(n) =~= nodes);
    } else {
        assert(nodes.drop_last().take(n) =~= nodes.take(n));
        lemma_dependency_fault_stays(nodes.drop_last(), known, n);
    }
}

fn check_step_dependencies(id: u32, deps: &Vec<u32>, known: &Vec<u32>) -> (fault: Option<GraphFault>)
    ensures
        fault == step_dependency_fault(id, deps@, known@),
{
    let mut k: usize = 0;
    while k < deps.len()
        invariant
            k <= deps.len(),
            step_dependency_fault(id, deps@.take(k as int), known@) is None,
        decreases deps.len() - k,
    {
        let dependency: u32 = deps[k];
        proof {
            assert(deps@.take(k + 1).drop_last() =~= deps@.take(k as int));
            assert(deps@.take(k + 1).last() == dependency);
        }
        if dependency == id {
            proof {
                lemma_step_fault_stays(id, deps@, known@, k + 1);
            }
            return Some(GraphFault::SelfDependency(id));
        }
        if !holds_id(known, dependency) {
            proof {
                lemma_step_fault_stays(id, deps@, known@, k + 1);
            }
            return Some(GraphFault::UnknownDependency { step_id: id, dependency });
        }
        k += 1;
    }
    assert(deps@.take(deps@.len() as int) =~= deps@);
    None
}

fn ids_of(graph: &Graph) -> (ids: Vec<u32>)
    ensures
        ids@ == node_ids(graph@),
{
    let mut ids: Vec<u32> = Vec::new();
    let mut i: usize = 0;
    while i < graph.nodes.len()
        invariant
            i <= graph.nodes.len(),
            ids@ == node_ids(graph@).take(i as int),
        decreases graph.nodes.len() - i,
    {
        ids.push(graph.nodes[i].id);
        assert(node_ids(graph@).take(i + 1) =~= node_ids(graph@).take(i as int).push(
            graph@[i as int].id,
        ));
        i += 1;
    }
    assert(node_ids(graph@).take(graph@.len() as int) =~= node_ids(graph@));
    ids
}

fn check_dependencies(graph: &Graph, known: &Vec<u32>) -> (fault: Option<GraphFault>)
    ensures
        fault == dependency_fault(graph@, known@),
{
    let mut i: usize = 0;
    while i < graph.nodes.len()
        invariant
            i <= graph.nodes.len(),
            dependency_fault(graph@.take(i as int), known@) is None,
        decreases graph.nodes.len() - i,
    {
        proof {
            assert(graph@.take(i + 1).drop_last() =~= graph@.take(i as int));
            assert(graph@.take(i + 1).last() == graph@[i as int]);
        }
        let fault = check_step_dependencies(graph.nodes[i].id, &graph.nodes[i].depends_on, known);
        if fault.is_some() {
            proof {
                lemma_dependency_fault_stays(graph@, known@, i + 1);
            }
            return fault;
        }
        i += 1;
    }
    assert(graph@.take(graph@.len() as int) =~= graph@);
    None
}

/// Every dependency of every step is a step of the graph.
spec fn closed_graph(nodes: Seq<NodeModel>) -> bool {
    forall|i: int, k: int|
        0 <= i < nodes.len() && 0 <= k < nodes[i].deps.len() ==> node_ids(nodes).contains(
            #[trigger] nodes[i].deps[k],
        )
}

proof fn lemma_step_fault_none(id: u32, deps: Seq<u32>, known: Seq<u32>)
    requires
        step_dependency_fault(id, deps, known) is None,
    ensures
        forall|k: int| 0 <= k < deps.len() ==> known.contains(#[trigger] deps[k]),
    decreases deps.len(),
{
    if deps.len() > 0 {
        lemma_step_fault_none(id, deps.drop_last(), known);
        assert forall|k: int| 0 <= k < deps.len() implies known.contains(#[trigger] deps[k]) by {
            if k < deps.len() - 1 {
                assert(deps.drop_last()[k] == deps[k]);
            }
        }
    }
}

proof fn lemma_dependency_fault_none(nodes: Seq<NodeModel>, known: Seq<u32>)
    requires
        dependency_fault(nodes, known) is None,
    ensures
        forall|i: int, k: int|
            0 <= i < nodes.len() && 0 <= k < nodes[i].deps.len() ==> known.contains(
                #[trigger] nodes[i].deps[k],
            ),
    decreases nodes.len(),
{
    if nodes.len() > 0 {
        lemma_dependency_fault_none(nodes.drop_last(), known);
        lemma_step_fault_none(nodes.last().id, nodes.last().deps, known);
        assert forall|i: int, k: int|
            0 <= i < nodes.len() && 0 <= k < nodes[i].deps.len() implies known.contains(
            #[trigger] nodes[i].deps[k],
        ) by {
            if i < nodes.len() - 1 {
                assert(nodes.drop_last()[i].deps[k] == nodes[i].deps[k]);
            }
        }
    }
}

pub proof fn lemma_id_fault_none(ids: Seq<u32>)
    requires
        id_fault(ids) is None,
    ensures
        forall|i: int, j: int| 0 <= i < j < ids.len() ==> ids[i] != ids[j],
    decreases ids.len(),
{
    if ids.len() > 0 {
        lemma_id_fault_none(ids.drop_last());
        assert forall|i: int, j: int| 0 <= i < j < ids.len() implies ids[i] != ids[j] by {
            if j < ids.len() - 1 {
                assert(ids.drop_last()[i] != ids.drop_last()[j]);
            } else {
                assert(ids.drop_last()[i] == ids[i]);
            }
        }
    }
}

/// Where each unplaced step has an unplaced dependency, no rank orders the steps.
proof fn lemma_stuck_is_cyclic(
    nodes: Seq<NodeModel>,
    placed: Seq<u32>,
    rank: spec_fn(u32) -> nat,
    i: int,
    bound: nat,
)
    requires
        closed_graph(nodes),
        forall|a: int|
            #![trigger nodes[a]]
            0 <= a < nodes.len() && !placed.contains(nodes[a].id) ==> exists|k: int|
                0 <= k < nodes[a].deps.len() && !placed.contains(
                    #[trigger] nodes[a].deps[k],
                ),
        0 <= i < nodes.len(),
        !placed.contains(nodes[i].id),
        rank(nodes[i].id) <= bound,
    ensures
        !orders(nodes, rank),
    decreases bound,
{
    if orders(nodes, rank) {
        let k = choose|k: int|
            0 <= k < nodes[i].deps.len() && !placed.contains(
                #[trigger] nodes[i].deps[k],
            );
        let d = nodes[i].deps[k];
        assert(rank(d) < rank(nodes[i].id));
        assert(node_ids(nodes).contains(d));
        let j = choose|j: int| 0 <= j < node_ids(nodes).len() && node_ids(nodes)[j] == d;
        assert(nodes[j].id == d);
        lemma_stuck_is_cyclic(nodes, placed, rank, j, (bound - 1) as nat);
    }
}

/// Whether all dependencies of a step are placed.
fn all_placed(deps: &Vec<u32>, placed: &Vec<u32>) -> (yes: bool)
    ensures
        yes == (forall|k: int| 0 <= k < deps@.len() ==> placed@.contains(#[trigger] deps@[k])),
{
    let mut k: usize = 0;
    while k < deps.len()
        invariant
            k <= deps.len(),
            forall|j: int| 0 <= j < k ==> placed@.contains(#[trigger] deps@[j]),
        decreases deps.len() - k,
    {
        if !holds_id(placed, deps[k]) {
            assert(!placed@.contains(deps@[k as int]));
            return false;
        }
        k += 1;
    }
    true
}

/// The placed steps stand in an order in which each comes after its dependencies.
spec fn placed_in_order(nodes: Seq<NodeModel>, placed: Seq<u32>) -> bool {
    &&& forall|p: int, q: int| 0 <= p < q < placed.len() ==> placed[p] != placed[q]
    &&& forall|a: int, k: int, p: int|
        0 <= a < nodes.len() && 0 <= p < placed.len() && placed[p] == nodes[a].id && 0 <= k
            < nodes[a].deps.len() ==> #[trigger] placed.take(p).contains(
            #[trigger] nodes[a].deps[k],
        )
}

spec fn place_rank(placed: Seq<u32>, id: u32) -> nat {
    if placed.contains(id) {
        placed.index_of(id) as nat
    } else {
        0
    }
}

proof fn lemma_placed_orders(nodes: Seq<NodeModel>, placed: Seq<u32>)
    requires
        placed_in_order(nodes, placed),
        forall|a: int| #![trigger nodes[a]] 0 <= a < nodes.len() ==> placed.contains(nodes[a].id),
    ensures
        acyclic(nodes),
{
    let rank = |id: u32| place_rank(placed, id);
    assert forall|i: int, k: int|
        0 <= i < nodes.len() && 0 <= k < nodes[i].deps.len() implies rank(
        #[trigger] nodes[i].deps[k],
    ) < rank(nodes[i].id) by {
        let d = nodes[i].deps[k];
        let p = placed.index_of(nodes[i].id);
        assert(placed.contains(nodes[i].id));
        assert(0 <= p < placed.len() && placed[p] == nodes[i].id);
        assert(placed.take(p).contains(d));
        let q = choose|q: int| 0 <= q < placed.take(p).len() && placed.take(p)[q] == d;
        assert(placed[q] == d);
        assert(placed.contains(d));
        let r = placed.index_of(d);
        assert(placed[r] == d);
        assert(r == q);
    }
    assert(orders(nodes, rank));
}

/// Looks for an unplaced step whose dependencies are all placed.
fn next_placeable(graph: &Graph, placed: &Vec<u32>) -> (found: Option<usize>)
    ensures
        match found {
            Some(i) => i < graph@.len() && !placed@.contains(graph@[i as int].id) && (forall|k: int|
                0 <= k < graph@[i as int].deps.len() ==> placed@.contains(
                    #[trigger] graph@[i as int].deps[k],
                )),
            None => forall|a: int|
                #![trigger graph@[a]]
                0 <= a < graph@.len() && !placed@.contains(graph@[a].id) ==> exists|k: int|
                    0 <= k < graph@[a].deps.len() && !placed@.contains(
                        #[trigger] graph@[a].deps[k],
                    ),
        },
{
    let mut i: usize = 0;
    while i < graph.nodes.len()
        invariant
            i <= graph.nodes.len(),
            forall|a: int|
                #![trigger graph@[a]]
                0 <= a < i && !placed@.contains(graph@[a].id) ==> exists|k: int|
                    0 <= k < graph@[a].deps.len() && !placed@.contains(
                        #[trigger] graph@[a].deps[k],
                    ),
        decreases graph.nodes.len() - i,
    {
        if !holds_id(placed, graph.nodes[i].id) && all_placed(&graph.nodes[i].depends_on, placed) {
            return Some(i);
        }
        i += 1;
    }
    None
}

/// Looks for a step that is not placed.
fn missing_step(graph: &Graph, placed: &Vec<u32>) -> (missing: Option<usize>)
    ensures
        match missing {
            Some(i) => i < graph@.len() && !placed@.contains(graph@[i as int].id),
            None => forall|a: int|
                #![trigger graph@[a]]
                0 <= a < graph@.len() ==> placed@.contains(graph@[a].id),
        },
{
    let mut i: usize = 0;
    while i < graph.nodes.len()
        invariant
            i <= graph.nodes.len(),
            forall|a: int|
                #![trigger graph@[a]]
                0 <= a < i ==> placed@.contains(graph@[a].id),
        decreases graph.nodes.len() - i,
    {
        if !holds_id(placed, graph.nodes[i].id) {
            return Some(i);
        }
        i += 1;
    }
    None
}

proof fn lemma_placed_bound(nodes: Seq<NodeModel>, placed: Seq<u32>)
    requires
        forall|p: int, q: int| 0 <= p < q < placed.len() ==> placed[p] != placed[q],
        forall|p: int| 0 <= p < placed.len() ==> node_ids(nodes).contains(#[trigger] placed[p]),
    ensures
        placed.len() <= nodes.len(),
{
    let ids = node_ids(nodes);
    assert(placed.no_duplicates());
    placed.unique_seq_to_set();
    ids.lemma_cardinality_of_set();
    assert forall|x: u32| placed.to_set().contains(x) implies ids.to_set().contains(x) by {
        let p = choose|p: int| 0 <= p < placed.len() && placed[p] == x;
        assert(ids.contains(placed[p]));
    }
    vstd::set_lib::lemma_len_subset(placed.to_set(), ids.to_set());
}

/// Whether the steps have a dependency order.
fn check_acyclic(graph: &Graph) -> (ok: bool)
    requires
        closed_graph(graph@),
        forall|i: int, j: int|
            0 <= i < j < graph@.len() ==> node_ids(graph@)[i] != node_ids(graph@)[j],
    ensures
        ok == acyclic(graph@),
{
    let mut placed: Vec<u32> = Vec::new();
    loop
        invariant
            closed_graph(graph@),
            forall|i: int, j: int|
                0 <= i < j < graph@.len() ==> node_ids(graph@)[i] != node_ids(graph@)[j],
            placed@.len() <= graph@.len(),
            forall|p: int|
                0 <= p < placed@.len() ==> node_ids(graph@).contains(#[trigger] placed@[p]),
            placed_in_order(graph@, placed@),
        decreases graph@.len() - placed@.len(),
    {
        match next_placeable(graph, &placed) {
            Some(i) => {
                let ghost before = placed@;
                placed.push(graph.nodes[i].id);
                proof {
                    let id = graph@[i as int].id;
                    assert(node_ids(graph@)[i as int] == id);
                    assert(placed@.take(before.len() as int) =~= before);
                    assert forall|a: int, k: int, p: int|
                        0 <= a < graph@.len() && 0 <= p < placed@.len() && placed@[p]
                            == graph@[a].id && 0 <= k
                            < graph@[a].deps.len() implies #[trigger] placed@.take(
                        p,
                    ).contains(#[trigger] graph@[a].deps[k]) by {
                        if p < before.len() {
                            assert(placed@.take(p) =~= before.take(p));
                            assert(before[p] == graph@[a].id);
                            assert(before.take(p).contains(graph@[a].deps[k]));
                        } else {
                            assert(node_ids(graph@)[a] == node_ids(graph@)[i as int]);
                            assert(a == i);
                        }
                    }
                    lemma_placed_bound(graph@, placed@);
                }
            },
            None => {
                match missing_step(graph, &placed) {
                    Some(m) => {
                        proof {
                            if acyclic(graph@) {
                                let rank = choose|rank: spec_fn(u32) -> nat| #[trigger]
                                    orders(graph@, rank);
                                lemma_stuck_is_cyclic(
                                    graph@,
                                    placed@,
                                    rank,
                                    m as int,
                                    rank(graph@[m as int].id),
                                );
                            }
                        }
                        return false;
                    },
                    None => {
                        proof {
                            lemma_placed_orders(graph@, placed@);
                        }
                        return true;
                    },
                }
            },
        }
    }
}

/// Checks a dependency graph: step numbers first, then single dependencies, then order.
pub fn check_graph(graph: &Graph) -> (fault: Option<GraphFault>)
    ensures
        fault == graph_fault(graph@),
{
    let id_result = check_ids(graph);
    if id_result.is_some() {
        return id_result;
    }
    let ids = ids_of(graph);
    let dependency_result = check_dependencies(graph, &ids);
    if dependency_result.is_some() {
        return dependency_result;
    }
    proof {
        lemma_id_fault_none(node_ids(graph@));
        lemma_dependency_fault_none(graph@, node_ids(graph@));
    }
    if check_acyclic(graph) {
        None
    } else {
        Some(GraphFault::DependencyCycle)
    }
}

/// Steps without a fault have numbers other than zero, and no two share one.
pub proof fn valid_ids_are_distinct(ids: Seq<u32>, i: int, j: int)
    requires
        id_fault(ids) is None,
        0 <= i < ids.len(),
        0 <= j < ids.len(),
    ensures
        ids[i] != 0,
        i != j ==> ids[i] != ids[j],
    decreases ids.len(),
{
    let last = ids.len() - 1;
    if i < last && j < last {
        valid_ids_are_distinct(ids.drop_last(), i, j);
    } else {
        if i < last {
            valid_ids_are_distinct(ids.drop_last(), i, i);
            assert(ids.drop_last()[i] == ids[i]);
        }
        if j < last {
            assert(ids.drop_last()[j] == ids[j]);
        }
    }
}

} // verus!
