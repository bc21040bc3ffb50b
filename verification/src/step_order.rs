//! When the steps of a plan can be told apart and put in order.

use vstd::prelude::*;

use crate::graph;
use crate::graph::{GraphFault, NodeModel};

verus! {

/// Numbers are accepted exactly where none is zero and no two are equal; a refused one is zero or
/// stands in two places.
pub proof fn numbers_are_accepted_where_they_tell_steps_apart(ids: Seq<u32>)
    ensures
        graph::id_fault(ids) is None <==> {
            &&& forall|i: int| 0 <= i < ids.len() ==> #[trigger] ids[i] != 0
            &&& forall|i: int, j: int|
                0 <= i < j < ids.len() ==> #[trigger] ids[i] != #[trigger] ids[j]
        },
        graph::id_fault(ids) matches Some(fault) ==> {
            ||| fault is ZeroStepId && exists|i: int| 0 <= i < ids.len() && #[trigger] ids[i] == 0
            ||| exists|i: int, j: int|
                0 <= i < j < ids.len() && #[trigger] ids[i] == #[trigger] ids[j] && fault
                    == GraphFault::DuplicateStepId(ids[j])
        },
    decreases ids.len(),
{
    if ids.len() > 0 {
        let before = ids.drop_last();
        let last = ids.len() - 1;
        numbers_are_accepted_where_they_tell_steps_apart(before);
        assert forall|i: int| 0 <= i < last implies before[i] == #[trigger] ids[i] by {}
        if graph::id_fault(before) is Some {
            if graph::id_fault(before) == Some(GraphFault::ZeroStepId) && exists|i: int|
                0 <= i < before.len() && #[trigger] before[i] == 0 {
                let i = choose|i: int| 0 <= i < before.len() && #[trigger] before[i] == 0;
                assert(ids[i] == 0);
            } else {
                let (i, j) = choose|i: int, j: int|
                    0 <= i < j < before.len() && #[trigger] before[i] == #[trigger] before[j]
                        && graph::id_fault(before) == Some(GraphFault::DuplicateStepId(before[j]));
                assert(ids[i] == ids[j]);
            }
        } else if ids.last() == 0 {
            assert(ids[last] == 0);
        } else if before.contains(ids.last()) {
            let i = choose|i: int| 0 <= i < before.len() && before[i] == ids.last();
            assert(ids[i] == ids[last]);
        } else {
            assert forall|i: int| 0 <= i < ids.len() implies #[trigger] ids[i] != 0 by {
                if i < last {
                    assert(before[i] != 0);
                }
            }
            assert forall|i: int, j: int| 0 <= i < j < ids.len() implies #[trigger] ids[i]
                != #[trigger] ids[j] by {
                if j < last {
                    assert(before[i] != before[j]);
                } else {
                    assert(before.contains(before[i]));
                }
            }
        }
    }
}

proof fn lemma_dependencies_of_one_step(id: u32, deps: Seq<u32>, known: Seq<u32>)
    ensures
        graph::step_dependency_fault(id, deps, known) is None <==> forall|k: int|
            0 <= k < deps.len() ==> #[trigger] deps[k] != id && known.contains(deps[k]),
        graph::step_dependency_fault(id, deps, known) matches Some(fault) ==> exists|k: int|
            0 <= k < deps.len() && {
                ||| #[trigger] deps[k] == id && fault == GraphFault::SelfDependency(id)
                ||| deps[k] != id && !known.contains(deps[k]) && fault
                    == GraphFault::UnknownDependency { step_id: id, dependency: deps[k] }
            },
    decreases deps.len(),
{
    if deps.len() > 0 {
        let before = deps.drop_last();
        let last = deps.len() - 1;
        lemma_dependencies_of_one_step(id, before, known);
        assert forall|k: int| 0 <= k < last implies before[k] == #[trigger] deps[k] by {}
        if graph::step_dependency_fault(id, before, known) is Some {
            let fault = graph::step_dependency_fault(id, before, known)->Some_0;
            let k = choose|k: int|
                0 <= k < before.len() && {
                    ||| #[trigger] before[k] == id && fault == GraphFault::SelfDependency(id)
                    ||| before[k] != id && !known.contains(before[k]) && fault
                        == GraphFault::UnknownDependency { step_id: id, dependency: before[k] }
                };
            assert(deps[k] == before[k]);
        } else {
            assert forall|k: int| 0 <= k < last implies #[trigger] deps[k] != id && known.contains(
                deps[k],
            ) by {
                assert(before[k] != id && known.contains(before[k]));
            }
            assert(deps[last] == deps.last());
        }
    }
}

proof fn lemma_dependencies_of_all_steps(nodes: Seq<NodeModel>, known: Seq<u32>)
    ensures
        graph::dependency_fault(nodes, known) is None <==> forall|i: int, k: int|
            0 <= i < nodes.len() && 0 <= k < nodes[i].deps.len() ==> #[trigger] nodes[i].deps[k]
                != nodes[i].id && known.contains(nodes[i].deps[k]),
        graph::dependency_fault(nodes, known) matches Some(fault) ==> exists|i: int, k: int|
            0 <= i < nodes.len() && 0 <= k < nodes[i].deps.len() && {
                ||| #[trigger] nodes[i].deps[k] == nodes[i].id && fault
                    == GraphFault::SelfDependency(nodes[i].id)
                ||| nodes[i].deps[k] != nodes[i].id && !known.contains(nodes[i].deps[k]) && fault
                    == GraphFault::UnknownDependency {
                    step_id: nodes[i].id,
                    dependency: nodes[i].deps[k],
                }
            },
    decreases nodes.len(),
{
    if nodes.len() > 0 {
        let before = nodes.drop_last();
        let last = nodes.len() - 1;
        lemma_dependencies_of_all_steps(before, known);
        lemma_dependencies_of_one_step(nodes.last().id, nodes.last().deps, known);
        assert forall|i: int| 0 <= i < last implies before[i] == #[trigger] nodes[i] by {}
        if graph::dependency_fault(before, known) is Some {
            let fault = graph::dependency_fault(before, known)->Some_0;
            let (i, k) = choose|i: int, k: int|
                0 <= i < before.len() && 0 <= k < before[i].deps.len() && {
                    ||| #[trigger] before[i].deps[k] == before[i].id && fault
                        == GraphFault::SelfDependency(before[i].id)
                    ||| before[i].deps[k] != before[i].id && !known.contains(before[i].deps[k])
                        && fault == GraphFault::UnknownDependency {
                        step_id: before[i].id,
                        dependency: before[i].deps[k],
                    }
                };
            assert(nodes[i].deps[k] == before[i].deps[k]);
        } else if graph::step_dependency_fault(nodes.last().id, nodes.last().deps, known) is Some {
            let fault = graph::step_dependency_fault(nodes.last().id, nodes.last().deps, known)->Some_0;
            let k = choose|k: int|
                0 <= k < nodes.last().deps.len() && {
                    ||| #[trigger] nodes.last().deps[k] == nodes.last().id && fault
                        == GraphFault::SelfDependency(nodes.last().id)
                    ||| nodes.last().deps[k] != nodes.last().id && !known.contains(
                        nodes.last().deps[k],
                    ) && fault == GraphFault::UnknownDependency {
                        step_id: nodes.last().id,
                        dependency: nodes.last().deps[k],
                    }
                };
            assert(nodes[last].deps[k] == nodes.last().deps[k]);
        } else {
            assert forall|i: int, k: int|
                0 <= i < nodes.len() && 0 <= k < nodes[i].deps.len() implies #[trigger] nodes[i].deps[k]
                != nodes[i].id && known.contains(nodes[i].deps[k]) by {
                if i < last {
                    assert(before[i].deps[k] != before[i].id);
                } else {
                    assert(nodes.last().deps[k] != nodes.last().id);
                }
            }
        }
    }
}

/// Every step is ranked above each number that it depends on.
pub open spec fn is_ranking(nodes: Seq<NodeModel>, rank: spec_fn(u32) -> nat) -> bool {
    forall|i: int, d: u32|
        0 <= i < nodes.len() && #[trigger] nodes[i].deps.contains(d) ==> rank(d) < rank(nodes[i].id)
}

/// A graph is accepted exactly where its steps have different numbers that are not zero, every
/// dependency is the number of another step, and the steps can be ranked so that each comes after
/// all that it depends on.
pub proof fn graph_is_accepted_where_it_can_be_ordered(nodes: Seq<NodeModel>)
    ensures
        graph::graph_fault(nodes) is None <==> {
            &&& forall|i: int| 0 <= i < nodes.len() ==> (#[trigger] nodes[i]).id != 0
            &&& forall|i: int, j: int|
                0 <= i < j < nodes.len() ==> (#[trigger] nodes[i]).id != (#[trigger] nodes[j]).id
            &&& forall|i: int, k: int|
                0 <= i < nodes.len() && 0 <= k < nodes[i].deps.len() ==> exists|j: int|
                    0 <= j < nodes.len() && j != i && (#[trigger] nodes[j]).id
                        == #[trigger] nodes[i].deps[k]
            &&& exists|rank: spec_fn(u32) -> nat| is_ranking(nodes, rank)
        },
{
    let ids = graph::node_ids(nodes);
    numbers_are_accepted_where_they_tell_steps_apart(ids);
    lemma_dependencies_of_all_steps(nodes, ids);
    assert forall|i: int| 0 <= i < nodes.len() implies ids[i] == (#[trigger] nodes[i]).id by {}
    let nonzero = forall|i: int| 0 <= i < nodes.len() ==> (#[trigger] nodes[i]).id != 0;
    let apart = forall|i: int, j: int|
        0 <= i < j < nodes.len() ==> (#[trigger] nodes[i]).id != (#[trigger] nodes[j]).id;
    assert(nonzero && apart <==> graph::id_fault(ids) is None) by {
        if nonzero && apart {
            assert forall|i: int| 0 <= i < ids.len() implies #[trigger] ids[i] != 0 by {
                assert(nodes[i].id != 0);
            }
            assert forall|i: int, j: int| 0 <= i < j < ids.len() implies #[trigger] ids[i]
                != #[trigger] ids[j] by {
                assert(nodes[i].id != nodes[j].id);
            }
        }
        if graph::id_fault(ids) is None {
            assert forall|i: int| 0 <= i < nodes.len() implies (#[trigger] nodes[i]).id != 0 by {
                assert(ids[i] != 0);
            }
            assert forall|i: int, j: int| 0 <= i < j < nodes.len() implies (#[trigger] nodes[i]).id
                != (#[trigger] nodes[j]).id by {
                assert(ids[i] != ids[j]);
            }
        }
    }
    let known = forall|i: int, k: int|
        0 <= i < nodes.len() && 0 <= k < nodes[i].deps.len() ==> exists|j: int|
            0 <= j < nodes.len() && j != i && (#[trigger] nodes[j]).id
                == #[trigger] nodes[i].deps[k];
    if nonzero && apart {
        if graph::dependency_fault(nodes, ids) is None {
            assert forall|i: int, k: int|
                0 <= i < nodes.len() && 0 <= k < nodes[i].deps.len() implies exists|j: int|
                0 <= j < nodes.len() && j != i && (#[trigger] nodes[j]).id
                    == #[trigger] nodes[i].deps[k] by {
                assert(ids.contains(nodes[i].deps[k]));
                let j = choose|j: int| 0 <= j < ids.len() && ids[j] == nodes[i].deps[k];
                assert(nodes[j].id == nodes[i].deps[k]);
            }
        }
        if known {
            assert forall|i: int, k: int|
                0 <= i < nodes.len() && 0 <= k < nodes[i].deps.len() implies #[trigger] nodes[i].deps[k]
                != nodes[i].id && ids.contains(nodes[i].deps[k]) by {
                let j = choose|j: int|
                    0 <= j < nodes.len() && j != i && (#[trigger] nodes[j]).id
                        == nodes[i].deps[k];
                assert(ids[j] == nodes[i].deps[k]);
                if j < i {
                    assert(nodes[j].id != nodes[i].id);
                } else {
                    assert(nodes[i].id != nodes[j].id);
                }
            }
        }
    }
    assert forall|rank: spec_fn(u32) -> nat| #[trigger] graph::orders(nodes, rank) <==> is_ranking(
        nodes,
        rank,
    ) by {
        if graph::orders(nodes, rank) {
            assert forall|i: int, d: u32|
                0 <= i < nodes.len() && #[trigger] nodes[i].deps.contains(d) implies rank(d) < rank(
                nodes[i].id,
            ) by {
                let k = choose|k: int| 0 <= k < nodes[i].deps.len() && nodes[i].deps[k] == d;
                assert(rank(nodes[i].deps[k]) < rank(nodes[i].id));
            }
        }
        if is_ranking(nodes, rank) {
            assert forall|i: int, k: int|
                0 <= i < nodes.len() && 0 <= k < nodes[i].deps.len() implies rank(
                #[trigger] nodes[i].deps[k],
            ) < rank(nodes[i].id) by {
                assert(nodes[i].deps.contains(nodes[i].deps[k]));
            }
        }
    }
    if graph::acyclic(nodes) {
        let rank = choose|rank: spec_fn(u32) -> nat| #[trigger] graph::orders(nodes, rank);
        assert(is_ranking(nodes, rank));
    }
    if exists|rank: spec_fn(u32) -> nat| is_ranking(nodes, rank) {
        let rank = choose|rank: spec_fn(u32) -> nat| is_ranking(nodes, rank);
        assert(graph::orders(nodes, rank));
    }
}

} // verus!
