//! What holds of the plan of every consistent blueprint.

use vstd::prelude::*;
use crate::builder::{plan_of, watch_steps, Blueprint, Step};

verus! {

/// Whether the plan creates the node before the step at position `at`.
pub open spec fn created_before(plan: Seq<Step>, node: usize, at: int) -> bool {
    exists|k: int| 0 <= k < at && k < plan.len() && #[trigger] plan[k] == Step::Create(node)
}

/// Whether every node that the step speaks of is created before position
/// `at` of the plan.
pub open spec fn ready_for(blueprint: Blueprint, step: Step, at: int) -> bool {
    let plan = plan_of(blueprint);
    match step {
        Step::Initialize => at == 0,
        Step::Create(_) => true,
        Step::Gather => forall|node: usize|
            node < blueprint.nodes@.len() ==> #[trigger] created_before(plan, node, at),
        Step::Connect(link) => created_before(plan, link.from, at) && created_before(
            plan,
            link.to,
            at,
        ),
        Step::Configure(setting) => setting < blueprint.settings@.len() && created_before(
            plan,
            blueprint.settings@[setting as int].node,
            at,
        ),
        Step::Watch(binding) => created_before(plan, binding.source, at) && created_before(
            plan,
            binding.audio_converter,
            at,
        ) && created_before(plan, binding.video_converter, at),
    }
}

/// The plan creates the node at position `node` of the blueprint as its
/// step `node + 1`, right after the initialisation.
proof fn lemma_creation_has_its_place(blueprint: Blueprint, node: usize)
    requires
        node < blueprint.nodes@.len(),
    ensures
        plan_of(blueprint).len() > node + 1,
        plan_of(blueprint)[node + 1] == Step::Create(node),
        plan_of(blueprint)[0] == Step::Initialize,
{
}

/// In the plan of a consistent blueprint the framework is initialised
/// first, and every step finds the nodes that it speaks of created by an
/// earlier step: the pipeline gathers nodes that exist, and links, settings
/// and the watch speak of nodes that exist.
pub proof fn law_nodes_are_created_before_use(blueprint: Blueprint, at: int)
    requires
        blueprint.wf(),
        0 <= at < plan_of(blueprint).len(),
    ensures
        plan_of(blueprint)[0] == Step::Initialize,
        ready_for(blueprint, plan_of(blueprint)[at], at),
{
    let plan = plan_of(blueprint);
    let nodes = blueprint.nodes@.len() as int;
    let links = blueprint.links@.len() as int;
    let settings = blueprint.settings@.len() as int;
    assert(blueprint.nodes.len() == nodes);
    assert(plan.len() == 2 + nodes + links + settings + watch_steps(blueprint.late).len());
    assert forall|node: usize| node < nodes && at > nodes implies #[trigger] created_before(
        plan,
        node,
        at,
    ) by {
        lemma_creation_has_its_place(blueprint, node);
        assert(plan[node + 1] == Step::Create(node));
    }
    if at == 0 {
    } else if at <= nodes {
        assert(plan[at] == Step::Create((at - 1) as usize));
    } else if at == nodes + 1 {
        assert(plan[at] == Step::Gather);
    } else if at < nodes + 2 + links {
        let link = blueprint.links@[at - nodes - 2];
        assert(plan[at] == Step::Connect(link));
        assert(created_before(plan, link.from, at));
        assert(created_before(plan, link.to, at));
    } else if at < nodes + 2 + links + settings {
        let setting = at - nodes - 2 - links;
        assert(blueprint.settings.len() == settings);
        assert(plan[at] == Step::Configure(setting as usize));
        assert(created_before(plan, blueprint.settings@[setting].node, at));
    } else {
        let binding = blueprint.late->Some_0;
        assert(plan[at] == Step::Watch(binding));
        assert(created_before(plan, binding.source, at));
        assert(created_before(plan, binding.audio_converter, at));
        assert(created_before(plan, binding.video_converter, at));
    }
}

} // verus!
