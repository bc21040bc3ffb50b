//! What binds the start of a disposable execution.

use vstd::prelude::*;

use crate::disposable_argv;
use crate::disposable_argv::{DisposableCommandModel, DisposableCommandPlan};

verus! {

#[derive(Clone, Copy, Debug, PartialEq, Eq, Structural)]
pub enum DisposableExecutionStartError {
    EmptyCommandPlan,
}

/// What an execution start is to be bound to: the manifest, the fresh identity and the ordered
/// mutations of a command plan.
#[derive(Clone, Debug, PartialEq, Eq)]
pub struct ExecutionStartRequest {
    pub source_manifest_id: String,
    pub native_manifest_digest: String,
    pub fresh_identity_digest: String,
    pub mutation_step_ids: Vec<u32>,
}

/// The steps of commands, in order.
pub open spec fn command_step_ids(commands: Seq<DisposableCommandModel>) -> Seq<u32> {
    commands.map_values(|c: DisposableCommandModel| c.plan_step_id)
}

/// States what the start of an execution of `plan` is to be bound to.
pub fn build_binding(plan: &DisposableCommandPlan) -> (result: Result<
    ExecutionStartRequest,
    DisposableExecutionStartError,
>)
    ensures
        match result {
            Ok(request) => {
                &&& plan@.commands.len() > 0
                &&& request.source_manifest_id@ == plan@.source_manifest_id
                &&& request.native_manifest_digest@ == plan@.native_manifest_digest
                &&& request.fresh_identity_digest@ == plan@.fresh_identity_digest
                &&& request.mutation_step_ids@ == command_step_ids(plan@.commands)
            },
            Err(e) => e == DisposableExecutionStartError::EmptyCommandPlan
                && plan@.commands.len() == 0,
        },
{
    let commands = plan.commands();
    let ghost all = command_step_ids(plan@.commands);
    let mut mutation_step_ids: Vec<u32> = Vec::new();
    let mut i: usize = 0;
    assert(all.len() == commands@.len());
    while i < commands.len()
        invariant
            i <= commands@.len(),
            disposable_argv::command_models(commands@) == plan@.commands,
            all == command_step_ids(plan@.commands),
            all.len() == commands@.len(),
            mutation_step_ids@ == all.take(i as int),
        decreases commands@.len() - i,
    {
        mutation_step_ids.push(commands[i].plan_step_id());
        proof {
            assert(disposable_argv::command_models(commands@)[i as int] == commands@[i as int]@);
            assert(all.take(i + 1) =~= all.take(i as int).push(all[i as int]));
        }
        i += 1;
    }
    assert(all.take(all.len() as int) =~= all);
    if mutation_step_ids.len() == 0 {
        return Err(DisposableExecutionStartError::EmptyCommandPlan);
    }
    Ok(
        ExecutionStartRequest {
            source_manifest_id: plan.source_manifest_id().to_owned(),
            native_manifest_digest: plan.native_manifest_digest().to_owned(),
            fresh_identity_digest: plan.fresh_identity_digest().to_owned(),
            mutation_step_ids,
        },
    )
}

/// The steps of commands are the step of each, in order.
pub proof fn steps_are_those_of_the_commands(commands: Seq<DisposableCommandModel>)
    ensures
        command_step_ids(commands).len() == commands.len(),
        forall|i: int|
            0 <= i < commands.len() ==> command_step_ids(commands)[i] == (
            #[trigger] commands[i]).plan_step_id,
{
}

} // verus!
