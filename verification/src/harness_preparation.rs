//! What the harness settles before it runs its first command.

use vstd::prelude::*;
use vstd::string::*;

use crate::text;
use crate::disposable_harness;
use crate::disposable_argv;
use crate::backup_capture::BackupReceiptRevalidation;
use crate::disposable_argv::{DisposableCommandModel, DisposableCommandSpec};
use crate::disposable_harness::{approved_sequence, health_tool, HealthTool};
use crate::locked_session::{LockedRevalidation, LockedRevalidationStatus};
use crate::precondition_evidence::{
    EvidenceModel, PreMutationEvidenceBundle, PreMutationEvidenceStatus,
};
use crate::text::same_text;

verus! {

/// Details in one line, `; ` between them.
pub open spec fn details_line(details: Seq<Seq<char>>) -> Seq<char>
    decreases details.len(),
{
    if details.len() == 0 {
        Seq::empty()
    } else if details.len() == 1 {
        details[0]
    } else {
        details_line(details.drop_last()) + "; "@ + details.last()
    }
}

/// Appends `more` to a line that holds `before` behind `prefix`.
fn append_details(
    line: &mut String,
    more: &[String],
    prefix: Ghost<Seq<char>>,
    before: Ghost<Seq<Seq<char>>>,
    first: bool,
)
    requires
        old(line)@ == prefix@ + details_line(before@),
        first == (before@.len() == 0),
    ensures
        final(line)@ == prefix@ + details_line(before@ + text::texts(more@)),
{
    let mut first = first;
    assert(before@ + text::texts(more@.take(0)) =~= before@);
    for i in 0..more.len()
        invariant
            line@ == prefix@ + details_line(before@ + text::texts(more@.take(i as int))),
            first == ((before@ + text::texts(more@.take(i as int))).len() == 0),
    {
        let ghost done = before@ + text::texts(more@.take(i as int));
        let ghost next = before@ + text::texts(more@.take(i + 1));
        assert(next =~= done.push(more@[i as int]@));
        assert(next.drop_last() =~= done);
        assert(next.last() == more@[i as int]@);
        if !first {
            line.append("; ");
        }
        line.append(more[i].as_str());
        assert(line@ =~= prefix@ + details_line(next));
        first = false;
    }
    assert(more@.take(more@.len() as int) =~= more@);
}

/// A line that starts with `label` and goes on with the details of both lists.
fn detailed_message(label: &str, one: &[String], other: &[String]) -> (message: String)
    ensures
        message@ == label@ + details_line(text::texts(one@) + text::texts(other@)),
{
    let mut message = label.to_owned();
    assert(message@ =~= label@ + details_line(Seq::empty()));
    append_details(&mut message, one, Ghost(label@), Ghost(Seq::empty()), true);
    assert(Seq::<Seq<char>>::empty() + text::texts(one@) =~= text::texts(one@));
    append_details(&mut message, other, Ghost(label@), Ghost(text::texts(one@)), one.len() == 0);
    message
}

/// Why a locked revalidation stops the harness.
pub open spec fn revalidation_fault(result: LockedRevalidation) -> Option<Seq<char>> {
    if result.status == LockedRevalidationStatus::Revalidated {
        None
    } else {
        Some("locked revalidation blocked: "@ + details_line(text::texts(result.blockers@)))
    }
}

/// Requires that the locked revalidation went through.
pub fn check_revalidation(result: &LockedRevalidation) -> (verdict: Result<(), String>)
    ensures
        match verdict {
            Ok(_) => revalidation_fault(*result) is None,
            Err(message) => revalidation_fault(*result) == Some(message@),
        },
{
    if matches!(result.status, LockedRevalidationStatus::Revalidated) {
        return Ok(());
    }
    let message = detailed_message(
        "locked revalidation blocked: ",
        result.blockers.as_slice(),
        &[],
    );
    assert(text::texts(result.blockers@) + text::texts(Seq::<String>::empty()) =~= text::texts(result.blockers@));
    Err(message)
}

/// Why captured backups stop the harness.
pub open spec fn backup_revalidation_fault(result: BackupReceiptRevalidation) -> Option<Seq<char>> {
    if result.matches {
        None
    } else {
        Some("backup revalidation blocked: "@ + details_line(text::texts(result.blockers@)))
    }
}

/// Requires that the captured backups still are what their receipt says.
pub fn check_backup_revalidation(result: &BackupReceiptRevalidation) -> (verdict: Result<
    (),
    String,
>)
    ensures
        match verdict {
            Ok(_) => backup_revalidation_fault(*result) is None,
            Err(message) => backup_revalidation_fault(*result) == Some(message@),
        },
{
    if result.matches {
        return Ok(());
    }
    let message = detailed_message(
        "backup revalidation blocked: ",
        result.blockers.as_slice(),
        &[],
    );
    assert(text::texts(result.blockers@) + text::texts(Seq::<String>::empty()) =~= text::texts(result.blockers@));
    Err(message)
}

/// What the harness does with the evidence that it has.
#[derive(Clone, Copy, Debug, PartialEq, Eq, Structural)]
pub enum EvidenceStep {
    Proceed,
    CheckHealth(HealthTool),
}

/// The health check that the evidence asks for and that there is a tool for.
pub open spec fn wanted_check(evidence: EvidenceModel, e2fsck_given: bool) -> Option<HealthTool> {
    if evidence.status != PreMutationEvidenceStatus::FutureChecksRequired {
        None
    } else {
        match disposable_harness::health_tool_of(evidence.filesystem_decision.state) {
            Some(HealthTool::E2fsck) if !e2fsck_given => None,
            tool => tool,
        }
    }
}

/// What the harness does next. The health check is asked for once.
pub open spec fn evidence_step(evidence: EvidenceModel, e2fsck_given: bool, checked: bool) -> Result<
    EvidenceStep,
    Seq<char>,
> {
    match wanted_check(evidence, e2fsck_given) {
        Some(tool) if !checked => Ok(EvidenceStep::CheckHealth(tool)),
        _ => {
            if evidence.status == PreMutationEvidenceStatus::EvidenceComplete {
                Ok(EvidenceStep::Proceed)
            } else {
                Err(
                    "pre-mutation evidence incomplete: "@ + details_line(
                        evidence.blockers + evidence.future_gates,
                    ),
                )
            }
        },
    }
}

/// Decides what to do with the evidence. `checked` says that the health check was already run.
pub fn next_evidence_step(
    evidence: &PreMutationEvidenceBundle,
    e2fsck_given: bool,
    checked: bool,
) -> (step: Result<EvidenceStep, String>)
    ensures
        match step {
            Ok(step) => evidence_step(evidence@, e2fsck_given, checked) == Ok::<
                EvidenceStep,
                Seq<char>,
            >(step),
            Err(message) => evidence_step(evidence@, e2fsck_given, checked) == Err::<
                EvidenceStep,
                Seq<char>,
            >(message@),
        },
{
    match evidence.status() {
        PreMutationEvidenceStatus::EvidenceComplete => return Ok(EvidenceStep::Proceed),
        PreMutationEvidenceStatus::FutureChecksRequired => {
            if !checked {
                match health_tool(evidence.filesystem_decision().state) {
                    Some(HealthTool::XfsScrub) => {
                        return Ok(EvidenceStep::CheckHealth(HealthTool::XfsScrub));
                    },
                    Some(HealthTool::E2fsck) => {
                        if e2fsck_given {
                            return Ok(EvidenceStep::CheckHealth(HealthTool::E2fsck));
                        }
                    },
                    None => {},
                }
            }
        },
        PreMutationEvidenceStatus::Blocked => {},
    }
    Err(
        detailed_message(
            "pre-mutation evidence incomplete: ",
            evidence.blockers(),
            evidence.future_gates(),
        ),
    )
}

/// Why the state of the host right before the first command stops the harness.
pub open spec fn executable_state_fault(
    capabilities_match: bool,
    fresh_digest: Result<Seq<char>, Seq<char>>,
    frozen_digest: Seq<char>,
) -> Option<Seq<char>> {
    if !capabilities_match {
        Some("capability inventory changed immediately before disposable execution"@)
    } else {
        match fresh_digest {
            Err(reason) => Some(reason),
            Ok(fresh) => {
                if fresh == frozen_digest {
                    None
                } else {
                    Some("fresh executable identity diverged from the locked handoff"@)
                }
            },
        }
    }
}

/// Requires that nothing changed between the handoff and the first command. `fresh_digest` is the
/// digest of the identity captured last, or why none could be captured.
pub fn check_executable_state(
    capabilities_match: bool,
    fresh_digest: &Result<String, String>,
    frozen_digest: &str,
) -> (verdict: Result<(), String>)
    ensures
        ({
            let fresh = match *fresh_digest {
                Ok(digest) => Ok(digest@),
                Err(reason) => Err(reason@),
            };
            match verdict {
                Ok(_) => executable_state_fault(capabilities_match, fresh, frozen_digest@) is None,
                Err(message) => executable_state_fault(capabilities_match, fresh, frozen_digest@)
                    == Some(message@),
            }
        }),
{
    if !capabilities_match {
        return Err(
            "capability inventory changed immediately before disposable execution".to_owned(),
        );
    }
    match fresh_digest {
        Err(reason) => Err(reason.clone()),
        Ok(fresh) => {
            if same_text(fresh.as_str(), frozen_digest) {
                Ok(())
            } else {
                Err("fresh executable identity diverged from the locked handoff".to_owned())
            }
        },
    }
}

/// The first and the last step of an approved sequence.
pub open spec fn sequence_ends(commands: Seq<DisposableCommandModel>) -> Result<
    (u32, u32),
    Seq<char>,
> {
    if disposable_harness::is_approved_sequence(commands) {
        Ok((commands[0].plan_step_id, commands.last().plan_step_id))
    } else {
        Err("compiled mutation sequence is not an approved disposable LVM growth profile"@)
    }
}

/// Requires an approved sequence of commands and gives its first and its last step.
pub fn check_command_sequence(commands: &Vec<DisposableCommandSpec>) -> (ends: Result<
    (u32, u32),
    String,
>)
    ensures
        match ends {
            Ok(ends) => sequence_ends(disposable_argv::command_models(commands@)) == Ok::<(u32, u32), Seq<char>>(
                ends,
            ),
            Err(message) => sequence_ends(disposable_argv::command_models(commands@)) == Err::<
                (u32, u32),
                Seq<char>,
            >(message@),
        },
{
    if !approved_sequence(commands) {
        return Err(
            "compiled mutation sequence is not an approved disposable LVM growth profile".to_owned(),
        );
    }
    let ghost models = disposable_argv::command_models(commands@);
    assert(models[0] == commands@[0]@);
    assert(models.last() == commands@[commands@.len() - 1]@);
    Ok((commands[0].plan_step_id(), commands[commands.len() - 1].plan_step_id()))
}

/// Nothing is run on incomplete evidence, and after one health check no other is asked for.
pub proof fn evidence_is_complete_before_the_first_command(
    evidence: EvidenceModel,
    e2fsck_given: bool,
    checked: bool,
)
    ensures
        evidence_step(evidence, e2fsck_given, checked) == Ok::<EvidenceStep, Seq<char>>(
            EvidenceStep::Proceed,
        ) <==> evidence.status == PreMutationEvidenceStatus::EvidenceComplete,
        checked ==> !(evidence_step(evidence, e2fsck_given, checked) matches Ok(
            EvidenceStep::CheckHealth(_),
        )),
{
}

/// Details are set apart by a semicolon and a space, however they are put together.
pub proof fn details_are_set_apart_by_semicolons(a: Seq<Seq<char>>, b: Seq<Seq<char>>)
    ensures
        details_line(Seq::empty()) == Seq::<char>::empty(),
        a.len() == 1 ==> details_line(a) == a[0],
        a.len() > 0 && b.len() > 0 ==> details_line(a + b) == details_line(a) + "; "@
            + details_line(b),
    decreases b.len(),
{
    if a.len() > 0 && b.len() > 0 {
        let both = a + b;
        assert(both.last() == b.last());
        if b.len() == 1 {
            assert(both.drop_last() =~= a);
        } else {
            details_are_set_apart_by_semicolons(a, b.drop_last());
            assert(both.drop_last() =~= a + b.drop_last());
            assert(details_line(both) =~= details_line(a) + "; "@ + details_line(b));
        }
    }
}

/// A revalidation stops the harness exactly where it did not succeed, and captured backups exactly
/// where they do not match; the message then lists what was found.
pub proof fn harness_stops_where_something_blocks(
    locked: LockedRevalidation,
    backup: BackupReceiptRevalidation,
)
    ensures
        revalidation_fault(locked) is None <==> locked.status is Revalidated,
        revalidation_fault(locked) matches Some(message) ==> message
            == "locked revalidation blocked: "@ + details_line(text::texts(locked.blockers@)),
        backup_revalidation_fault(backup) is None <==> backup.matches,
        backup_revalidation_fault(backup) matches Some(message) ==> message
            == "backup revalidation blocked: "@ + details_line(text::texts(backup.blockers@)),
{
}

/// The harness goes on exactly where the evidence is complete. It runs a health check exactly where
/// none ran yet, checks are still to come, and the decision asks for one that there is a tool for.
pub proof fn harness_goes_on_with_complete_evidence(
    evidence: EvidenceModel,
    e2fsck_given: bool,
    checked: bool,
)
    ensures
        ({
            let owed = evidence_step(evidence, e2fsck_given, checked);
            let pending = evidence.status is FutureChecksRequired && !checked;
            let scrub = pending && evidence.filesystem_decision.state
                is ReadOnlyHealthCheckRequired;
            let offline = pending && e2fsck_given && evidence.filesystem_decision.state
                is OfflineHealthCheckRequired;
            &&& owed == Result::<EvidenceStep, Seq<char>>::Ok(EvidenceStep::Proceed)
                <==> evidence.status is EvidenceComplete
            &&& owed == Result::<EvidenceStep, Seq<char>>::Ok(
                EvidenceStep::CheckHealth(HealthTool::XfsScrub),
            ) <==> scrub
            &&& owed == Result::<EvidenceStep, Seq<char>>::Ok(
                EvidenceStep::CheckHealth(HealthTool::E2fsck),
            ) <==> offline
            &&& owed is Err <==> !(evidence.status is EvidenceComplete) && !scrub && !offline
        }),
{
}

/// The host is as it was exactly where the tools are the same and its fresh identity is the frozen
/// one.
pub proof fn harness_starts_on_the_frozen_host(
    capabilities_match: bool,
    fresh_digest: Result<Seq<char>, Seq<char>>,
    frozen_digest: Seq<char>,
)
    ensures
        executable_state_fault(capabilities_match, fresh_digest, frozen_digest) is None <==> {
            &&& capabilities_match
            &&& fresh_digest == Result::<Seq<char>, Seq<char>>::Ok(frozen_digest)
        },
{
}

/// The ends of an approved sequence are the steps of its first and its last command.
pub proof fn sequence_ends_are_its_first_and_last_step(commands: Seq<DisposableCommandModel>)
    ensures
        sequence_ends(commands) is Ok <==> disposable_harness::is_approved_sequence(commands),
        sequence_ends(commands) matches Ok(ends) ==> ends.0 == commands[0].plan_step_id && ends.1
            == commands[commands.len() - 1].plan_step_id,
{
}

} // verus!
