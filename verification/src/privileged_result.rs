//! What the processes of a launch mean for the execution.

use vstd::prelude::*;
use vstd::string::*;

use crate::reading;
use crate::text;
use crate::json;
use crate::json_reading;
use crate::digest;
use crate::digest::{fingerprint, fingerprint_text};
use crate::json::{opt_bool_literal, opt_signed_literal, signed_literal, Parts};
use crate::privileged_exec::PrivilegedDescriptorSequenceOutcome;
use crate::privileged_launch::PrivilegedDescriptorLaunchSpec;
use crate::privileged_permit::PrivilegedLaunchPermit;
use crate::text::same_text;

verus! {

/// What has to happen after a launch. A successful process only leads to rediscovery.
#[derive(Clone, Copy, Debug, PartialEq, Eq, Structural)]
pub enum PrivilegedRuntimeDisposition {
    RediscoveryRequired,
    RecoveryRequired,
}

/// The name of a disposition in JSON.
pub open spec fn disposition_name(disposition: PrivilegedRuntimeDisposition) -> Seq<char> {
    match disposition {
        PrivilegedRuntimeDisposition::RediscoveryRequired => "rediscovery_required"@,
        PrivilegedRuntimeDisposition::RecoveryRequired => "recovery_required"@,
    }
}

/// Different variants have different names.
proof fn lemma_disposition_name_told(a: PrivilegedRuntimeDisposition, b: PrivilegedRuntimeDisposition)
    requires
        disposition_name(a) == disposition_name(b),
    ensures
        a == b,
{
    reveal_strlit("rediscovery_required");
    reveal_strlit("recovery_required");
    assert("rediscovery_required"@.len() == 20);
    assert("recovery_required"@.len() == 17);
    assert(disposition_name(a).len() == disposition_name(b).len());
}

/// The record of the processes of one launch.
#[derive(Clone, Debug, PartialEq, Eq)]
pub struct PrivilegedProcessReceipt {
    pub schema_version: u32,
    pub receipt_id: String,
    pub execution_id: String,
    pub permit_id: String,
    pub launch_id: String,
    pub plan_step_id: u32,
    pub command_digest: String,
    pub primary_exit_code: i32,
    pub primary_stdout_sha256: String,
    pub primary_stderr_sha256: String,
    pub primary_stdout_truncated: bool,
    pub primary_stderr_truncated: bool,
    pub kernel_refresh_exit_code: Option<i32>,
    pub kernel_refresh_stdout_sha256: Option<String>,
    pub kernel_refresh_stderr_sha256: Option<String>,
    pub kernel_refresh_stdout_truncated: Option<bool>,
    pub kernel_refresh_stderr_truncated: Option<bool>,
    pub mutation_may_have_started: bool,
    pub disposition: PrivilegedRuntimeDisposition,
}

/// An optional exit code as a number.
pub open spec fn opt_code(code: Option<i32>) -> Option<int> {
    match code {
        Some(c) => Some(c as int),
        None => None,
    }
}

/// What a process receipt is fingerprinted by, in order.
pub open spec fn process_receipt_parts(receipt: PrivilegedProcessReceipt) -> Seq<Seq<char>> {
    Seq::empty()
        .push(json::json_field("schema_version"@, json::json_number(receipt.schema_version as int)))
        .push(json::json_field("execution_id"@, json::json_text(receipt.execution_id@)))
        .push(json::json_field("permit_id"@, json::json_text(receipt.permit_id@)))
        .push(json::json_field("launch_id"@, json::json_text(receipt.launch_id@)))
        .push(json::json_field("plan_step_id"@, json::json_number(receipt.plan_step_id as int)))
        .push(json::json_field("command_digest"@, json::json_text(receipt.command_digest@)))
        .push(json::json_field("primary_exit_code"@, json::json_number(receipt.primary_exit_code as int)))
        .push(json::json_field("primary_stdout_sha256"@, json::json_text(receipt.primary_stdout_sha256@)))
        .push(json::json_field("primary_stderr_sha256"@, json::json_text(receipt.primary_stderr_sha256@)))
        .push(json::json_field("primary_stdout_truncated"@, json::json_bool(receipt.primary_stdout_truncated)))
        .push(json::json_field("primary_stderr_truncated"@, json::json_bool(receipt.primary_stderr_truncated)))
        .push(json::json_field("kernel_refresh_exit_code"@, json::json_opt_number(opt_code(receipt.kernel_refresh_exit_code))))
        .push(json::json_field("kernel_refresh_stdout_sha256"@, json::json_opt_text(text::opt_text(receipt.kernel_refresh_stdout_sha256))))
        .push(json::json_field("kernel_refresh_stderr_sha256"@, json::json_opt_text(text::opt_text(receipt.kernel_refresh_stderr_sha256))))
        .push(json::json_field("kernel_refresh_stdout_truncated"@, json::json_opt_bool(receipt.kernel_refresh_stdout_truncated)))
        .push(json::json_field("kernel_refresh_stderr_truncated"@, json::json_opt_bool(receipt.kernel_refresh_stderr_truncated)))
        .push(json::json_field("mutation_may_have_started"@, json::json_bool(receipt.mutation_may_have_started)))
        .push(json::json_field("disposition"@, json::json_text(disposition_name(receipt.disposition))))
}

/// The JSON form that a receipt is fingerprinted by.
pub open spec fn process_receipt_json(receipt: PrivilegedProcessReceipt) -> Seq<char> {
    json::json_object(process_receipt_parts(receipt))
}

impl PrivilegedProcessReceipt {
    /// The identifier is the fingerprint of the other fields.
    pub open spec fn is_intact(self) -> bool {
        self.receipt_id@ == digest::text_fingerprint(process_receipt_json(self))
    }

    pub fn integrity_matches(&self) -> (result: Result<bool, serde_json::Error>)
        ensures
            result is Ok,
            result->Ok_0 == self.is_intact(),
    {
        Ok(self.intact())
    }

    /// The identifier that the other fields ask for.
    pub fn expected_receipt_id(&self) -> (result: Result<String, serde_json::Error>)
        ensures
            result is Ok,
            result->Ok_0@ == digest::text_fingerprint(process_receipt_json(*self)),
    {
        Ok(self.fingerprint())
    }

    fn fingerprint(&self) -> (id: String)
        ensures
            id@ == digest::text_fingerprint(process_receipt_json(*self)),
    {
        let disposition = match self.disposition {
            PrivilegedRuntimeDisposition::RediscoveryRequired => "rediscovery_required",
            PrivilegedRuntimeDisposition::RecoveryRequired => "recovery_required",
        };
        let mut parts = Parts::new();
        parts.field_number("schema_version", self.schema_version as u64);
        parts.field_text("execution_id", self.execution_id.as_str());
        parts.field_text("permit_id", self.permit_id.as_str());
        parts.field_text("launch_id", self.launch_id.as_str());
        parts.field_number("plan_step_id", self.plan_step_id as u64);
        parts.field_text("command_digest", self.command_digest.as_str());
        parts.field("primary_exit_code", signed_literal(self.primary_exit_code));
        parts.field_text("primary_stdout_sha256", self.primary_stdout_sha256.as_str());
        parts.field_text("primary_stderr_sha256", self.primary_stderr_sha256.as_str());
        parts.field_bool("primary_stdout_truncated", self.primary_stdout_truncated);
        parts.field_bool("primary_stderr_truncated", self.primary_stderr_truncated);
        parts.field("kernel_refresh_exit_code", opt_signed_literal(self.kernel_refresh_exit_code));
        parts.field_opt_text("kernel_refresh_stdout_sha256", &self.kernel_refresh_stdout_sha256);
        parts.field_opt_text("kernel_refresh_stderr_sha256", &self.kernel_refresh_stderr_sha256);
        parts.field(
            "kernel_refresh_stdout_truncated",
            opt_bool_literal(self.kernel_refresh_stdout_truncated),
        );
        parts.field(
            "kernel_refresh_stderr_truncated",
            opt_bool_literal(self.kernel_refresh_stderr_truncated),
        );
        parts.field_bool("mutation_may_have_started", self.mutation_may_have_started);
        parts.field_text("disposition", disposition);
        fingerprint_text(parts.object().as_str())
    }

    pub(crate) fn intact(&self) -> (yes: bool)
        ensures
            yes == self.is_intact(),
    {
        same_text(self.receipt_id.as_str(), self.fingerprint().as_str())
    }
}

#[derive(Clone, Copy, Debug, PartialEq, Eq, Structural)]
pub enum PrivilegedProcessReceiptError {
    PermitIntegrityMismatch,
    LaunchIntegrityMismatch,
    BindingMismatch,
    KernelRefreshOutcomeMismatch,
}

/// What a classification is refused for, if anything.
pub open spec fn outcome_refusal(
    permit: PrivilegedLaunchPermit,
    launch: PrivilegedDescriptorLaunchSpec,
    outcome: PrivilegedDescriptorSequenceOutcome,
) -> Option<PrivilegedProcessReceiptError> {
    if !permit.is_intact() {
        Some(PrivilegedProcessReceiptError::PermitIntegrityMismatch)
    } else if !launch.is_intact() {
        Some(PrivilegedProcessReceiptError::LaunchIntegrityMismatch)
    } else if permit.launch_id@ != launch.launch_id@ || permit.authorization_id@
        != launch.authorization_id@ || permit.plan_step_id != launch.plan_step_id
        || permit.command_digest@ != launch.command_digest@ {
        Some(PrivilegedProcessReceiptError::BindingMismatch)
    } else if launch.kernel_refresh is None && outcome.kernel_refresh is Some {
        Some(PrivilegedProcessReceiptError::KernelRefreshOutcomeMismatch)
    } else {
        None
    }
}

/// Every process that was to run has run and reported success.
pub open spec fn ran_completely(
    refresh_expected: bool,
    outcome: PrivilegedDescriptorSequenceOutcome,
) -> bool {
    &&& outcome.primary.exit_code == 0
    &&& refresh_expected ==> outcome.kernel_refresh is Some
        && outcome.kernel_refresh->Some_0.exit_code == 0
}

/// The receipt of an outcome.
pub open spec fn is_process_receipt(
    receipt: PrivilegedProcessReceipt,
    permit: PrivilegedLaunchPermit,
    launch: PrivilegedDescriptorLaunchSpec,
    outcome: PrivilegedDescriptorSequenceOutcome,
) -> bool {
    &&& receipt.schema_version == 1
    &&& receipt.is_intact()
    &&& receipt.execution_id@ == permit.execution_id@
    &&& receipt.permit_id@ == permit.permit_id@
    &&& receipt.launch_id@ == launch.launch_id@
    &&& receipt.plan_step_id == launch.plan_step_id
    &&& receipt.command_digest@ == launch.command_digest@
    &&& receipt.primary_exit_code == outcome.primary.exit_code
    &&& receipt.primary_stdout_sha256@ == digest::fingerprint_of(outcome.primary.stdout@)
    &&& receipt.primary_stderr_sha256@ == digest::fingerprint_of(outcome.primary.stderr@)
    &&& receipt.primary_stdout_truncated == outcome.primary.stdout_truncated
    &&& receipt.primary_stderr_truncated == outcome.primary.stderr_truncated
    &&& match outcome.kernel_refresh {
        Some(refresh) => {
            &&& receipt.kernel_refresh_exit_code == Some(refresh.exit_code)
            &&& text::opt_text(receipt.kernel_refresh_stdout_sha256) == Some(
                digest::fingerprint_of(refresh.stdout@),
            )
            &&& text::opt_text(receipt.kernel_refresh_stderr_sha256) == Some(
                digest::fingerprint_of(refresh.stderr@),
            )
            &&& receipt.kernel_refresh_stdout_truncated == Some(refresh.stdout_truncated)
            &&& receipt.kernel_refresh_stderr_truncated == Some(refresh.stderr_truncated)
        },
        None => {
            &&& receipt.kernel_refresh_exit_code is None
            &&& receipt.kernel_refresh_stdout_sha256 is None
            &&& receipt.kernel_refresh_stderr_sha256 is None
            &&& receipt.kernel_refresh_stdout_truncated is None
            &&& receipt.kernel_refresh_stderr_truncated is None
        },
    }
    &&& receipt.mutation_may_have_started
    &&& receipt.disposition == if ran_completely(launch.kernel_refresh is Some, outcome) {
        PrivilegedRuntimeDisposition::RediscoveryRequired
    } else {
        PrivilegedRuntimeDisposition::RecoveryRequired
    }
}

/// Records what the processes of a launch left behind. Success is never completion: it leads to
/// rediscovery. Everything else leads to recovery, since the mutation may have started.
pub fn classify_privileged_process_outcome(
    permit: &PrivilegedLaunchPermit,
    launch: &PrivilegedDescriptorLaunchSpec,
    outcome: &PrivilegedDescriptorSequenceOutcome,
) -> (result: Result<PrivilegedProcessReceipt, PrivilegedProcessReceiptError>)
    ensures
        match result {
            Ok(receipt) => outcome_refusal(*permit, *launch, *outcome) is None
                && is_process_receipt(receipt, *permit, *launch, *outcome),
            Err(e) => outcome_refusal(*permit, *launch, *outcome) == Some(e),
        },
{
    if !permit.intact() {
        return Err(PrivilegedProcessReceiptError::PermitIntegrityMismatch);
    }
    if !launch.intact() {
        return Err(PrivilegedProcessReceiptError::LaunchIntegrityMismatch);
    }
    if !same_text(permit.launch_id.as_str(), launch.launch_id.as_str()) || !same_text(
        permit.authorization_id.as_str(),
        launch.authorization_id.as_str(),
    ) || permit.plan_step_id != launch.plan_step_id || !same_text(
        permit.command_digest.as_str(),
        launch.command_digest.as_str(),
    ) {
        return Err(PrivilegedProcessReceiptError::BindingMismatch);
    }
    let refresh_expected = launch.kernel_refresh.is_some();
    if !refresh_expected && outcome.kernel_refresh.is_some() {
        return Err(PrivilegedProcessReceiptError::KernelRefreshOutcomeMismatch);
    }
    let refresh_succeeded = match &outcome.kernel_refresh {
        Some(refresh) => refresh.exit_code == 0,
        None => false,
    };
    let disposition = if outcome.primary.exit_code == 0 && (!refresh_expected
        || refresh_succeeded) {
        PrivilegedRuntimeDisposition::RediscoveryRequired
    } else {
        PrivilegedRuntimeDisposition::RecoveryRequired
    };
    let mut receipt = PrivilegedProcessReceipt {
        schema_version: 1,
        receipt_id: String::new(),
        execution_id: permit.execution_id.clone(),
        permit_id: permit.permit_id.clone(),
        launch_id: launch.launch_id.clone(),
        plan_step_id: launch.plan_step_id,
        command_digest: launch.command_digest.clone(),
        primary_exit_code: outcome.primary.exit_code,
        primary_stdout_sha256: fingerprint(outcome.primary.stdout.as_slice()),
        primary_stderr_sha256: fingerprint(outcome.primary.stderr.as_slice()),
        primary_stdout_truncated: outcome.primary.stdout_truncated,
        primary_stderr_truncated: outcome.primary.stderr_truncated,
        kernel_refresh_exit_code: None,
        kernel_refresh_stdout_sha256: None,
        kernel_refresh_stderr_sha256: None,
        kernel_refresh_stdout_truncated: None,
        kernel_refresh_stderr_truncated: None,
        mutation_may_have_started: true,
        disposition,
    };
    match &outcome.kernel_refresh {
        Some(refresh) => {
            receipt.kernel_refresh_exit_code = Some(refresh.exit_code);
            receipt.kernel_refresh_stdout_sha256 = Some(fingerprint(refresh.stdout.as_slice()));
            receipt.kernel_refresh_stderr_sha256 = Some(fingerprint(refresh.stderr.as_slice()));
            receipt.kernel_refresh_stdout_truncated = Some(refresh.stdout_truncated);
            receipt.kernel_refresh_stderr_truncated = Some(refresh.stderr_truncated);
        },
        None => {},
    }
    let receipt_id = receipt.fingerprint();
    receipt.receipt_id = receipt_id;
    Ok(receipt)
}

/// The two hold the same, apart from their identifiers.
pub open spec fn same_process_receipt(a: PrivilegedProcessReceipt, b: PrivilegedProcessReceipt) -> bool {
    &&& a.schema_version == b.schema_version
    &&& a.execution_id@ == b.execution_id@
    &&& a.permit_id@ == b.permit_id@
    &&& a.launch_id@ == b.launch_id@
    &&& a.plan_step_id == b.plan_step_id
    &&& a.command_digest@ == b.command_digest@
    &&& a.primary_exit_code == b.primary_exit_code
    &&& a.primary_stdout_sha256@ == b.primary_stdout_sha256@
    &&& a.primary_stderr_sha256@ == b.primary_stderr_sha256@
    &&& a.primary_stdout_truncated == b.primary_stdout_truncated
    &&& a.primary_stderr_truncated == b.primary_stderr_truncated
    &&& a.kernel_refresh_exit_code == b.kernel_refresh_exit_code
    &&& text::opt_text(a.kernel_refresh_stdout_sha256) == text::opt_text(b.kernel_refresh_stdout_sha256)
    &&& text::opt_text(a.kernel_refresh_stderr_sha256) == text::opt_text(b.kernel_refresh_stderr_sha256)
    &&& a.kernel_refresh_stdout_truncated == b.kernel_refresh_stdout_truncated
    &&& a.kernel_refresh_stderr_truncated == b.kernel_refresh_stderr_truncated
    &&& a.mutation_may_have_started == b.mutation_may_have_started
    &&& a.disposition == b.disposition
}

proof fn lemma_process_receipt_told(a: PrivilegedProcessReceipt, b: PrivilegedProcessReceipt)
    requires
        process_receipt_json(a) == process_receipt_json(b),
    ensures
        same_process_receipt(a, b),
{
    broadcast use crate::json_reading::group_json_reading;

    let p = process_receipt_parts(a);
    let q = process_receipt_parts(b);
    assert(json_reading::are_values(p) && json_reading::are_values(q));
    assert(p[0] == q[0]);
    assert(p[1] == q[1]);
    assert(p[2] == q[2]);
    assert(p[3] == q[3]);
    assert(p[4] == q[4]);
    assert(p[5] == q[5]);
    assert(p[6] == q[6]);
    assert(p[7] == q[7]);
    assert(p[8] == q[8]);
    assert(p[9] == q[9]);
    assert(p[10] == q[10]);
    assert(p[11] == q[11]);
    assert(p[12] == q[12]);
    assert(p[13] == q[13]);
    assert(p[14] == q[14]);
    assert(p[15] == q[15]);
    assert(p[16] == q[16]);
    assert(p[17] == q[17]);
    lemma_disposition_name_told(a.disposition, b.disposition);
}

/// A process receipt that was changed under its identifier is noticed, short of a SHA-256 collision.
pub proof fn changed_process_receipt_is_detected(a: PrivilegedProcessReceipt, b: PrivilegedProcessReceipt)
    requires
        a.is_intact(),
        b.receipt_id@ == a.receipt_id@,
        !same_process_receipt(a, b),
    ensures
        !b.is_intact() || digest::is_collision(process_receipt_json(a), process_receipt_json(b)),
{
    if b.is_intact() {
        digest::fingerprint_tells_its_text(process_receipt_json(a), process_receipt_json(b));
        if process_receipt_json(a) == process_receipt_json(b) {
            lemma_process_receipt_told(a, b);
        }
    }
}

/// An outcome is recorded exactly where permit and launch are intact and name each other, and no
/// refresh came out that was not launched.
pub proof fn outcome_is_recorded_for_its_own_launch(
    permit: PrivilegedLaunchPermit,
    launch: PrivilegedDescriptorLaunchSpec,
    outcome: PrivilegedDescriptorSequenceOutcome,
)
    ensures
        outcome_refusal(permit, launch, outcome) is None <==> {
            &&& permit.is_intact()
            &&& launch.is_intact()
            &&& permit.launch_id@ == launch.launch_id@
            &&& permit.authorization_id@ == launch.authorization_id@
            &&& permit.plan_step_id == launch.plan_step_id
            &&& permit.command_digest@ == launch.command_digest@
            &&& outcome.kernel_refresh is Some ==> launch.kernel_refresh is Some
        },
{
}

/// A receipt asks for rediscovery exactly where the main process ended with zero and a refresh that
/// was launched ended with zero too; anything else asks for recovery. Either way a mutation may have
/// started, and the receipt names its execution, permit, launch, step and command and holds the
/// codes and the fingerprints of what was printed.
pub proof fn process_receipt_asks_for_recovery_unless_everything_succeeded(
    receipt: PrivilegedProcessReceipt,
    permit: PrivilegedLaunchPermit,
    launch: PrivilegedDescriptorLaunchSpec,
    outcome: PrivilegedDescriptorSequenceOutcome,
)
    requires
        is_process_receipt(receipt, permit, launch, outcome),
    ensures
        receipt.schema_version == 1,
        receipt.disposition is RediscoveryRequired <==> {
            &&& outcome.primary.exit_code == 0
            &&& launch.kernel_refresh is None || (outcome.kernel_refresh is Some
                && outcome.kernel_refresh->Some_0.exit_code == 0)
        },
        receipt.disposition is RecoveryRequired || receipt.disposition is RediscoveryRequired,
        receipt.mutation_may_have_started,
        receipt.execution_id@ == permit.execution_id@,
        receipt.permit_id@ == permit.permit_id@,
        receipt.launch_id@ == launch.launch_id@,
        receipt.plan_step_id == launch.plan_step_id,
        receipt.command_digest@ == launch.command_digest@,
        receipt.primary_exit_code == outcome.primary.exit_code,
        receipt.primary_stdout_sha256@ == digest::fingerprint_of(outcome.primary.stdout@),
        receipt.primary_stderr_sha256@ == digest::fingerprint_of(outcome.primary.stderr@),
        receipt.primary_stdout_truncated == outcome.primary.stdout_truncated,
        receipt.primary_stderr_truncated == outcome.primary.stderr_truncated,
        receipt.kernel_refresh_exit_code is Some <==> outcome.kernel_refresh is Some,
        outcome.kernel_refresh matches Some(refresh) ==> {
            &&& receipt.kernel_refresh_exit_code == Some(refresh.exit_code)
            &&& reading::reads(
                receipt.kernel_refresh_stdout_sha256,
                digest::fingerprint_of(refresh.stdout@),
            )
            &&& reading::reads(
                receipt.kernel_refresh_stderr_sha256,
                digest::fingerprint_of(refresh.stderr@),
            )
            &&& receipt.kernel_refresh_stdout_truncated == Some(refresh.stdout_truncated)
            &&& receipt.kernel_refresh_stderr_truncated == Some(refresh.stderr_truncated)
        },
{
}

/// Each refusal to record an outcome names something that is wrong.
pub proof fn refused_outcome_names_its_reason(
    permit: PrivilegedLaunchPermit,
    launch: PrivilegedDescriptorLaunchSpec,
    outcome: PrivilegedDescriptorSequenceOutcome,
)
    ensures
        outcome_refusal(permit, launch, outcome) matches Some(e) ==> match e {
            PrivilegedProcessReceiptError::PermitIntegrityMismatch => !permit.is_intact(),
            PrivilegedProcessReceiptError::LaunchIntegrityMismatch => !launch.is_intact(),
            PrivilegedProcessReceiptError::BindingMismatch => {
                ||| permit.launch_id@ != launch.launch_id@
                ||| permit.authorization_id@ != launch.authorization_id@
                ||| permit.plan_step_id != launch.plan_step_id
                ||| permit.command_digest@ != launch.command_digest@
            },
            PrivilegedProcessReceiptError::KernelRefreshOutcomeMismatch => launch.kernel_refresh
                is None && outcome.kernel_refresh is Some,
            _ => false,
        },
{
}

} // verus!
