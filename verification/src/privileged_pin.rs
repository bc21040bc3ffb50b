//! Tools pinned by open file descriptors. The descriptors themselves stay with the caller.

use vstd::prelude::*;

use crate::privileged_tools;
use crate::privileged_argv;
use crate::paths;
use crate::json;
use crate::json_reading;
use crate::digest;
use crate::digest::{fingerprint, fingerprint_text};
use crate::json::{null_literal, Parts};
use crate::paths::absolute_path;
use crate::privileged_argv::{PrivilegedCommandModel, PrivilegedCommandSpec, PrivilegedProgram};
use crate::privileged_spawn::PrivilegedSpawnAuthorization;
use crate::privileged_tools::{PrivilegedToolResolution, TrustedToolIdentity};
use crate::text::same_text;

verus! {

/// What an open executable was found to be.
#[derive(Debug, PartialEq, Eq)]
pub struct PinnedToolReceipt {
    pub program: PrivilegedProgram,
    pub canonical_path: String,
    pub device_id: u64,
    pub inode: u64,
    pub uid: u32,
    pub mode: u32,
    pub size_bytes: u64,
    pub sha256: String,
}

impl Clone for PinnedToolReceipt {
    fn clone(&self) -> (copy: Self)
        ensures
            copy == *self,
    {
        PinnedToolReceipt {
            program: self.program,
            canonical_path: self.canonical_path.clone(),
            device_id: self.device_id,
            inode: self.inode,
            uid: self.uid,
            mode: self.mode,
            size_bytes: self.size_bytes,
            sha256: self.sha256.clone(),
        }
    }
}

/// What a pinned tool is fingerprinted by, in order.
pub open spec fn pin_receipt_parts(receipt: PinnedToolReceipt) -> Seq<Seq<char>> {
    Seq::empty()
        .push(json::json_field("program"@, json::json_text(privileged_argv::privileged_program_name(receipt.program))))
        .push(json::json_field("canonical_path"@, json::json_text(receipt.canonical_path@)))
        .push(json::json_field("device_id"@, json::json_number(receipt.device_id as int)))
        .push(json::json_field("inode"@, json::json_number(receipt.inode as int)))
        .push(json::json_field("uid"@, json::json_number(receipt.uid as int)))
        .push(json::json_field("mode"@, json::json_number(receipt.mode as int)))
        .push(json::json_field("size_bytes"@, json::json_number(receipt.size_bytes as int)))
        .push(json::json_field("sha256"@, json::json_text(receipt.sha256@)))
}

/// The JSON form of a receipt.
pub open spec fn pin_receipt_json(receipt: PinnedToolReceipt) -> Seq<char> {
    json::json_object(pin_receipt_parts(receipt))
}

/// The JSON form of an optional receipt.
pub open spec fn opt_pin_receipt_json(receipt: Option<PinnedToolReceipt>) -> Seq<char> {
    match receipt {
        Some(r) => pin_receipt_json(r),
        None => json::json_null(),
    }
}

pub(crate) fn pin_receipt_literal(receipt: &PinnedToolReceipt) -> (text: String)
    ensures
        text@ == pin_receipt_json(*receipt),
{
    let mut parts = Parts::new();
    parts.field_text("program", receipt.program.as_str());
    parts.field_text("canonical_path", receipt.canonical_path.as_str());
    parts.field_number("device_id", receipt.device_id);
    parts.field_number("inode", receipt.inode);
    parts.field_number("uid", receipt.uid as u64);
    parts.field_number("mode", receipt.mode as u64);
    parts.field_number("size_bytes", receipt.size_bytes);
    parts.field_text("sha256", receipt.sha256.as_str());
    parts.object()
}

/// The pinned tools of an authorised command.
#[derive(Debug, PartialEq, Eq)]
pub struct PinnedPrivilegedTools {
    pub schema_version: u32,
    pub pin_id: String,
    pub authorization_id: String,
    pub plan_step_id: u32,
    pub command_digest: String,
    pub tool_resolution_digest: String,
    pub primary: PinnedToolReceipt,
    pub kernel_refresh: Option<PinnedToolReceipt>,
}

/// What a pin is fingerprinted by, in order.
pub open spec fn pins_parts(pinned: PinnedPrivilegedTools) -> Seq<Seq<char>> {
    Seq::empty()
        .push(json::json_number(pinned.schema_version as int))
        .push(json::json_text(pinned.authorization_id@))
        .push(json::json_number(pinned.plan_step_id as int))
        .push(json::json_text(pinned.command_digest@))
        .push(json::json_text(pinned.tool_resolution_digest@))
        .push(pin_receipt_json(pinned.primary))
        .push(opt_pin_receipt_json(pinned.kernel_refresh))
}

/// The JSON form that pinned tools are fingerprinted by.
pub open spec fn pin_json(pinned: PinnedPrivilegedTools) -> Seq<char> {
    json::json_array(pins_parts(pinned))
}

impl PinnedPrivilegedTools {
    /// The identifier is the fingerprint of the other fields.
    pub open spec fn is_intact(self) -> bool {
        self.pin_id@ == digest::text_fingerprint(pin_json(self))
    }

    pub fn integrity_matches(&self) -> (result: Result<bool, serde_json::Error>)
        ensures
            result is Ok,
            result->Ok_0 == self.is_intact(),
    {
        Ok(self.intact())
    }

    /// The identifier that the other fields ask for.
    pub fn expected_pin_id(&self) -> (result: Result<String, serde_json::Error>)
        ensures
            result is Ok,
            result->Ok_0@ == digest::text_fingerprint(pin_json(*self)),
    {
        Ok(self.fingerprint())
    }

    fn fingerprint(&self) -> (id: String)
        ensures
            id@ == digest::text_fingerprint(pin_json(*self)),
    {
        let refresh = match &self.kernel_refresh {
            Some(receipt) => pin_receipt_literal(receipt),
            None => null_literal(),
        };
        let mut parts = Parts::new();
        parts.push_number(self.schema_version as u64);
        parts.push_text(self.authorization_id.as_str());
        parts.push_number(self.plan_step_id as u64);
        parts.push_text(self.command_digest.as_str());
        parts.push_text(self.tool_resolution_digest.as_str());
        parts.push(pin_receipt_literal(&self.primary));
        parts.push(refresh);
        fingerprint_text(parts.array().as_str())
    }

    pub(crate) fn intact(&self) -> (yes: bool)
        ensures
            yes == self.is_intact(),
    {
        same_text(self.pin_id.as_str(), self.fingerprint().as_str())
    }
}

#[derive(Clone, Debug, PartialEq, Eq)]
pub enum PrivilegedToolPinError {
    AuthorizationIntegrityMismatch,
    AuthorizationCommandMismatch,
    ToolResolutionDrift,
    UnsafeExpectedIdentity,
    PinnedExecutableMismatch,
    Io(String),
}

/// The content of a refusal.
pub enum PinFault {
    AuthorizationIntegrityMismatch,
    AuthorizationCommandMismatch,
    ToolResolutionDrift,
    UnsafeExpectedIdentity,
    PinnedExecutableMismatch,
    Io(Seq<char>),
}

impl View for PrivilegedToolPinError {
    type V = PinFault;

    open spec fn view(&self) -> PinFault {
        match *self {
            PrivilegedToolPinError::AuthorizationIntegrityMismatch => {
                PinFault::AuthorizationIntegrityMismatch
            },
            PrivilegedToolPinError::AuthorizationCommandMismatch => {
                PinFault::AuthorizationCommandMismatch
            },
            PrivilegedToolPinError::ToolResolutionDrift => PinFault::ToolResolutionDrift,
            PrivilegedToolPinError::UnsafeExpectedIdentity => PinFault::UnsafeExpectedIdentity,
            PrivilegedToolPinError::PinnedExecutableMismatch => PinFault::PinnedExecutableMismatch,
            PrivilegedToolPinError::Io(s) => PinFault::Io(s@),
        }
    }
}

/// What an open descriptor says of its file, and what can be read from it.
#[derive(Debug, PartialEq, Eq)]
pub struct OpenedTool {
    pub regular: bool,
    pub device: u64,
    pub inode: u64,
    pub owner: u32,
    pub mode: u32,
    pub size: u64,
    pub content: Vec<u8>,
}

/// The open file is the expected executable.
pub open spec fn is_expected_file(file: OpenedTool, expected: TrustedToolIdentity) -> bool {
    &&& file.regular
    &&& file.device == expected.device_id
    &&& file.inode == expected.inode
    &&& file.owner == expected.uid
    &&& file.mode == expected.mode
    &&& file.size == expected.size_bytes
    &&& digest::fingerprint_of(file.content@) == expected.sha256@
}

/// The receipt of the expected executable.
pub open spec fn is_receipt_of(receipt: PinnedToolReceipt, expected: TrustedToolIdentity) -> bool {
    &&& receipt.program == expected.program
    &&& receipt.canonical_path@ == expected.canonical_path@
    &&& receipt.device_id == expected.device_id
    &&& receipt.inode == expected.inode
    &&& receipt.uid == expected.uid
    &&& receipt.mode == expected.mode
    &&& receipt.size_bytes == expected.size_bytes
    &&& receipt.sha256@ == expected.sha256@
}

/// Compares an open file with the executable that was expected there.
pub fn receipt_from_open_file(file: &OpenedTool, expected: &TrustedToolIdentity) -> (result: Result<
    PinnedToolReceipt,
    PrivilegedToolPinError,
>)
    ensures
        match result {
            Ok(receipt) => is_expected_file(*file, *expected) && is_receipt_of(
                receipt,
                *expected,
            ),
            Err(e) => !is_expected_file(*file, *expected) && e is PinnedExecutableMismatch,
        },
{
    let sha256 = fingerprint(file.content.as_slice());
    if !file.regular || file.device != expected.device_id || file.inode != expected.inode
        || file.owner != expected.uid || file.mode != expected.mode || file.size
        != expected.size_bytes || !same_text(sha256.as_str(), expected.sha256.as_str()) {
        return Err(PrivilegedToolPinError::PinnedExecutableMismatch);
    }
    Ok(
        PinnedToolReceipt {
            program: expected.program,
            canonical_path: expected.canonical_path.clone(),
            device_id: file.device,
            inode: file.inode,
            uid: file.owner,
            mode: file.mode,
            size_bytes: file.size,
            sha256,
        },
    )
}

/// The identity is one that may be opened at all.
pub open spec fn may_be_pinned(expected: TrustedToolIdentity) -> bool {
    &&& expected.uid == 0
    &&& expected.mode & 0o111 != 0
    &&& expected.mode & 0o022 == 0
    &&& paths::is_absolute_path(expected.canonical_path@)
}

/// What a tool is refused for when it is pinned, if anything.
pub open spec fn pin_tool_refusal(
    expected: TrustedToolIdentity,
    opened: Result<OpenedTool, String>,
) -> Option<PinFault> {
    if !may_be_pinned(expected) {
        Some(PinFault::UnsafeExpectedIdentity)
    } else {
        match opened {
            Err(reason) => Some(PinFault::Io(reason@)),
            Ok(file) => if is_expected_file(file, expected) {
                None
            } else {
                Some(PinFault::PinnedExecutableMismatch)
            },
        }
    }
}

fn pin_trusted_tool(expected: &TrustedToolIdentity, opened: &Result<OpenedTool, String>) -> (result:
    Result<PinnedToolReceipt, PrivilegedToolPinError>)
    ensures
        match result {
            Ok(receipt) => pin_tool_refusal(*expected, *opened) is None && is_receipt_of(
                receipt,
                *expected,
            ),
            Err(e) => pin_tool_refusal(*expected, *opened) == Some(e@),
        },
{
    if expected.uid != 0 || expected.mode & 0o111 == 0 || expected.mode & 0o022 != 0
        || !absolute_path(expected.canonical_path.as_str()) {
        return Err(PrivilegedToolPinError::UnsafeExpectedIdentity);
    }
    match opened {
        Err(reason) => Err(PrivilegedToolPinError::Io(reason.clone())),
        Ok(file) => receipt_from_open_file(file, expected),
    }
}

/// What the tools of an authorised command are refused for, if anything.
pub open spec fn pin_refusal(
    authorization: PrivilegedSpawnAuthorization,
    command: PrivilegedCommandModel,
    tools: PrivilegedToolResolution,
    primary: Result<OpenedTool, String>,
    refresh: Result<OpenedTool, String>,
) -> Option<PinFault> {
    let on_primary = pin_tool_refusal(tools.primary, primary);
    if privileged_tools::resolution_fingerprint(tools) != authorization.tool_resolution_digest@ {
        Some(PinFault::ToolResolutionDrift)
    } else if !authorization.is_intact() {
        Some(PinFault::AuthorizationIntegrityMismatch)
    } else if authorization.plan_step_id != command.plan_step_id || authorization.command_digest@
        != privileged_argv::command_fingerprint(command) || tools.command_digest@ != privileged_argv::command_fingerprint(command) {
        Some(PinFault::AuthorizationCommandMismatch)
    } else if on_primary is Some {
        on_primary
    } else {
        match tools.kernel_refresh {
            Some(tool) => pin_tool_refusal(tool, refresh),
            None => None,
        }
    }
}

/// The pinned form of authorised tools.
pub open spec fn pins(
    pinned: PinnedPrivilegedTools,
    authorization: PrivilegedSpawnAuthorization,
    tools: PrivilegedToolResolution,
) -> bool {
    &&& pinned.schema_version == 1
    &&& pinned.is_intact()
    &&& pinned.authorization_id@ == authorization.authorization_id@
    &&& pinned.plan_step_id == authorization.plan_step_id
    &&& pinned.command_digest@ == authorization.command_digest@
    &&& pinned.tool_resolution_digest@ == authorization.tool_resolution_digest@
    &&& is_receipt_of(pinned.primary, tools.primary)
    &&& match (pinned.kernel_refresh, tools.kernel_refresh) {
        (Some(receipt), Some(tool)) => is_receipt_of(receipt, tool),
        (None, None) => true,
        _ => false,
    }
}

/// Pins the tools of an authorised command: the files that were opened are exactly the ones that
/// were resolved. `refresh` is looked at only where the resolution has a kernel refresh. Neither
/// file is executed.
pub fn pin_privileged_tools_for_spawn(
    authorization: &PrivilegedSpawnAuthorization,
    command: &PrivilegedCommandSpec,
    tools: &PrivilegedToolResolution,
    primary: &Result<OpenedTool, String>,
    refresh: &Result<OpenedTool, String>,
) -> (result: Result<PinnedPrivilegedTools, PrivilegedToolPinError>)
    ensures
        match result {
            Ok(pinned) => pin_refusal(
                *authorization,
                command@,
                *tools,
                *primary,
                *refresh,
            ) is None && pins(pinned, *authorization, *tools),
            Err(e) => pin_refusal(*authorization, command@, *tools, *primary, *refresh) == Some(
                e@,
            ),
        },
{
    if !same_text(
        tools.fingerprint().as_str(),
        authorization.tool_resolution_digest.as_str(),
    ) {
        return Err(PrivilegedToolPinError::ToolResolutionDrift);
    }
    if !authorization.intact() {
        return Err(PrivilegedToolPinError::AuthorizationIntegrityMismatch);
    }
    let command_digest = command.fingerprint();
    if authorization.plan_step_id != command.plan_step_id || !same_text(
        authorization.command_digest.as_str(),
        command_digest.as_str(),
    ) || !same_text(tools.command_digest.as_str(), command_digest.as_str()) {
        return Err(PrivilegedToolPinError::AuthorizationCommandMismatch);
    }
    let primary_receipt = match pin_trusted_tool(&tools.primary, primary) {
        Ok(receipt) => receipt,
        Err(e) => return Err(e),
    };
    let refresh_receipt = match &tools.kernel_refresh {
        None => None,
        Some(tool) => match pin_trusted_tool(tool, refresh) {
            Ok(receipt) => Some(receipt),
            Err(e) => return Err(e),
        },
    };
    let mut pinned = PinnedPrivilegedTools {
        schema_version: 1,
        pin_id: String::new(),
        authorization_id: authorization.authorization_id.clone(),
        plan_step_id: command.plan_step_id,
        command_digest,
        tool_resolution_digest: authorization.tool_resolution_digest.clone(),
        primary: primary_receipt,
        kernel_refresh: refresh_receipt,
    };
    let pin_id = pinned.fingerprint();
    pinned.pin_id = pin_id;
    Ok(pinned)
}

/// The form of a pinned tool is one value.
pub proof fn lemma_pin_receipt_value(receipt: PinnedToolReceipt)
    ensures
        json_reading::is_value(pin_receipt_json(receipt)),
{
    broadcast use crate::json_reading::group_json_reading;

    assert(json_reading::are_values(pin_receipt_parts(receipt)));
}

/// The two hold the same.
pub open spec fn same_pin_receipt(a: PinnedToolReceipt, b: PinnedToolReceipt) -> bool {
    &&& a.program == b.program
    &&& a.canonical_path@ == b.canonical_path@
    &&& a.device_id == b.device_id
    &&& a.inode == b.inode
    &&& a.uid == b.uid
    &&& a.mode == b.mode
    &&& a.size_bytes == b.size_bytes
    &&& a.sha256@ == b.sha256@
}

/// The form of a pinned tool tells all of it.
pub proof fn lemma_pin_receipt_told(a: PinnedToolReceipt, b: PinnedToolReceipt)
    requires
        pin_receipt_json(a) == pin_receipt_json(b),
    ensures
        same_pin_receipt(a, b),
{
    broadcast use crate::json_reading::group_json_reading;

    let p = pin_receipt_parts(a);
    let q = pin_receipt_parts(b);
    assert(json_reading::are_values(p) && json_reading::are_values(q));
    assert(p[0] == q[0]);
    assert(p[1] == q[1]);
    assert(p[2] == q[2]);
    assert(p[3] == q[3]);
    assert(p[4] == q[4]);
    assert(p[5] == q[5]);
    assert(p[6] == q[6]);
    assert(p[7] == q[7]);
    privileged_argv::lemma_privileged_program_name_told(a.program, b.program);
}

/// The two hold the same, or neither is there.
pub open spec fn same_opt_pin_receipt(
    a: Option<PinnedToolReceipt>,
    b: Option<PinnedToolReceipt>,
) -> bool {
    match (a, b) {
        (Some(x), Some(y)) => same_pin_receipt(x, y),
        (None, None) => true,
        _ => false,
    }
}

pub proof fn lemma_opt_pin_receipt_value(receipt: Option<PinnedToolReceipt>)
    ensures
        json_reading::is_value(opt_pin_receipt_json(receipt)),
{
    match receipt {
        Some(r) => lemma_pin_receipt_value(r),
        None => json_reading::null_is_value(),
    }
}

proof fn lemma_opt_pin_receipt_told(
    a: Option<PinnedToolReceipt>,
    b: Option<PinnedToolReceipt>,
)
    requires
        opt_pin_receipt_json(a) == opt_pin_receipt_json(b),
    ensures
        same_opt_pin_receipt(a, b),
{
    if a is Some {
        json_reading::object_is_not_null(pin_receipt_parts(a->Some_0));
    }
    if b is Some {
        json_reading::object_is_not_null(pin_receipt_parts(b->Some_0));
    }
    if a is Some && b is Some {
        lemma_pin_receipt_told(a->Some_0, b->Some_0);
    }
}

/// The two hold the same, apart from their identifiers.
pub open spec fn same_pins(a: PinnedPrivilegedTools, b: PinnedPrivilegedTools) -> bool {
    &&& a.schema_version == b.schema_version
    &&& a.authorization_id@ == b.authorization_id@
    &&& a.plan_step_id == b.plan_step_id
    &&& a.command_digest@ == b.command_digest@
    &&& a.tool_resolution_digest@ == b.tool_resolution_digest@
    &&& same_pin_receipt(a.primary, b.primary)
    &&& same_opt_pin_receipt(a.kernel_refresh, b.kernel_refresh)
}

proof fn lemma_pins_told(a: PinnedPrivilegedTools, b: PinnedPrivilegedTools)
    requires
        pin_json(a) == pin_json(b),
    ensures
        same_pins(a, b),
{
    broadcast use crate::json_reading::group_json_reading;

    lemma_pin_receipt_value(a.primary);
    lemma_pin_receipt_value(b.primary);
    lemma_opt_pin_receipt_value(a.kernel_refresh);
    lemma_opt_pin_receipt_value(b.kernel_refresh);
    let p = pins_parts(a);
    let q = pins_parts(b);
    assert(json_reading::are_values(p) && json_reading::are_values(q));
    assert(p[0] == q[0]);
    assert(p[1] == q[1]);
    assert(p[2] == q[2]);
    assert(p[3] == q[3]);
    assert(p[4] == q[4]);
    assert(p[5] == q[5]);
    assert(p[6] == q[6]);
    lemma_pin_receipt_told(a.primary, b.primary);
    lemma_opt_pin_receipt_told(a.kernel_refresh, b.kernel_refresh);
}

/// A pin that was changed under its identifier is noticed, short of a SHA-256 collision.
pub proof fn changed_pin_is_detected(a: PinnedPrivilegedTools, b: PinnedPrivilegedTools)
    requires
        a.is_intact(),
        b.pin_id@ == a.pin_id@,
        !same_pins(a, b),
    ensures
        !b.is_intact() || digest::is_collision(pin_json(a), pin_json(b)),
{
    if b.is_intact() {
        digest::fingerprint_tells_its_text(pin_json(a), pin_json(b));
        if pin_json(a) == pin_json(b) {
            lemma_pins_told(a, b);
        }
    }
}

/// A tool is pinned exactly where the expected one belongs to the superuser, may be run by someone
/// and written by nobody else, has an absolute path, and the open file is that very file with those
/// very bytes.
pub proof fn pinned_tool_is_the_expected_file(expected: TrustedToolIdentity, file: OpenedTool)
    ensures
        pin_tool_refusal(expected, Ok(file)) is None <==> {
            &&& expected.uid == 0
            &&& expected.mode & 0o111 != 0
            &&& expected.mode & 0o022 == 0
            &&& expected.canonical_path@.len() > 0 && expected.canonical_path@[0] == '/'
            &&& file.regular
            &&& file.device == expected.device_id
            &&& file.inode == expected.inode
            &&& file.owner == 0
            &&& file.mode == expected.mode
            &&& file.size == expected.size_bytes
            &&& digest::fingerprint_of(file.content@) == expected.sha256@
        },
{
}

/// Tools are pinned exactly where the resolution is the authorised one, the authorisation is intact,
/// all three are about one command, and each tool can be pinned.
pub proof fn tools_are_pinned_as_they_were_authorised(
    authorization: PrivilegedSpawnAuthorization,
    command: PrivilegedCommandModel,
    tools: PrivilegedToolResolution,
    primary: Result<OpenedTool, String>,
    refresh: Result<OpenedTool, String>,
)
    ensures
        pin_refusal(authorization, command, tools, primary, refresh) is None <==> {
            &&& privileged_tools::resolution_fingerprint(tools)
                == authorization.tool_resolution_digest@
            &&& authorization.is_intact()
            &&& authorization.plan_step_id == command.plan_step_id
            &&& authorization.command_digest@ == privileged_argv::command_fingerprint(command)
            &&& tools.command_digest@ == privileged_argv::command_fingerprint(command)
            &&& pin_tool_refusal(tools.primary, primary) is None
            &&& tools.kernel_refresh matches Some(tool) ==> pin_tool_refusal(tool, refresh) is None
        },
{
}

/// Pins repeat their authorisation and describe the tools that were resolved.
pub proof fn pins_describe_the_resolved_tools(
    pinned: PinnedPrivilegedTools,
    authorization: PrivilegedSpawnAuthorization,
    tools: PrivilegedToolResolution,
)
    requires
        pins(pinned, authorization, tools),
    ensures
        pinned.schema_version == 1,
        pinned.authorization_id@ == authorization.authorization_id@,
        pinned.plan_step_id == authorization.plan_step_id,
        pinned.command_digest@ == authorization.command_digest@,
        pinned.tool_resolution_digest@ == authorization.tool_resolution_digest@,
        pinned.primary.program == tools.primary.program,
        pinned.primary.canonical_path@ == tools.primary.canonical_path@,
        pinned.primary.device_id == tools.primary.device_id,
        pinned.primary.inode == tools.primary.inode,
        pinned.primary.uid == tools.primary.uid,
        pinned.primary.mode == tools.primary.mode,
        pinned.primary.size_bytes == tools.primary.size_bytes,
        pinned.primary.sha256@ == tools.primary.sha256@,
        pinned.kernel_refresh is Some <==> tools.kernel_refresh is Some,
        pinned.kernel_refresh matches Some(receipt) ==> {
            let tool = tools.kernel_refresh->Some_0;
            &&& receipt.program == tool.program
            &&& receipt.canonical_path@ == tool.canonical_path@
            &&& receipt.device_id == tool.device_id
            &&& receipt.inode == tool.inode
            &&& receipt.uid == tool.uid
            &&& receipt.mode == tool.mode
            &&& receipt.size_bytes == tool.size_bytes
            &&& receipt.sha256@ == tool.sha256@
        },
{
}

/// Each refusal to pin names something that is wrong.
pub proof fn refused_pin_names_its_reason(
    authorization: PrivilegedSpawnAuthorization,
    command: PrivilegedCommandModel,
    tools: PrivilegedToolResolution,
    primary: Result<OpenedTool, String>,
    refresh: Result<OpenedTool, String>,
)
    ensures
        pin_refusal(authorization, command, tools, primary, refresh) matches Some(e) ==> match e {
            PinFault::ToolResolutionDrift => privileged_tools::resolution_fingerprint(tools)
                != authorization.tool_resolution_digest@,
            PinFault::AuthorizationIntegrityMismatch => !authorization.is_intact(),
            PinFault::AuthorizationCommandMismatch => {
                ||| authorization.plan_step_id != command.plan_step_id
                ||| authorization.command_digest@ != privileged_argv::command_fingerprint(command)
                ||| tools.command_digest@ != privileged_argv::command_fingerprint(command)
            },
            PinFault::UnsafeExpectedIdentity => !may_be_pinned(tools.primary) || (
            tools.kernel_refresh is Some && !may_be_pinned(tools.kernel_refresh->Some_0)),
            PinFault::PinnedExecutableMismatch => {
                ||| primary matches Ok(file) && !is_expected_file(file, tools.primary)
                ||| tools.kernel_refresh is Some && refresh is Ok && !is_expected_file(
                    refresh->Ok_0,
                    tools.kernel_refresh->Some_0,
                )
            },
            PinFault::Io(reason) => {
                ||| primary matches Err(s) && s@ == reason
                ||| refresh matches Err(s) && s@ == reason
            },
            _ => false,
        },
{
}

} // verus!
