//! Command identities of the native backend. Nothing here resolves or spawns a program.

use vstd::prelude::*;

verus! {

#[derive(Clone, Copy, Debug, PartialEq, Eq, Structural)]
pub enum NativeProgram {
    Lvextend,
    Resize2fs,
    XfsGrowfs,
}

/// The name under which a program is recorded.
pub open spec fn native_program_name(program: NativeProgram) -> Seq<char> {
    match program {
        NativeProgram::Lvextend => "lvextend"@,
        NativeProgram::Resize2fs => "resize2fs"@,
        NativeProgram::XfsGrowfs => "xfs_growfs"@,
    }
}

impl NativeProgram {
    /// The name under which the program is recorded.
    pub fn as_str(self) -> (name: &'static str)
        ensures
            name@ == native_program_name(self),
    {
        match self {
            NativeProgram::Lvextend => "lvextend",
            NativeProgram::Resize2fs => "resize2fs",
            NativeProgram::XfsGrowfs => "xfs_growfs",
        }
    }
}

/// Compiled commands are data to be looked at, never an authorisation to run them.
#[derive(Clone, Copy, Debug, PartialEq, Eq, Structural)]
pub enum CompiledCommandManifestStatus {
    CompiledNonExecutable,
}

impl CompiledCommandManifestStatus {
    /// The name under which the status is recorded.
    pub fn as_str(self) -> (name: &'static str)
        ensures
            name@ == "compiled_non_executable"@,
    {
        "compiled_non_executable"
    }
}

/// Each program is recorded under the name of its tool.
pub proof fn native_program_goes_by_its_tool(program: NativeProgram)
    ensures
        program is Lvextend ==> native_program_name(program) == "lvextend"@,
        program is Resize2fs ==> native_program_name(program) == "resize2fs"@,
        program is XfsGrowfs ==> native_program_name(program) == "xfs_growfs"@,
{
}

} // verus!
