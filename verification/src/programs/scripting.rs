pub mod rhai_script;

use crate::programs::Program;
use vstd::prelude::*;

verus! {

/// Why a program could not be run.
#[derive(PartialEq, Eq, Structural, Clone, Copy, Debug)]
pub enum RunError {
    /// Programs of this kind cannot run yet.
    NotYetSupported,
}

/// Whether programs of this kind can be run.
pub open spec fn is_runnable(program: Program) -> bool {
    match program {
        Program::Native() | Program::NativeAddon() | Program::Rhai() => true,
        Program::Wren() | Program::Typescript() | Program::RuntimeAssembly() => false,
    }
}

/// Runs a program: native programs, native add-ons and Rhai scripts are
/// accepted; Wren, TypeScript and runtime-assembly programs are refused as not
/// yet supported.
pub fn run_program(program: Program) -> (r: Result<(), RunError>)
    ensures
        r is Ok <==> is_runnable(program),
        r is Err ==> r == Err::<(), RunError>(RunError::NotYetSupported),
{
    match program {
        Program::Native() => Ok(()),
        Program::NativeAddon() => Ok(()),
        Program::Rhai() => Ok(()),
        Program::Wren() => Err(RunError::NotYetSupported),
        Program::Typescript() => Err(RunError::NotYetSupported),
        Program::RuntimeAssembly() => Err(RunError::NotYetSupported),
    }
}

/// Exactly native programs, native add-ons and Rhai scripts can run; Wren,
/// TypeScript and runtime-assembly programs cannot.
pub proof fn lemma_runnable_kinds(program: Program)
    ensures
        is_runnable(program) <==> (program is Native || program is NativeAddon || program is Rhai),
        !is_runnable(program) <==> (program is Wren || program is Typescript
            || program is RuntimeAssembly),
{
}

} // verus!
