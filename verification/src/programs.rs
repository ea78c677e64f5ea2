pub mod scripting;

use vstd::prelude::*;

verus! {

/// The kinds of program the console can run.
#[derive(PartialEq, Eq, Structural, Clone, Copy, Debug)]
pub enum Program {
    Native(),
    NativeAddon(),
    Rhai(),
    Wren(),
    Typescript(),
    RuntimeAssembly(),
}

} // verus!
