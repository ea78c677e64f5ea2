use vstd::prelude::*;

verus! {

/// A program given by the function that starts it, of type `F`.
pub struct Program<'a, F: Fn()> {
    start_fn: &'a F,
}

} // verus!
