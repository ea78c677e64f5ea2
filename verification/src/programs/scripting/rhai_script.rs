use vstd::prelude::*;

verus! {

/// The loaded Rhai program, if any, and whether its fixed-step and per-frame
/// updates are to be called. `A` is the compiled script.
pub struct RhaiProgram<A> {
    pub ast: Option<A>,
    pub fixed_update: bool,
    pub update: bool,
}

/// A request to load the Rhai program whose entry file is at this path.
pub struct AddRhaiProgram(pub String);

/// A request to unload the Rhai program.
pub struct RemoveRhaiProgram;

/// The plugin that keeps the Rhai program state.
pub struct RhaiProgramPlugin;

/// What became of one request to load a program.
pub enum AddOutcome<A> {
    /// The path does not name a file.
    NotAFile,
    /// The script did not compile.
    CompileFailed,
    /// The script compiled but running it failed.
    EvalFailed,
    /// The script compiled and ran.
    Loaded(A),
}

/// Whether the remaining load requests are still to be handled.
#[derive(PartialEq, Eq, Structural, Clone, Copy, Debug)]
pub enum Flow {
    Continue,
    Stop,
}

impl<A> RhaiProgram<A> {
    /// No program loaded and no updates called.
    pub fn new() -> (p: Self)
        ensures
            p.ast is None,
            !p.fixed_update,
            !p.update,
    {
        RhaiProgram { ast: None, fixed_update: false, update: false }
    }

    /// Handles one load request: a program that compiled and ran replaces the
    /// current one, with its updates off; a path that is no file is skipped;
    /// a failed compile or run stops the handling of the remaining requests
    /// and keeps the current program.
    pub fn add_step(&mut self, outcome: AddOutcome<A>) -> (flow: Flow)
        ensures
            match outcome {
                AddOutcome::Loaded(ast) => {
                    &&& flow == Flow::Continue
                    &&& final(self).ast == Some(ast)
                    &&& !final(self).fixed_update
                    &&& !final(self).update
                },
                AddOutcome::NotAFile => flow == Flow::Continue && *final(self) == *old(self),
                _ => flow == Flow::Stop && *final(self) == *old(self),
            },
    {
        match outcome {
            AddOutcome::Loaded(ast) => {
                self.ast = Some(ast);
                self.fixed_update = false;
                self.update = false;
                Flow::Continue
            },
            AddOutcome::NotAFile => Flow::Continue,
            AddOutcome::CompileFailed => Flow::Stop,
            AddOutcome::EvalFailed => Flow::Stop,
        }
    }

    /// Handles one unload request: no program is left and no updates called.
    pub fn remove_step(&mut self)
        ensures
            final(self).ast is None,
            !final(self).fixed_update,
            !final(self).update,
    {
        self.ast = None;
        self.fixed_update = false;
        self.update = false;
    }
}

} // verus!
