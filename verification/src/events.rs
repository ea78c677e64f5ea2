use vstd::prelude::*;

verus! {

/// The keys the console reacts to.
#[derive(PartialEq, Eq, Structural, Clone, Copy, Debug)]
pub enum Key {
    Escape,
    A,
    Other,
}

/// What happened to the main window.
#[derive(PartialEq, Eq, Structural, Clone, Copy, Debug)]
pub enum WindowInput {
    CloseRequested,
    KeyPressed(Key),
    KeyReleased,
    Resized(u32, u32),
    Other,
}

/// What the event loop does about it.
#[derive(PartialEq, Eq, Structural, Clone, Copy, Debug)]
pub enum Reaction {
    /// Leave the event loop.
    Exit,
    /// Resize the drawing surface to this width and height.
    ResizeSurface(u32, u32),
    /// Keep waiting.
    Wait,
}

/// The reaction to one window event: closing the window, or pressing Escape
/// or A, exits; a resize resizes the surface; anything else is ignored.
pub fn react(input: WindowInput) -> (r: Reaction)
    ensures
        r == match input {
            WindowInput::CloseRequested => Reaction::Exit,
            WindowInput::KeyPressed(Key::Escape) => Reaction::Exit,
            WindowInput::KeyPressed(Key::A) => Reaction::Exit,
            WindowInput::Resized(w, h) => Reaction::ResizeSurface(w, h),
            _ => Reaction::Wait,
        },
{
    match input {
        WindowInput::CloseRequested => Reaction::Exit,
        WindowInput::KeyPressed(Key::Escape) => Reaction::Exit,
        WindowInput::KeyPressed(Key::A) => Reaction::Exit,
        WindowInput::Resized(w, h) => Reaction::ResizeSurface(w, h),
        _ => Reaction::Wait,
    }
}

/// The frame counter after one more frame, and the frames to report when a
/// second or more has passed since the last report.
#[derive(PartialEq, Eq, Structural, Clone, Copy, Debug)]
pub struct FpsStep {
    pub counter: u64,
    pub report: Option<u64>,
}

/// Counts one drawn frame. When at least a second has passed since the last
/// report, the count including this frame is reported and the counter starts
/// again from zero; the caller then restarts its clock.
pub fn count_frame(counter: u64, elapsed_secs: u64) -> (r: FpsStep)
    requires
        counter < u64::MAX,
    ensures
        elapsed_secs >= 1 ==> r == (FpsStep { counter: 0, report: Some((counter + 1) as u64) }),
        elapsed_secs < 1 ==> r == (FpsStep { counter: (counter + 1) as u64, report: None }),
{
    let counter = counter + 1;
    if elapsed_secs >= 1 {
        FpsStep { counter: 0, report: Some(counter) }
    } else {
        FpsStep { counter, report: None }
    }
}

} // verus!
