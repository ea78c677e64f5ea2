use snow64::events::{count_frame, react, FpsStep, Key, Reaction, WindowInput};
use snow64::frame::{fill_pixels, test_draw};
use snow64::programs::scripting::rhai_script::{AddOutcome, Flow, RhaiProgram};
use snow64::programs::scripting::{run_program, RunError};
use snow64::programs::Program;
use snow64::utils::blend;

#[test]
fn runnable_programs() {
    assert_eq!(run_program(Program::Native()), Ok(()));
    assert_eq!(run_program(Program::NativeAddon()), Ok(()));
    assert_eq!(run_program(Program::Rhai()), Ok(()));
}

#[test]
fn unsupported_programs() {
    assert_eq!(run_program(Program::Wren()), Err(RunError::NotYetSupported));
    assert_eq!(run_program(Program::Typescript()), Err(RunError::NotYetSupported));
    assert_eq!(run_program(Program::RuntimeAssembly()), Err(RunError::NotYetSupported));
}

#[test]
fn rhai_program_load_and_unload() {
    let mut p: RhaiProgram<u32> = RhaiProgram::new();
    assert!(p.ast.is_none());
    assert_eq!(p.add_step(AddOutcome::NotAFile), Flow::Continue);
    assert!(p.ast.is_none());
    p.fixed_update = true;
    assert_eq!(p.add_step(AddOutcome::Loaded(7)), Flow::Continue);
    assert_eq!(p.ast, Some(7));
    assert!(!p.fixed_update && !p.update);
    assert_eq!(p.add_step(AddOutcome::CompileFailed), Flow::Stop);
    assert_eq!(p.ast, Some(7));
    assert_eq!(p.add_step(AddOutcome::EvalFailed), Flow::Stop);
    p.remove_step();
    assert!(p.ast.is_none());
}

#[test]
fn blend_transparent_keeps_current() {
    assert_eq!(blend(&[1, 2, 3, 4], &[9, 9, 9, 0]), Some([1, 2, 3, 4]));
}

#[test]
fn blend_opaque_takes_other() {
    assert_eq!(blend(&[1, 2, 3, 4, 5], &[9, 8, 7, 255]), Some([9, 8, 7, 255]));
}

#[test]
fn blend_partial_needs_mixing() {
    assert_eq!(blend(&[1, 2, 3, 4], &[9, 8, 7, 0x66]), None);
}

#[test]
fn test_draw_copies_whole_pixels() {
    let mut frame = vec![0u8; 10];
    let img: Vec<u8> = (1..=12).collect();
    test_draw(&mut frame, &img);
    assert_eq!(frame, vec![1, 2, 3, 4, 5, 6, 7, 8, 0, 0]);
    let mut frame2 = vec![0u8; 12];
    test_draw(&mut frame2, &img[..6]);
    assert_eq!(frame2, vec![1, 2, 3, 4, 0, 0, 0, 0, 0, 0, 0, 0]);
}

#[test]
fn fill_pixels_paints_whole_pixels() {
    let mut frame = vec![7u8; 9];
    fill_pixels(&mut frame, [0xff, 0x00, 0x00, 0xff]);
    assert_eq!(frame, vec![0xff, 0, 0, 0xff, 0xff, 0, 0, 0xff, 7]);
}

#[test]
fn blend_opaque_over_short_background() {
    assert_eq!(blend(&[1], &[9, 8, 7, 255]), Some([9, 8, 7, 255]));
    assert_eq!(blend(&[], &[4, 5, 6, 255, 0]), Some([4, 5, 6, 255]));
}

#[test]
fn window_reactions() {
    assert_eq!(react(WindowInput::CloseRequested), Reaction::Exit);
    assert_eq!(react(WindowInput::KeyPressed(Key::Escape)), Reaction::Exit);
    assert_eq!(react(WindowInput::KeyPressed(Key::A)), Reaction::Exit);
    assert_eq!(react(WindowInput::KeyPressed(Key::Other)), Reaction::Wait);
    assert_eq!(react(WindowInput::KeyReleased), Reaction::Wait);
    assert_eq!(react(WindowInput::Resized(640, 480)), Reaction::ResizeSurface(640, 480));
    assert_eq!(react(WindowInput::Other), Reaction::Wait);
}

#[test]
fn frame_counting() {
    assert_eq!(count_frame(0, 0), FpsStep { counter: 1, report: None });
    assert_eq!(count_frame(59, 0), FpsStep { counter: 60, report: None });
    assert_eq!(count_frame(59, 1), FpsStep { counter: 0, report: Some(60) });
    assert_eq!(count_frame(3, 5), FpsStep { counter: 0, report: Some(4) });
}
