use frame_input::event::{DeviceEvent, WindowEvent};
use frame_input::focus::{FocusGate, WindowCommand};
use frame_input::frame_loop::{Action, FrameLoop, LoopEvent, Phase};
use frame_input::identity::ElementState;
use frame_input::input::{CursorGrabAction, Input};
use frame_input::InputEvent;

fn commands(actions: &Vec<Action<f64>>) -> Vec<WindowCommand> {
    let mut list = Vec::new();
    for action in actions {
        match action {
            Action::Command(command) => list.push(*command),
            other => panic!("not a command: {:?}", other),
        }
    }
    list
}

const GRAB: [WindowCommand; 2] =
    [WindowCommand::SetCursorVisible(false), WindowCommand::SetCursorGrab(true)];
const LOOSE: [WindowCommand; 2] =
    [WindowCommand::SetCursorVisible(true), WindowCommand::SetCursorGrab(false)];

#[test]
fn gate_starts_focused_and_wants_no_cursor() {
    let gate = FocusGate::new();
    assert!(gate.is_focused());
    assert!(!gate.is_grabbing_cursor());
}

#[test]
fn gate_lets_the_cursor_loose_when_focus_is_lost() {
    let mut gate = FocusGate::new();
    assert_eq!(gate.focus_lost(), LOOSE.to_vec());
    assert!(!gate.is_focused());
    assert_eq!(gate.focus_gained(), Vec::new());
    assert!(gate.is_focused());
}

#[test]
fn gate_remembers_a_grab_across_loss_of_focus() {
    let mut gate = FocusGate::new();
    assert_eq!(gate.apply(CursorGrabAction::Grab), GRAB.to_vec());
    assert!(gate.is_grabbing_cursor());
    assert_eq!(gate.focus_lost(), LOOSE.to_vec());
    assert!(gate.is_grabbing_cursor());
    assert_eq!(gate.focus_gained(), GRAB.to_vec());
    assert_eq!(gate.apply(CursorGrabAction::Unchanged), Vec::new());
    assert!(gate.is_grabbing_cursor());
    assert_eq!(gate.apply(CursorGrabAction::Loose), LOOSE.to_vec());
    assert!(!gate.is_grabbing_cursor());
    assert_eq!(gate.focus_lost(), LOOSE.to_vec());
    assert_eq!(gate.focus_gained(), Vec::new());
}

#[test]
fn a_running_loop_runs_a_frame_on_redraw() {
    let mut input = Input::<f64>::new();
    let mut frame_loop = FrameLoop::new();
    assert_eq!(frame_loop.phase(), Phase::Running);
    assert!(frame_loop.is_focused());
    let actions = frame_loop.handle(&mut input, LoopEvent::RedrawRequested);
    assert_eq!(actions.len(), 1);
    assert!(matches!(actions[0], Action::RunFrame));
    assert_eq!(frame_loop.phase(), Phase::Running);
}

#[test]
fn grab_request_is_carried_out_once() {
    let mut input = Input::<f64>::new();
    let mut frame_loop = FrameLoop::new();
    frame_loop.handle(&mut input, LoopEvent::RedrawRequested);
    input.grab_cursor(true);
    let actions = frame_loop.handle(&mut input, LoopEvent::FrameDone);
    assert_eq!(commands(&actions), GRAB.to_vec());
    assert_eq!(input.cursor_action(), CursorGrabAction::Unchanged);
    frame_loop.handle(&mut input, LoopEvent::RedrawRequested);
    assert_eq!(input.cursor_action(), CursorGrabAction::Unchanged);
    let actions = frame_loop.handle(&mut input, LoopEvent::FrameDone);
    assert!(actions.is_empty());
}

#[test]
fn loose_request_is_carried_out_once() {
    let mut input = Input::<f64>::new();
    let mut frame_loop = FrameLoop::new();
    input.grab_cursor(false);
    let actions = frame_loop.handle(&mut input, LoopEvent::FrameDone);
    assert_eq!(commands(&actions), LOOSE.to_vec());
    let actions = frame_loop.handle(&mut input, LoopEvent::FrameDone);
    assert!(actions.is_empty());
}

#[test]
fn frame_done_steps_the_input() {
    let mut input = Input::<f64>::new();
    let mut frame_loop = FrameLoop::new();
    frame_loop.handle(
        &mut input,
        LoopEvent::Device(DeviceEvent::MouseMotion { motion: (1.0, 2.0) }),
    );
    frame_loop.handle(
        &mut input,
        LoopEvent::Window(WindowEvent::KeyboardInput {
            scancode: 4,
            state: ElementState::Pressed,
            virtual_keycode: None,
        }),
    );
    assert!(input.key_pressed(4u32));
    assert_eq!(input.mouse_motion().len(), 1);
    frame_loop.handle(&mut input, LoopEvent::FrameDone);
    assert!(!input.key_pressed(4u32));
    assert!(input.key_held(4u32));
    assert!(input.mouse_motion().is_empty());
}

#[test]
fn focus_loss_frees_the_cursor_and_focus_gain_grabs_it_again() {
    let mut input = Input::<f64>::new();
    let mut frame_loop = FrameLoop::new();
    input.grab_cursor(true);
    frame_loop.handle(&mut input, LoopEvent::FrameDone);
    let actions = frame_loop.handle(&mut input, LoopEvent::Window(WindowEvent::Focused(false)));
    assert_eq!(commands(&actions), LOOSE.to_vec());
    assert!(!frame_loop.is_focused());
    let actions = frame_loop.handle(&mut input, LoopEvent::Window(WindowEvent::Focused(true)));
    assert_eq!(commands(&actions), GRAB.to_vec());
    assert!(frame_loop.is_focused());
}

#[test]
fn focus_gain_without_a_grab_issues_nothing() {
    let mut input = Input::<f64>::new();
    let mut frame_loop = FrameLoop::new();
    let actions = frame_loop.handle(&mut input, LoopEvent::Window(WindowEvent::Focused(false)));
    assert_eq!(commands(&actions), LOOSE.to_vec());
    let actions = frame_loop.handle(&mut input, LoopEvent::Window(WindowEvent::Focused(true)));
    assert!(actions.is_empty());
}

#[test]
fn device_events_are_gated_by_focus() {
    let mut input = Input::<f64>::new();
    let mut frame_loop = FrameLoop::new();
    let motion = DeviceEvent::MouseMotion { motion: (1.0, 2.0) };
    let actions = frame_loop.handle(&mut input, LoopEvent::Device(motion));
    assert_eq!(actions.len(), 1);
    assert!(matches!(
        actions[0],
        Action::Notify(InputEvent::MouseMotion((x, y))) if x == 1.0 && y == 2.0
    ));
    assert_eq!(input.mouse_motion(), &vec![(1.0, 2.0)]);
    frame_loop.handle(&mut input, LoopEvent::Window(WindowEvent::Focused(false)));
    let actions = frame_loop.handle(&mut input, LoopEvent::Device(motion));
    assert!(actions.is_empty());
    assert_eq!(input.mouse_motion(), &vec![(1.0, 2.0)]);
    frame_loop.handle(&mut input, LoopEvent::Window(WindowEvent::Focused(true)));
    frame_loop.handle(&mut input, LoopEvent::Device(motion));
    assert_eq!(input.mouse_motion(), &vec![(1.0, 2.0), (1.0, 2.0)]);
}

#[test]
fn window_events_reach_the_input_and_the_simulation() {
    let mut input = Input::<f64>::new();
    let mut frame_loop = FrameLoop::new();
    let actions =
        frame_loop.handle(&mut input, LoopEvent::Window(WindowEvent::ReceivedCharacter('z')));
    assert_eq!(actions.len(), 1);
    assert!(matches!(actions[0], Action::Notify(InputEvent::Character('z'))));
    assert_eq!(input.get_characters(), "z");
    let actions = frame_loop
        .handle(&mut input, LoopEvent::Window(WindowEvent::Resized { width: 3, height: 4 }));
    assert!(actions.is_empty());
    assert_eq!(input.resized(), Some((3, 4)));
}

#[test]
fn close_request_ends_the_frames() {
    let mut input = Input::<f64>::new();
    let mut frame_loop = FrameLoop::new();
    let actions = frame_loop.handle(&mut input, LoopEvent::Window(WindowEvent::CloseRequested));
    assert_eq!(actions.len(), 1);
    assert!(matches!(actions[0], Action::Exit));
    assert_eq!(frame_loop.phase(), Phase::Terminating);
    let actions = frame_loop.handle(&mut input, LoopEvent::RedrawRequested);
    assert_eq!(actions.len(), 1);
    assert!(matches!(actions[0], Action::Exit));
    let actions = frame_loop.handle(&mut input, LoopEvent::RedrawEventsCleared);
    assert_eq!(commands(&actions), vec![WindowCommand::RequestRedraw]);
    let actions = frame_loop.handle(&mut input, LoopEvent::RedrawRequested);
    assert!(!actions.iter().any(|action| matches!(action, Action::RunFrame)));
    let actions = frame_loop.handle(&mut input, LoopEvent::LoopDestroyed);
    assert_eq!(actions.len(), 1);
    assert!(matches!(actions[0], Action::Close));
    assert_eq!(frame_loop.phase(), Phase::Terminated);
    let actions = frame_loop.handle(&mut input, LoopEvent::LoopDestroyed);
    assert!(actions.is_empty());
    let actions = frame_loop.handle(&mut input, LoopEvent::RedrawRequested);
    assert!(actions.is_empty());
    assert_eq!(frame_loop.phase(), Phase::Terminated);
}

#[test]
fn quit_is_seen_at_the_next_redraw() {
    let mut input = Input::<f64>::new();
    let mut frame_loop = FrameLoop::new();
    frame_loop.handle(&mut input, LoopEvent::RedrawRequested);
    input.quit();
    let actions = frame_loop.handle(&mut input, LoopEvent::FrameDone);
    assert!(actions.is_empty());
    assert_eq!(frame_loop.phase(), Phase::Running);
    let actions = frame_loop.handle(&mut input, LoopEvent::RedrawRequested);
    assert_eq!(actions.len(), 1);
    assert!(matches!(actions[0], Action::Exit));
    assert_eq!(frame_loop.phase(), Phase::Terminating);
}

#[test]
fn quit_is_seen_at_the_next_window_event_too() {
    let mut input = Input::<f64>::new();
    let mut frame_loop = FrameLoop::new();
    input.quit();
    let actions =
        frame_loop.handle(&mut input, LoopEvent::Window(WindowEvent::ReceivedCharacter('a')));
    assert_eq!(actions.len(), 2);
    assert!(matches!(actions[0], Action::Exit));
    assert!(matches!(actions[1], Action::Notify(InputEvent::Character('a'))));
    assert_eq!(frame_loop.phase(), Phase::Terminating);
}

#[test]
fn redraws_are_asked_for_without_end() {
    let mut input = Input::<f64>::new();
    let mut frame_loop = FrameLoop::new();
    let actions = frame_loop.handle(&mut input, LoopEvent::RedrawEventsCleared);
    assert_eq!(commands(&actions), vec![WindowCommand::RequestRedraw]);
    let actions = frame_loop.handle(&mut input, LoopEvent::Other);
    assert!(actions.is_empty());
    assert_eq!(frame_loop.phase(), Phase::Running);
}

#[test]
fn a_loop_destroyed_while_running_closes_once() {
    let mut input = Input::<f64>::new();
    let mut frame_loop = FrameLoop::new();
    let actions = frame_loop.handle(&mut input, LoopEvent::LoopDestroyed);
    assert_eq!(actions.len(), 1);
    assert!(matches!(actions[0], Action::Close));
    let actions = frame_loop.handle(&mut input, LoopEvent::Window(WindowEvent::CloseRequested));
    assert!(actions.is_empty());
    let actions = frame_loop.handle(&mut input, LoopEvent::FrameDone);
    assert!(actions.is_empty());
}
