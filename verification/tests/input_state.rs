use frame_input::event::{DeviceEvent, MouseScrollDelta, WindowEvent};
use frame_input::identity::ElementState;
use frame_input::input::{
    CursorGrabAction, Input, Key, MouseButton, ScanCode, VirtualKeyCode, WindowWheel,
};

fn key(scancode: ScanCode, state: ElementState, code: Option<u32>) -> WindowEvent<f64> {
    WindowEvent::KeyboardInput { scancode, state, virtual_keycode: code.map(VirtualKeyCode) }
}

fn button(button: MouseButton, state: ElementState) -> WindowEvent<f64> {
    WindowEvent::MouseInput { state, button }
}

#[test]
fn new_input_is_empty() {
    let mut input = Input::<f64>::new();
    assert!(!input.key_held(30u32));
    assert!(!input.key_pressed(VirtualKeyCode(10)));
    assert!(!input.key_released(VirtualKeyCode(10)));
    assert!(!input.button_held(MouseButton::Left));
    assert!(input.mouse_motion().is_empty());
    assert!(input.mouse_wheel().is_empty());
    assert_eq!(input.cursor_position(), None);
    assert_eq!(input.resized(), None);
    assert!(!input.will_quit());
    assert_eq!(input.cursor_action(), CursorGrabAction::Unchanged);
    assert_eq!(input.get_characters(), "");
}

#[test]
fn default_is_new() {
    let mut input: Input<f64> = Default::default();
    assert!(!input.will_quit());
    assert!(input.mouse_motion().is_empty());
    assert_eq!(input.get_characters(), "");
    assert_eq!(input.cursor_action(), CursorGrabAction::Unchanged);
}

#[test]
fn press_twice_hold_then_release_over_three_frames() {
    let mut input = Input::<f64>::new();
    let k = VirtualKeyCode(42);
    assert!(input.process_window_event(&key(17, ElementState::Pressed, Some(42))));
    assert!(input.process_window_event(&key(17, ElementState::Pressed, Some(42))));
    assert!(input.key_pressed(k));
    assert!(input.key_held(k));
    assert!(input.key_pressed(17u32));
    assert!(input.key_held(17u32));
    input.step();
    assert!(!input.key_pressed(k));
    assert!(input.key_held(k));
    assert!(!input.key_pressed(17u32));
    assert!(input.key_held(17u32));
    input.step();
    assert!(input.process_window_event(&key(17, ElementState::Released, Some(42))));
    assert!(input.key_released(k));
    assert!(!input.key_held(k));
    assert!(input.key_released(17u32));
    assert!(!input.key_held(17u32));
}

#[test]
fn keys_can_be_named_as_key_values() {
    let mut input = Input::<f64>::new();
    input.process_window_event(&key(17, ElementState::Pressed, Some(42)));
    assert!(input.key_held(Key::ScanCode(17)));
    assert!(input.key_held(Key::Virtual(VirtualKeyCode(42))));
    assert!(input.key_pressed(Key::from(17u32)));
    assert!(input.key_pressed(Key::from(VirtualKeyCode(42))));
    assert!(!input.key_held(Key::ScanCode(42)));
    assert!(!input.key_held(Key::Virtual(VirtualKeyCode(17))));
    assert!(!input.key_released(Key::ScanCode(17)));
}

#[test]
fn the_two_namespaces_are_tracked_apart() {
    let mut input = Input::<f64>::new();
    input.process_window_event(&key(5, ElementState::Pressed, None));
    assert!(input.key_held(5u32));
    assert!(!input.key_held(VirtualKeyCode(5)));
    input.process_window_event(&key(6, ElementState::Pressed, Some(5)));
    assert!(input.key_held(VirtualKeyCode(5)));
    input.step();
    input.process_window_event(&key(5, ElementState::Released, Some(5)));
    assert!(input.key_released(5u32));
    assert!(input.key_released(VirtualKeyCode(5)));
    assert!(input.key_held(6u32));
    assert!(!input.key_released(6u32));
}

#[test]
fn a_key_no_event_names_is_left_alone() {
    let mut input = Input::<f64>::new();
    input.process_window_event(&key(1, ElementState::Pressed, Some(100)));
    input.step();
    input.process_window_event(&key(2, ElementState::Pressed, Some(200)));
    input.process_window_event(&key(2, ElementState::Released, Some(200)));
    input.process_window_event(&button(MouseButton::Left, ElementState::Pressed));
    input.process_device_event(DeviceEvent::MouseMotion { motion: (1.0, 1.0) }, true);
    assert!(input.key_held(1u32));
    assert!(!input.key_pressed(1u32));
    assert!(!input.key_released(1u32));
    assert!(input.key_held(VirtualKeyCode(100)));
    assert!(!input.key_pressed(VirtualKeyCode(100)));
    assert!(!input.key_released(VirtualKeyCode(100)));
    assert!(!input.key_held(3u32));
    assert!(!input.button_held(MouseButton::Right));
    assert!(!input.button_pressed(MouseButton::Right));
}

#[test]
fn mouse_buttons_follow_the_same_rule() {
    let mut input = Input::<f64>::new();
    input.process_window_event(&button(MouseButton::Left, ElementState::Pressed));
    input.process_window_event(&button(MouseButton::Left, ElementState::Pressed));
    assert!(input.button_pressed(MouseButton::Left));
    assert!(input.button_held(MouseButton::Left));
    assert!(!input.button_released(MouseButton::Left));
    input.step();
    assert!(!input.button_pressed(MouseButton::Left));
    assert!(input.button_held(MouseButton::Left));
    input.process_window_event(&button(MouseButton::Left, ElementState::Released));
    assert!(input.button_released(MouseButton::Left));
    assert!(!input.button_held(MouseButton::Left));
    input.process_window_event(&button(MouseButton::Other(4), ElementState::Released));
    assert!(!input.button_released(MouseButton::Other(4)));
}

#[test]
fn step_twice_changes_nothing_more() {
    let mut input = Input::<f64>::new();
    input.process_window_event(&key(9, ElementState::Pressed, Some(90)));
    input.process_window_event(&button(MouseButton::Middle, ElementState::Pressed));
    input.process_window_event(&WindowEvent::Resized { width: 10, height: 20 });
    input.process_device_event(DeviceEvent::MouseMotion { motion: (3.0, 4.0) }, true);
    input.process_device_event(
        DeviceEvent::MouseWheel { delta: MouseScrollDelta::LineDelta(0.0, 1.0) },
        true,
    );
    input.grab_cursor(true);
    input.step();
    input.step();
    assert!(input.key_held(9u32));
    assert!(input.key_held(VirtualKeyCode(90)));
    assert!(input.button_held(MouseButton::Middle));
    assert!(!input.key_pressed(9u32));
    assert!(!input.button_pressed(MouseButton::Middle));
    assert!(input.mouse_motion().is_empty());
    assert!(input.mouse_wheel().is_empty());
    assert_eq!(input.resized(), None);
    assert_eq!(input.cursor_action(), CursorGrabAction::Unchanged);
}

#[test]
fn motion_piles_up_within_a_frame_and_is_gone_after_it() {
    let mut input = Input::<f64>::new();
    input.process_device_event(DeviceEvent::MouseMotion { motion: (1.5, -2.0) }, true);
    input.process_device_event(DeviceEvent::MouseMotion { motion: (0.25, 4.0) }, true);
    assert_eq!(input.mouse_motion(), &vec![(1.5, -2.0), (0.25, 4.0)]);
    input.step();
    assert!(input.mouse_motion().is_empty());
    input.process_device_event(DeviceEvent::MouseMotion { motion: (7.0, 8.0) }, true);
    assert_eq!(input.mouse_motion(), &vec![(7.0, 8.0)]);
}

#[test]
fn device_events_without_focus_are_dropped() {
    let mut input = Input::<f64>::new();
    input.process_device_event(DeviceEvent::MouseMotion { motion: (1.0, 2.0) }, true);
    input.process_device_event(DeviceEvent::MouseMotion { motion: (5.0, 5.0) }, false);
    input.process_device_event(
        DeviceEvent::MouseWheel { delta: MouseScrollDelta::LineDelta(0.0, 3.0) },
        false,
    );
    input.process_device_event(
        DeviceEvent::MouseWheel { delta: MouseScrollDelta::PixelDelta(0.0, 3.0) },
        false,
    );
    assert_eq!(input.mouse_motion(), &vec![(1.0, 2.0)]);
    assert!(input.mouse_wheel().is_empty());
}

#[test]
fn device_wheel_counts_lines_and_pixels() {
    let mut input = Input::<f64>::new();
    input.process_device_event(
        DeviceEvent::MouseWheel { delta: MouseScrollDelta::LineDelta(9.0, 1.0) },
        true,
    );
    input.process_device_event(
        DeviceEvent::MouseWheel { delta: MouseScrollDelta::PixelDelta(9.0, 2.5) },
        true,
    );
    assert_eq!(input.mouse_wheel(), &vec![1.0, 2.5]);
    assert!(input.mouse_motion().is_empty());
}

#[test]
fn window_wheel_counts_pixels_only() {
    let mut input = Input::<f64>::new();
    input.process_window_event(&WindowEvent::MouseWheel {
        delta: MouseScrollDelta::LineDelta(0.0, 1.0),
    });
    assert!(input.mouse_wheel().is_empty());
    input.process_window_event(&WindowEvent::MouseWheel {
        delta: MouseScrollDelta::PixelDelta(4.0, -6.0),
    });
    assert_eq!(input.mouse_wheel(), &vec![-6.0]);
}

#[test]
fn window_wheel_counts_lines_where_it_is_told_to() {
    let mut input = Input::<f64>::with_window_wheel(WindowWheel::LinesAndPixels);
    assert_eq!(input.window_wheel(), WindowWheel::LinesAndPixels);
    input.process_window_event(&WindowEvent::MouseWheel {
        delta: MouseScrollDelta::LineDelta(0.0, 1.0),
    });
    input.process_window_event(&WindowEvent::MouseWheel {
        delta: MouseScrollDelta::PixelDelta(4.0, -6.0),
    });
    assert_eq!(input.mouse_wheel(), &vec![1.0, -6.0]);
    input.step();
    assert!(input.mouse_wheel().is_empty());
    assert_eq!(input.window_wheel(), WindowWheel::LinesAndPixels);
}

#[test]
fn pixels_only_is_the_usual_policy() {
    assert_eq!(Input::<f64>::new().window_wheel(), WindowWheel::PixelsOnly);
    let input: Input<f64> = Default::default();
    assert_eq!(input.window_wheel(), WindowWheel::PixelsOnly);
    let input = Input::<f64>::with_window_wheel(WindowWheel::PixelsOnly);
    assert_eq!(input.window_wheel(), WindowWheel::PixelsOnly);
}

#[test]
fn other_device_events_change_nothing() {
    let mut input = Input::<f64>::new();
    input.process_device_event(DeviceEvent::Other, true);
    assert!(input.mouse_motion().is_empty());
    assert!(input.mouse_wheel().is_empty());
}

#[test]
fn cursor_position_is_overwritten_and_outlives_the_frame() {
    let mut input = Input::<f64>::new();
    input.process_window_event(&WindowEvent::CursorMoved { x: 10.0, y: 20.0 });
    input.process_window_event(&WindowEvent::CursorMoved { x: 11.0, y: 21.0 });
    assert_eq!(input.cursor_position(), Some((11.0, 21.0)));
    input.step();
    assert_eq!(input.cursor_position(), Some((11.0, 21.0)));
}

#[test]
fn resize_is_noticed_for_one_frame() {
    let mut input = Input::<f64>::new();
    assert!(input.process_window_event(&WindowEvent::Resized { width: 800, height: 600 }));
    assert_eq!(input.resized(), Some((800, 600)));
    input.process_window_event(&WindowEvent::Resized { width: 1024, height: 768 });
    assert_eq!(input.resized(), Some((1024, 768)));
    input.step();
    assert_eq!(input.resized(), None);
}

#[test]
fn huge_sizes_wrap_around() {
    let mut input = Input::<f64>::new();
    input.process_window_event(&WindowEvent::Resized { width: 2147483647, height: 2147483648 });
    assert_eq!(input.resized(), Some((2147483647, -2147483648)));
    input.process_window_event(&WindowEvent::Resized { width: 4294967295, height: 0 });
    assert_eq!(input.resized(), Some((-1, 0)));
}

#[test]
fn text_piles_up_until_it_is_taken() {
    let mut input = Input::<f64>::new();
    input.process_window_event(&WindowEvent::ReceivedCharacter('h'));
    input.process_window_event(&WindowEvent::ReceivedCharacter('i'));
    input.step();
    input.process_window_event(&WindowEvent::ReceivedCharacter('!'));
    assert_eq!(input.get_characters(), "hi!");
    assert_eq!(input.get_characters(), "");
    input.process_window_event(&WindowEvent::ReceivedCharacter('ß'));
    assert_eq!(input.get_characters(), "ß");
}

#[test]
fn close_request_says_stop_and_changes_nothing() {
    let mut input = Input::<f64>::new();
    input.process_window_event(&WindowEvent::ReceivedCharacter('a'));
    assert!(!input.process_window_event(&WindowEvent::CloseRequested));
    assert!(!input.will_quit());
    assert_eq!(input.get_characters(), "a");
}

#[test]
fn quit_is_for_good_and_stops_the_loop_at_the_next_window_event() {
    let mut input = Input::<f64>::new();
    assert!(input.process_window_event(&WindowEvent::Other));
    input.quit();
    assert!(input.will_quit());
    input.step();
    assert!(input.will_quit());
    assert!(!input.process_window_event(&WindowEvent::Other));
    assert!(!input.process_window_event(&key(1, ElementState::Pressed, None)));
    assert!(input.key_held(1u32));
}

#[test]
fn focus_events_and_others_leave_the_input_alone() {
    let mut input = Input::<f64>::new();
    assert!(input.process_window_event(&WindowEvent::Focused(false)));
    assert!(input.process_window_event(&WindowEvent::Focused(true)));
    assert!(input.process_window_event(&WindowEvent::Other));
    assert!(input.mouse_motion().is_empty());
    assert_eq!(input.resized(), None);
    assert_eq!(input.cursor_position(), None);
    assert_eq!(input.get_characters(), "");
}

#[test]
fn cursor_request_lasts_one_frame() {
    let mut input = Input::<f64>::new();
    input.grab_cursor(true);
    assert_eq!(input.cursor_action(), CursorGrabAction::Grab);
    input.grab_cursor(false);
    assert_eq!(input.cursor_action(), CursorGrabAction::Loose);
    input.step();
    assert_eq!(input.cursor_action(), CursorGrabAction::Unchanged);
}

#[test]
fn clone_copies_the_whole_state() {
    let mut input = Input::<f64>::new();
    input.process_window_event(&key(3, ElementState::Pressed, Some(33)));
    input.process_window_event(&WindowEvent::ReceivedCharacter('x'));
    input.process_device_event(DeviceEvent::MouseMotion { motion: (1.0, 2.0) }, true);
    input.grab_cursor(true);
    let mut copy = input.clone();
    assert!(copy.key_held(3u32));
    assert!(copy.key_pressed(VirtualKeyCode(33)));
    assert_eq!(copy.mouse_motion(), &vec![(1.0, 2.0)]);
    assert_eq!(copy.cursor_action(), CursorGrabAction::Grab);
    assert_eq!(copy.get_characters(), "x");
    assert_eq!(input.get_characters(), "x");
}
