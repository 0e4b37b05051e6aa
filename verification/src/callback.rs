//! What a simulation is told of each raw event the moment it arrives.

use crate::event::{DeviceEvent, MouseScrollDelta, WindowEvent};
use crate::identity::{MouseButton, VirtualKeyCode};
use vstd::prelude::*;

verus! {

/// An input event in the form handed to the simulation.
#[derive(Debug)]
pub enum InputEvent<D> {
    /// The mouse moved by this much, horizontally and vertically.
    MouseMotion((D, D)),
    /// The button with this number went down (`true`) or came up.
    MouseButton((u32, bool)),
    /// A wheel was turned by this many pixels, horizontally and vertically.
    MouseWheel((D, D)),
    /// A character of text arrived.
    Character(char),
    /// The key with this scan code went down (`true`) or came up; its virtual
    /// code, if it has one.
    Key((u32, bool, Option<VirtualKeyCode>)),
}

impl<D: Copy> Clone for InputEvent<D> {
    fn clone(&self) -> (copy: Self)
        ensures
            copy == *self,
    {
        *self
    }
}

impl<D: Copy> Copy for InputEvent<D> {

}

/// The number by which a simulation knows a mouse button: 0 for the left
/// one, 1 for the right one, 2 for the middle one, and for any other the
/// number the device reports, unchanged.
pub open spec fn button_number(button: MouseButton) -> u32 {
    match button {
        MouseButton::Left => 0u32,
        MouseButton::Right => 1u32,
        MouseButton::Middle => 2u32,
        MouseButton::Other(n) => n as u32,
    }
}

/// What the simulation is told of the device event `event`: of a motion of
/// the mouse its amounts, of anything else nothing.
pub open spec fn device_input<D>(event: DeviceEvent<D>) -> Option<InputEvent<D>> {
    match event {
        DeviceEvent::MouseMotion { motion } => Some(InputEvent::MouseMotion(motion)),
        _ => None,
    }
}

/// What the simulation is told of the window event `event`.
///
/// Text, keys, mouse buttons and wheel movements measured in pixels are
/// passed on; wheel movements measured in lines and all other events are not.
pub open spec fn window_input<D>(event: WindowEvent<D>) -> Option<InputEvent<D>> {
    match event {
        WindowEvent::ReceivedCharacter(character) => Some(InputEvent::Character(character)),
        WindowEvent::KeyboardInput { scancode, state, virtual_keycode } => Some(
            InputEvent::Key((scancode, state.down(), virtual_keycode)),
        ),
        WindowEvent::MouseWheel { delta: MouseScrollDelta::PixelDelta(x, y) } => Some(
            InputEvent::MouseWheel((x, y)),
        ),
        WindowEvent::MouseInput { state, button } => Some(
            InputEvent::MouseButton((button_number(button), state.down())),
        ),
        _ => None,
    }
}

/// Computes the number by which a simulation knows `button`.
pub fn mouse_button_number(button: MouseButton) -> (number: u32)
    ensures
        number == button_number(button),
{
    match button {
        MouseButton::Left => 0,
        MouseButton::Right => 1,
        MouseButton::Middle => 2,
        MouseButton::Other(n) => n as u32,
    }
}

/// Puts a device event into the form handed to the simulation, if it is to
/// hear of it at all.
pub fn process_device_event<D: Copy>(event: &DeviceEvent<D>) -> (input: Option<InputEvent<D>>)
    ensures
        input == device_input(*event),
{
    match event {
        DeviceEvent::MouseMotion { motion } => Some(InputEvent::MouseMotion(*motion)),
        DeviceEvent::MouseWheel { .. } => None,
        DeviceEvent::Other => None,
    }
}

/// Puts a window event into the form handed to the simulation, if it is to
/// hear of it at all.
pub fn process_window_event<D: Copy>(event: WindowEvent<D>) -> (input: Option<InputEvent<D>>)
    ensures
        input == window_input(event),
{
    match event {
        WindowEvent::Resized { .. } => None,
        WindowEvent::CloseRequested => None,
        WindowEvent::ReceivedCharacter(character) => Some(InputEvent::Character(character)),
        WindowEvent::Focused(_) => None,
        WindowEvent::KeyboardInput { scancode, state, virtual_keycode } => Some(
            InputEvent::Key((scancode, state.is_down(), virtual_keycode)),
        ),
        WindowEvent::CursorMoved { .. } => None,
        WindowEvent::MouseWheel { delta } => match delta {
            MouseScrollDelta::LineDelta(_, _) => None,
            MouseScrollDelta::PixelDelta(x, y) => Some(InputEvent::MouseWheel((x, y))),
        },
        WindowEvent::MouseInput { state, button } => Some(
            InputEvent::MouseButton((mouse_button_number(button), state.is_down())),
        ),
        WindowEvent::Other => None,
    }
}

} // verus!
