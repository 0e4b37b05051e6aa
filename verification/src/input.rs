//! The input state of one frame: which keys and buttons are down, which
//! went down or came up since the frame began, what the pointer did, and
//! what the simulation asked for.

use crate::button_state::{copy_list, ButtonState, Buttons};
use crate::event::{DeviceEvent, MouseScrollDelta, WindowEvent};
pub use crate::identity::{Key, MouseButton, ScanCode, VirtualKeyCode};
use vstd::prelude::*;
use vstd::std_specs::convert::IntoSpec;

verus! {

/// What the simulation asked to be done with the cursor during the current frame.
#[derive(Copy, Clone, Debug, PartialEq, Eq, Structural)]
pub enum CursorGrabAction {
    /// Nothing was asked for: the cursor stays as it is.
    Unchanged,
    /// Hide the cursor and confine it to the window.
    Grab,
    /// Show the cursor and let it leave the window.
    Loose,
}

/// Which of the wheel movements that the window reports count toward the
/// frame. Those that a device reports always count, in lines and in pixels.
#[derive(Copy, Clone, Debug, PartialEq, Eq, Structural)]
pub enum WindowWheel {
    /// Only movements measured in pixels count. This is what `Input::new`
    /// chooses.
    PixelsOnly,
    /// Movements measured in lines count as well.
    LinesAndPixels,
}

impl WindowWheel {
    /// The policy lets the movement `delta`, reported by the window, count.
    pub open spec fn counts<D>(self, delta: MouseScrollDelta<D>) -> bool {
        delta is PixelDelta || self is LinesAndPixels
    }
}

/// The size a `Resized` event reports, as a signed number: sizes of 2^31
/// pixels and more wrap around to negative numbers.
pub open spec fn signed_size(pixels: u32) -> i32 {
    if pixels <= i32::MAX {
        pixels as i32
    } else {
        (pixels - 0x1_0000_0000) as i32
    }
}

/// Computes `signed_size`.
fn to_signed_size(pixels: u32) -> (size: i32)
    ensures
        size == signed_size(pixels),
{
    let size: i32 = pixels as i32;
    assert(size == signed_size(pixels)) by (bit_vector)
        requires
            size == pixels as i32,
    ;
    size
}

/// The input state as a mathematical value.
#[verifier::ext_equal]
pub struct InputView<D> {
    /// The keys by scan code.
    pub keys: Buttons<ScanCode>,
    /// The keys by virtual code.
    pub code_keys: Buttons<VirtualKeyCode>,
    /// The mouse buttons.
    pub mouse_buttons: Buttons<MouseButton>,
    /// The raw motions of the mouse during this frame, in order of arrival.
    pub mouse_motion: Seq<(D, D)>,
    /// Where the cursor was last seen, if it ever was.
    pub mouse_position: Option<(D, D)>,
    /// The vertical wheel movements of this frame, in order of arrival.
    pub mouse_wheel: Seq<D>,
    /// The size the window was given during this frame, if any.
    pub resized: Option<(i32, i32)>,
    /// Whether the simulation asked to quit.
    pub quit: bool,
    /// What the simulation asked to be done with the cursor.
    pub cursor_action: CursorGrabAction,
    /// The text received and not yet taken.
    pub characters: Seq<char>,
    /// Which wheel movements reported by the window count.
    pub window_wheel: WindowWheel,
}

impl<D> InputView<D> {
    /// The state before any event, with the usual policy for the wheel.
    pub open spec fn initial() -> Self {
        Self::initial_with(WindowWheel::PixelsOnly)
    }

    /// The state before any event, with the given policy for the wheel.
    pub open spec fn initial_with(window_wheel: WindowWheel) -> Self {
        InputView {
            keys: Buttons::empty(),
            code_keys: Buttons::empty(),
            mouse_buttons: Buttons::empty(),
            mouse_motion: Seq::empty(),
            mouse_position: None,
            mouse_wheel: Seq::empty(),
            resized: None,
            quit: false,
            cursor_action: CursorGrabAction::Unchanged,
            characters: Seq::empty(),
            window_wheel,
        }
    }

    /// No key and no button is listed twice as pressed or as released.
    pub open spec fn wf(self) -> bool {
        self.keys.wf() && self.code_keys.wf() && self.mouse_buttons.wf()
    }

    /// The key is down, going by the namespace it is named in.
    pub open spec fn key_held(self, key: Key) -> bool {
        match key {
            Key::Virtual(code) => self.code_keys.held(code),
            Key::ScanCode(code) => self.keys.held(code),
        }
    }

    /// The key went down during this frame.
    pub open spec fn key_pressed(self, key: Key) -> bool {
        match key {
            Key::Virtual(code) => self.code_keys.pressed.contains(code),
            Key::ScanCode(code) => self.keys.pressed.contains(code),
        }
    }

    /// The key came up during this frame.
    pub open spec fn key_released(self, key: Key) -> bool {
        match key {
            Key::Virtual(code) => self.code_keys.released.contains(code),
            Key::ScanCode(code) => self.keys.released.contains(code),
        }
    }

    /// Whether the loop may go on after the window event `event`: not after
    /// a request to close the window, and not once the simulation has asked
    /// to quit.
    pub open spec fn accepts(self, event: WindowEvent<D>) -> bool {
        !(event is CloseRequested) && !self.quit
    }

    /// The state after the window event `event`.
    ///
    /// A key event is recorded under its scan code and, where it has one,
    /// under its virtual code as well. Of a wheel movement the vertical part
    /// joins the frame's list if the policy lets it count. A request to close
    /// the window and a change of focus leave the state as it is.
    pub open spec fn window_event(self, event: WindowEvent<D>) -> Self {
        match event {
            WindowEvent::Resized { width, height } => InputView {
                resized: Some((signed_size(width), signed_size(height))),
                ..self
            },
            WindowEvent::ReceivedCharacter(character) => InputView {
                characters: self.characters.push(character),
                ..self
            },
            WindowEvent::KeyboardInput { scancode, state, virtual_keycode } => InputView {
                keys: self.keys.record(scancode, state.down()),
                code_keys: match virtual_keycode {
                    Some(code) => self.code_keys.record(code, state.down()),
                    None => self.code_keys,
                },
                ..self
            },
            WindowEvent::CursorMoved { x, y } => InputView { mouse_position: Some((x, y)), ..self },
            WindowEvent::MouseWheel { delta } => if self.window_wheel.counts(delta) {
                InputView { mouse_wheel: self.mouse_wheel.push(delta.vertical()), ..self }
            } else {
                self
            },
            WindowEvent::MouseInput { state, button } => InputView {
                mouse_buttons: self.mouse_buttons.record(button, state.down()),
                ..self
            },
            _ => self,
        }
    }

    /// The state after the device event `event`, delivered while the window
    /// had the focus (`is_focused`) or had not.
    ///
    /// Without the focus nothing changes. With it, a motion and the vertical
    /// part of a wheel movement, in lines or in pixels, join the frame's lists.
    pub open spec fn device_event(self, event: DeviceEvent<D>, is_focused: bool) -> Self {
        if !is_focused {
            self
        } else {
            match event {
                DeviceEvent::MouseMotion { motion } => InputView {
                    mouse_motion: self.mouse_motion.push(motion),
                    ..self
                },
                DeviceEvent::MouseWheel { delta } => InputView {
                    mouse_wheel: self.mouse_wheel.push(delta.vertical()),
                    ..self
                },
                DeviceEvent::Other => self,
            }
        }
    }

    /// The state at the start of the next frame.
    ///
    /// What belongs to one frame is gone: motions, wheel movements, the
    /// resize notice, the edges and the cursor request. What is down stays
    /// down, and the cursor position, the text and the wish to quit stay too.
    pub open spec fn step(self) -> Self {
        InputView {
            keys: self.keys.step(),
            code_keys: self.code_keys.step(),
            mouse_buttons: self.mouse_buttons.step(),
            mouse_motion: Seq::empty(),
            mouse_wheel: Seq::empty(),
            resized: None,
            cursor_action: CursorGrabAction::Unchanged,
            ..self
        }
    }
}

/// Taken on trust: `String::push` of the standard library appends `ch` to
/// the end of the string and leaves the rest of it as it was.
pub assume_specification[ String::push ](text: &mut String, ch: char)
    ensures
        final(text)@ == old(text)@.push(ch),
;

/// The input state of the running frame.
pub struct Input<D> {
    code_keys: ButtonState<VirtualKeyCode>,
    keys: ButtonState<ScanCode>,
    mouse_buttons: ButtonState<MouseButton>,
    mouse_motion: Vec<(D, D)>,
    mouse_position: Option<(D, D)>,
    mouse_wheel: Vec<D>,
    resized: Option<(i32, i32)>,
    quit: bool,
    cursor_action: CursorGrabAction,
    characters: String,
    window_wheel: WindowWheel,
}

impl<D> View for Input<D> {
    type V = InputView<D>;

    closed spec fn view(&self) -> InputView<D> {
        InputView {
            keys: self.keys@,
            code_keys: self.code_keys@,
            mouse_buttons: self.mouse_buttons@,
            mouse_motion: self.mouse_motion@,
            mouse_position: self.mouse_position,
            mouse_wheel: self.mouse_wheel@,
            resized: self.resized,
            quit: self.quit,
            cursor_action: self.cursor_action,
            characters: self.characters@,
            window_wheel: self.window_wheel,
        }
    }
}

impl<D: Copy> Input<D> {
    /// The state before any event: nothing down, nothing moved, no text.
    /// Of the wheel movements that the window reports only those in pixels
    /// will count.
    pub fn new() -> (input: Self)
        ensures
            input@ == InputView::<D>::initial(),
            input@.wf(),
    {
        Self::with_window_wheel(WindowWheel::PixelsOnly)
    }

    /// The state before any event, with a policy for the wheel movements that
    /// the window reports.
    pub fn with_window_wheel(window_wheel: WindowWheel) -> (input: Self)
        ensures
            input@ == InputView::<D>::initial_with(window_wheel),
            input@.wf(),
    {
        Input {
            keys: ButtonState::new(),
            code_keys: ButtonState::new(),
            mouse_buttons: ButtonState::new(),
            mouse_motion: Vec::new(),
            mouse_position: None,
            mouse_wheel: Vec::new(),
            resized: None,
            quit: false,
            cursor_action: CursorGrabAction::Unchanged,
            characters: String::new(),
            window_wheel,
        }
    }

    /// Ends the frame and begins the next.
    pub fn step(&mut self)
        ensures
            final(self)@ == old(self)@.step(),
            final(self)@.wf(),
    {
        self.mouse_motion.clear();
        self.mouse_wheel.clear();
        self.resized = None;
        self.keys.step();
        self.code_keys.step();
        self.mouse_buttons.step();
        self.cursor_action = CursorGrabAction::Unchanged;
    }

    /// Takes in a device event, which counts only while the window has the focus.
    pub fn process_device_event(&mut self, event: DeviceEvent<D>, is_focused: bool)
        ensures
            final(self)@ == old(self)@.device_event(event, is_focused),
    {
        match event {
            DeviceEvent::MouseMotion { motion } => {
                if is_focused {
                    self.mouse_motion.push(motion);
                }
            },
            DeviceEvent::MouseWheel { delta } => {
                if is_focused {
                    match delta {
                        MouseScrollDelta::LineDelta(_, y) => {
                            self.mouse_wheel.push(y);
                        },
                        MouseScrollDelta::PixelDelta(_, y) => {
                            self.mouse_wheel.push(y);
                        },
                    }
                }
            },
            DeviceEvent::Other => {},
        }
    }

    /// Takes in a window event and tells whether the loop may go on.
    pub fn process_window_event(&mut self, event: &WindowEvent<D>) -> (go_on: bool)
        ensures
            final(self)@ == old(self)@.window_event(*event),
            go_on == old(self)@.accepts(*event),
            old(self)@.wf() ==> final(self)@.wf(),
    {
        match event {
            WindowEvent::Resized { width, height } => {
                self.resized = Some((to_signed_size(*width), to_signed_size(*height)));
            },
            WindowEvent::CloseRequested => {
                return false;
            },
            WindowEvent::ReceivedCharacter(character) => {
                self.characters.push(*character);
            },
            WindowEvent::Focused(_) => {},
            WindowEvent::KeyboardInput { scancode, state, virtual_keycode } => {
                self.keys.record(*scancode, state.is_down());
                if let Some(code) = virtual_keycode {
                    self.code_keys.record(*code, state.is_down());
                }
            },
            WindowEvent::CursorMoved { x, y } => {
                self.mouse_position = Some((*x, *y));
            },
            WindowEvent::MouseWheel { delta } => {
                match delta {
                    MouseScrollDelta::PixelDelta(_, y) => {
                        self.mouse_wheel.push(*y);
                    },
                    MouseScrollDelta::LineDelta(_, y) => {
                        if let WindowWheel::LinesAndPixels = self.window_wheel {
                            self.mouse_wheel.push(*y);
                        }
                    },
                }
            },
            WindowEvent::MouseInput { state, button } => {
                self.mouse_buttons.record(*button, state.is_down());
            },
            WindowEvent::Other => {},
        }
        !self.quit
    }

    /// Tells whether the key is down. The key is `key` as a `Key`: for a
    /// scan code or a virtual code, the key of that code in its namespace.
    pub fn key_held<T: Into<Key>>(&self, key: T) -> (held: bool)
        ensures
            exists|named: Key| #[trigger]
                call_ensures(T::into, (key,), named) && held == self@.key_held(named),
            T::obeys_into_spec() ==> held == self@.key_held(key.into_spec()),
    {
        let key: Key = key.into();
        match key {
            Key::Virtual(code) => self.code_keys.held(code),
            Key::ScanCode(code) => self.keys.held(code),
        }
    }

    /// Tells whether the key went down during this frame.
    pub fn key_pressed<T: Into<Key>>(&self, key: T) -> (pressed: bool)
        ensures
            exists|named: Key| #[trigger]
                call_ensures(T::into, (key,), named) && pressed == self@.key_pressed(named),
            T::obeys_into_spec() ==> pressed == self@.key_pressed(key.into_spec()),
    {
        let key: Key = key.into();
        match key {
            Key::Virtual(code) => self.code_keys.pressed(code),
            Key::ScanCode(code) => self.keys.pressed(code),
        }
    }

    /// Tells whether the key came up during this frame.
    pub fn key_released<T: Into<Key>>(&self, key: T) -> (released: bool)
        ensures
            exists|named: Key| #[trigger]
                call_ensures(T::into, (key,), named) && released == self@.key_released(named),
            T::obeys_into_spec() ==> released == self@.key_released(key.into_spec()),
    {
        let key: Key = key.into();
        match key {
            Key::Virtual(code) => self.code_keys.released(code),
            Key::ScanCode(code) => self.keys.released(code),
        }
    }

    /// Tells whether the button went down during this frame.
    pub fn button_pressed(&self, button: MouseButton) -> (pressed: bool)
        ensures
            pressed == self@.mouse_buttons.pressed.contains(button),
    {
        self.mouse_buttons.pressed(button)
    }

    /// Tells whether the button came up during this frame.
    pub fn button_released(&self, button: MouseButton) -> (released: bool)
        ensures
            released == self@.mouse_buttons.released.contains(button),
    {
        self.mouse_buttons.released(button)
    }

    /// Tells whether the button is down.
    pub fn button_held(&self, button: MouseButton) -> (held: bool)
        ensures
            held == self@.mouse_buttons.held(button),
    {
        self.mouse_buttons.held(button)
    }

    /// The raw motions of the mouse during this frame, in order of arrival.
    /// Their sum is how far the mouse moved.
    pub fn mouse_motion(&self) -> (motion: &Vec<(D, D)>)
        ensures
            motion@ == self@.mouse_motion,
    {
        &self.mouse_motion
    }

    /// The vertical wheel movements of this frame, in order of arrival.
    /// Their sum is how far the wheel turned.
    pub fn mouse_wheel(&self) -> (wheel: &Vec<D>)
        ensures
            wheel@ == self@.mouse_wheel,
    {
        &self.mouse_wheel
    }

    /// Where the cursor was last seen, if it ever was.
    pub fn cursor_position(&self) -> (position: Option<(D, D)>)
        ensures
            position == self@.mouse_position,
    {
        self.mouse_position
    }

    /// The size the window was given during this frame, if any.
    pub fn resized(&self) -> (size: Option<(i32, i32)>)
        ensures
            size == self@.resized,
    {
        self.resized
    }

    /// Asks for the loop to end. The wish cannot be taken back.
    pub fn quit(&mut self)
        ensures
            final(self)@ == (InputView { quit: true, ..old(self)@ }),
    {
        self.quit = true
    }

    /// Hands out the text received so far and forgets it.
    pub fn get_characters(&mut self) -> (text: String)
        ensures
            text@ == old(self)@.characters,
            final(self)@ == (InputView { characters: Seq::empty(), ..old(self)@ }),
    {
        let mut text = String::new();
        std::mem::swap(&mut self.characters, &mut text);
        text
    }

    /// Asks for the cursor to be grabbed (`grab`) or let loose at the end of
    /// this frame.
    pub fn grab_cursor(&mut self, grab: bool)
        ensures
            final(self)@ == (InputView {
                cursor_action: if grab {
                    CursorGrabAction::Grab
                } else {
                    CursorGrabAction::Loose
                },
                ..old(self)@
            }),
    {
        self.cursor_action = if grab {
            CursorGrabAction::Grab
        } else {
            CursorGrabAction::Loose
        }
    }

    /// What the simulation asked to be done with the cursor during this frame.
    pub fn cursor_action(&self) -> (action: CursorGrabAction)
        ensures
            action == self@.cursor_action,
    {
        self.cursor_action
    }

    /// Which wheel movements reported by the window count.
    pub fn window_wheel(&self) -> (policy: WindowWheel)
        ensures
            policy == self@.window_wheel,
    {
        self.window_wheel
    }

    /// Tells whether the simulation asked to quit.
    pub fn will_quit(&self) -> (quit: bool)
        ensures
            quit == self@.quit,
    {
        self.quit
    }
}

impl<D: Copy> Default for Input<D> {
    fn default() -> (input: Self)
        ensures
            input@ == InputView::<D>::initial(),
    {
        Self::new()
    }
}

impl<D: Copy> Clone for Input<D> {
    fn clone(&self) -> (copy: Self)
        ensures
            copy@ == self@,
    {
        Input {
            code_keys: self.code_keys.clone(),
            keys: self.keys.clone(),
            mouse_buttons: self.mouse_buttons.clone(),
            mouse_motion: copy_list(&self.mouse_motion),
            mouse_position: self.mouse_position,
            mouse_wheel: copy_list(&self.mouse_wheel),
            resized: self.resized,
            quit: self.quit,
            cursor_action: self.cursor_action,
            characters: self.characters.clone(),
            window_wheel: self.window_wheel,
        }
    }
}

} // verus!
