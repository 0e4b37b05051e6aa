//! The raw events a windowing system delivers, reduced to what input
//! tracking reads from them.
//!
//! `D` is the type of a pointer measurement (a distance or a coordinate).
//! Measurements are carried through untouched and never computed with.

use crate::identity::{ElementState, MouseButton, ScanCode, VirtualKeyCode};
use vstd::prelude::*;

verus! {

/// How far a wheel was turned.
#[derive(Debug)]
pub enum MouseScrollDelta<D> {
    /// Horizontal and vertical amount in lines or rows.
    LineDelta(D, D),
    /// Horizontal and vertical amount in pixels.
    PixelDelta(D, D),
}

impl<D> MouseScrollDelta<D> {
    /// The vertical amount, whatever the unit.
    pub open spec fn vertical(self) -> D {
        match self {
            MouseScrollDelta::LineDelta(_, y) => y,
            MouseScrollDelta::PixelDelta(_, y) => y,
        }
    }
}

/// An event addressed to the window.
#[derive(Debug)]
pub enum WindowEvent<D> {
    /// The window has this size now, in pixels.
    Resized { width: u32, height: u32 },
    /// The user asked to close the window.
    CloseRequested,
    /// The window received a character of text.
    ReceivedCharacter(char),
    /// The window gained (`true`) or lost (`false`) the focus.
    Focused(bool),
    /// A key went down or came up. Not every key has a virtual code.
    KeyboardInput {
        scancode: ScanCode,
        state: ElementState,
        virtual_keycode: Option<VirtualKeyCode>,
    },
    /// The cursor is at this position now.
    CursorMoved { x: D, y: D },
    /// A wheel was turned over the window.
    MouseWheel { delta: MouseScrollDelta<D> },
    /// A mouse button went down or came up.
    MouseInput { state: ElementState, button: MouseButton },
    /// Anything else: the window moved or was destroyed, a file hovers or was
    /// dropped, the modifiers, the scale factor or the theme changed, the
    /// cursor entered or left, a touch or an axis moved.
    Other,
}

/// An event that comes from a device, whichever window has the focus.
#[derive(Debug)]
pub enum DeviceEvent<D> {
    /// The mouse moved by this much, horizontally and vertically.
    MouseMotion { motion: (D, D) },
    /// A wheel was turned.
    MouseWheel { delta: MouseScrollDelta<D> },
    /// Anything else: a device came or went, an axis moved, a button, a key
    /// or text arrived.
    Other,
}

impl<D: Copy> Clone for MouseScrollDelta<D> {
    fn clone(&self) -> (copy: Self)
        ensures
            copy == *self,
    {
        *self
    }
}

impl<D: Copy> Copy for MouseScrollDelta<D> {

}

impl<D: Copy> Clone for WindowEvent<D> {
    fn clone(&self) -> (copy: Self)
        ensures
            copy == *self,
    {
        *self
    }
}

impl<D: Copy> Copy for WindowEvent<D> {

}

impl<D: Copy> Clone for DeviceEvent<D> {
    fn clone(&self) -> (copy: Self)
        ensures
            copy == *self,
    {
        *self
    }
}

impl<D: Copy> Copy for DeviceEvent<D> {

}

} // verus!
