//! The identities under which keys and mouse buttons are tracked.

use vstd::prelude::*;
use vstd::std_specs::convert::FromSpecImpl;

verus! {

/// A physical key position, independent of the keyboard layout.
pub type ScanCode = u32;

/// A logical key, named by the number the windowing system gives it.
#[derive(Copy, Clone, Debug, PartialEq, Eq, Hash, Structural)]
pub struct VirtualKeyCode(pub u32);

/// A mouse button.
#[derive(Copy, Clone, Debug, PartialEq, Eq, Hash, Structural)]
pub enum MouseButton {
    Left,
    Right,
    Middle,
    /// Any further button, by the number the device reports.
    Other(u16),
}

/// Whether a key or button went down or came up.
#[derive(Copy, Clone, Debug, PartialEq, Eq, Hash, Structural)]
pub enum ElementState {
    Pressed,
    Released,
}

impl ElementState {
    /// True for `Pressed`.
    pub open spec fn down(self) -> bool {
        self is Pressed
    }

    /// Tells whether the element went down.
    pub fn is_down(&self) -> (down: bool)
        ensures
            down == self.down(),
    {
        match self {
            ElementState::Pressed => true,
            ElementState::Released => false,
        }
    }
}

/// A key named in one of the two namespaces, which are tracked apart.
#[derive(Copy, Clone, Debug, PartialEq, Eq, Hash, Structural)]
pub enum Key {
    Virtual(VirtualKeyCode),
    ScanCode(ScanCode),
}

impl From<ScanCode> for Key {
    fn from(k: ScanCode) -> (key: Key) {
        Key::ScanCode(k)
    }
}

impl FromSpecImpl<ScanCode> for Key {
    open spec fn obeys_from_spec() -> bool {
        true
    }

    open spec fn from_spec(k: ScanCode) -> Key {
        Key::ScanCode(k)
    }
}

impl From<VirtualKeyCode> for Key {
    fn from(k: VirtualKeyCode) -> (key: Key) {
        Key::Virtual(k)
    }
}

impl FromSpecImpl<VirtualKeyCode> for Key {
    open spec fn obeys_from_spec() -> bool {
        true
    }

    open spec fn from_spec(k: VirtualKeyCode) -> Key {
        Key::Virtual(k)
    }
}

/// An identity that can be filed under a number of its own.
///
/// Two identities of one type never share a slot, so a table keyed by slots
/// tracks each identity apart from every other.
pub trait Identity: Copy {
    /// The slot of this identity.
    spec fn slot_of(self) -> u32;

    /// Computes the slot of this identity.
    fn slot(&self) -> (s: u32)
        ensures
            s == self.slot_of(),
    ;

    /// Identities with one slot are one identity.
    proof fn lemma_slot_injective(a: Self, b: Self)
        requires
            a.slot_of() == b.slot_of(),
        ensures
            a == b,
    ;
}

impl Identity for ScanCode {
    open spec fn slot_of(self) -> u32 {
        self
    }

    fn slot(&self) -> (s: u32) {
        *self
    }

    proof fn lemma_slot_injective(a: Self, b: Self) {
    }
}

impl Identity for VirtualKeyCode {
    open spec fn slot_of(self) -> u32 {
        self.0
    }

    fn slot(&self) -> (s: u32) {
        self.0
    }

    proof fn lemma_slot_injective(a: Self, b: Self) {
    }
}

impl Identity for MouseButton {
    open spec fn slot_of(self) -> u32 {
        match self {
            MouseButton::Left => 0u32,
            MouseButton::Right => 1u32,
            MouseButton::Middle => 2u32,
            MouseButton::Other(n) => (n + 3) as u32,
        }
    }

    fn slot(&self) -> (s: u32) {
        match self {
            MouseButton::Left => 0,
            MouseButton::Right => 1,
            MouseButton::Middle => 2,
            MouseButton::Other(n) => {
                let wide: u32 = *n as u32;
                wide + 3
            },
        }
    }

    proof fn lemma_slot_injective(a: Self, b: Self) {
    }
}

} // verus!
