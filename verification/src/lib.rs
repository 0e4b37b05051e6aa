//! Input tracking for a windowed simulation that runs frame by frame.
//!
//! Raw events of a window and of the devices behind it go in; out comes, for
//! each frame, what is down, what went down or came up since the frame
//! began, how the pointer moved, and what the loop around it is to do next.
//!
//! - [`input`] holds the state of the running frame and its queries.
//! - [`button_state`] is the edge detection that keys and buttons share.
//! - [`callback`] puts a raw event into the form handed to the simulation.
//! - [`focus`] and [`frame_loop`] decide what the loop does on each event.
//! - [`frame`] states what holds of the input state over a whole frame.
//!
//! Pointer measurements are of a type `D` that the caller chooses. They are
//! stored and handed back, never computed with.

pub mod button_state;
pub mod callback;
pub mod event;
pub mod focus;
pub mod frame;
pub mod frame_loop;
pub mod identity;
pub mod input;

pub use callback::InputEvent;
