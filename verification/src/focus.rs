//! The focus gate: it remembers whether the window has the focus and whether
//! the simulation wants the cursor grabbed, and says what to tell the
//! windowing system when either changes.

use crate::input::CursorGrabAction;
use vstd::prelude::*;

verus! {

/// A command to the windowing system. None of them can fail in a way the
/// loop cares about.
#[derive(Copy, Clone, Debug, PartialEq, Eq, Structural)]
pub enum WindowCommand {
    /// Show (`true`) or hide the cursor.
    SetCursorVisible(bool),
    /// Confine the cursor to the window (`true`) or free it.
    SetCursorGrab(bool),
    /// Ask for the window to be drawn again.
    RequestRedraw,
}

/// The commands that grab the cursor (`grab`) or let it loose: first its
/// visibility, then its confinement.
pub open spec fn cursor_commands(grab: bool) -> Seq<WindowCommand> {
    seq![WindowCommand::SetCursorVisible(!grab), WindowCommand::SetCursorGrab(grab)]
}

/// The focus gate as a mathematical value.
pub struct GateView {
    /// The window has the focus.
    pub is_focused: bool,
    /// The simulation last asked for the cursor to be grabbed. Losing the
    /// focus does not change this.
    pub grab_wanted: bool,
}

/// A new state of the focus gate and the commands to issue on the way there.
pub struct GateStep {
    pub gate: GateView,
    pub commands: Seq<WindowCommand>,
}

impl GateView {
    /// The focus gate of a new window: focused, the cursor not asked for.
    pub open spec fn initial() -> GateView {
        GateView { is_focused: true, grab_wanted: false }
    }

    /// The window gained the focus: a cursor that is wanted is grabbed again.
    pub open spec fn focus_gained(self) -> GateStep {
        GateStep {
            gate: GateView { is_focused: true, ..self },
            commands: if self.grab_wanted {
                cursor_commands(true)
            } else {
                Seq::empty()
            },
        }
    }

    /// The window lost the focus: the cursor is let loose, whatever the
    /// simulation wants, and what it wants is kept in mind.
    pub open spec fn focus_lost(self) -> GateStep {
        GateStep { gate: GateView { is_focused: false, ..self }, commands: cursor_commands(false) }
    }

    /// The simulation's request of this frame is carried out.
    pub open spec fn apply(self, action: CursorGrabAction) -> GateStep {
        match action {
            CursorGrabAction::Unchanged => GateStep { gate: self, commands: Seq::empty() },
            CursorGrabAction::Grab => GateStep {
                gate: GateView { grab_wanted: true, ..self },
                commands: cursor_commands(true),
            },
            CursorGrabAction::Loose => GateStep {
                gate: GateView { grab_wanted: false, ..self },
                commands: cursor_commands(false),
            },
        }
    }
}

/// The focus gate.
#[derive(Copy, Clone, Debug)]
pub struct FocusGate {
    is_focused: bool,
    is_grabbing_cursor: bool,
}

impl View for FocusGate {
    type V = GateView;

    closed spec fn view(&self) -> GateView {
        GateView { is_focused: self.is_focused, grab_wanted: self.is_grabbing_cursor }
    }
}

/// Builds the two commands that grab the cursor or let it loose.
fn cursor_command_list(grab: bool) -> (commands: Vec<WindowCommand>)
    ensures
        commands@ == cursor_commands(grab),
{
    let mut commands: Vec<WindowCommand> = Vec::new();
    commands.push(WindowCommand::SetCursorVisible(!grab));
    commands.push(WindowCommand::SetCursorGrab(grab));
    commands
}

impl FocusGate {
    /// The focus gate of a new window.
    pub fn new() -> (gate: FocusGate)
        ensures
            gate@ == GateView::initial(),
    {
        FocusGate { is_focused: true, is_grabbing_cursor: false }
    }

    /// Tells whether the window has the focus.
    pub fn is_focused(&self) -> (focused: bool)
        ensures
            focused == self@.is_focused,
    {
        self.is_focused
    }

    /// Tells whether the simulation last asked for the cursor to be grabbed.
    pub fn is_grabbing_cursor(&self) -> (wanted: bool)
        ensures
            wanted == self@.grab_wanted,
    {
        self.is_grabbing_cursor
    }

    /// Notes that the window gained the focus and returns the commands to issue.
    pub fn focus_gained(&mut self) -> (commands: Vec<WindowCommand>)
        ensures
            final(self)@ == old(self)@.focus_gained().gate,
            commands@ == old(self)@.focus_gained().commands,
    {
        self.is_focused = true;
        if self.is_grabbing_cursor {
            cursor_command_list(true)
        } else {
            Vec::new()
        }
    }

    /// Notes that the window lost the focus and returns the commands to issue.
    pub fn focus_lost(&mut self) -> (commands: Vec<WindowCommand>)
        ensures
            final(self)@ == old(self)@.focus_lost().gate,
            commands@ == old(self)@.focus_lost().commands,
    {
        self.is_focused = false;
        cursor_command_list(false)
    }

    /// Carries out what the simulation asked for during the frame and
    /// returns the commands to issue.
    pub fn apply(&mut self, action: CursorGrabAction) -> (commands: Vec<WindowCommand>)
        ensures
            final(self)@ == old(self)@.apply(action).gate,
            commands@ == old(self)@.apply(action).commands,
    {
        match action {
            CursorGrabAction::Unchanged => Vec::new(),
            CursorGrabAction::Grab => {
                self.is_grabbing_cursor = true;
                cursor_command_list(true)
            },
            CursorGrabAction::Loose => {
                self.is_grabbing_cursor = false;
                cursor_command_list(false)
            },
        }
    }
}

} // verus!
