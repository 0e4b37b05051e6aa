//! The decisions of the frame loop.
//!
//! The loop itself belongs to whoever owns the window: it waits for an
//! event, hands it to [`FrameLoop::handle`], and carries out the actions it
//! gets back, in their order. Nothing here waits, draws or talks to a window.

use crate::callback::{
    device_input, process_device_event, process_window_event, window_input, InputEvent,
};
use crate::event::{DeviceEvent, WindowEvent};
use crate::focus::{FocusGate, GateView, WindowCommand};
use crate::input::{Input, InputView};
use vstd::prelude::*;

verus! {

/// Where the loop stands in its life.
#[derive(Copy, Clone, Debug, PartialEq, Eq, Structural)]
pub enum Phase {
    /// Frames are being run.
    Running,
    /// The loop was asked to end: no frame is run any more.
    Terminating,
    /// The loop has ended and the simulation was told so.
    Terminated,
}

/// What the event loop reports.
#[derive(Debug)]
pub enum LoopEvent<D> {
    /// An event of the loop's own window.
    Window(WindowEvent<D>),
    /// An event of a device.
    Device(DeviceEvent<D>),
    /// The window is to be drawn: a frame is due.
    RedrawRequested,
    /// The simulation has updated and rendered the frame that `RunFrame`
    /// asked for.
    FrameDone,
    /// All redraws of this round are done.
    RedrawEventsCleared,
    /// The event loop is shutting down.
    LoopDestroyed,
    /// Anything else, events of other windows among it.
    Other,
}

/// What the owner of the window is to do.
#[derive(Debug)]
pub enum Action<D> {
    /// Issue the command to the windowing system, ignoring a failure.
    Command(WindowCommand),
    /// Hand the event to the simulation.
    Notify(InputEvent<D>),
    /// Let the simulation update, with the input state and the time since
    /// the last frame, then render; then report `FrameDone`.
    RunFrame,
    /// Ask the event loop to exit.
    Exit,
    /// Tell the simulation that the loop has ended.
    Close,
}

/// Each command as an action, in the same order.
pub open spec fn as_actions<D>(commands: Seq<WindowCommand>) -> Seq<Action<D>> {
    Seq::new(commands.len(), |i: int| Action::Command(commands[i]))
}

/// The event as a list of what the simulation is told of it.
pub open spec fn as_notice<D>(input: Option<InputEvent<D>>) -> Seq<Action<D>> {
    match input {
        Some(event) => seq![Action::Notify(event)],
        None => Seq::empty(),
    }
}

/// The loop as a mathematical value.
pub struct LoopView {
    pub phase: Phase,
    pub gate: GateView,
}

/// What an event leads to: the loop and the input state after it, and the
/// actions to carry out.
pub struct Reaction<D> {
    pub state: LoopView,
    pub input: InputView<D>,
    pub actions: Seq<Action<D>>,
}

impl LoopView {
    /// A loop about to run its first frame.
    pub open spec fn initial() -> LoopView {
        LoopView { phase: Phase::Running, gate: GateView::initial() }
    }

    /// What `event` leads to when the input state is `input`.
    ///
    /// - Once terminated, the loop ignores everything.
    /// - A change of focus goes to the focus gate alone.
    /// - Any other window event goes to the input state; if that refuses to
    ///   go on, the loop is terminating and asks to exit. The simulation is
    ///   told of the event.
    /// - A device event goes to the input state, where it counts only under
    ///   focus, and only under focus is the simulation told of it.
    /// - When a redraw is due, a running loop whose simulation has not asked
    ///   to quit runs a frame. Otherwise the loop is terminating: it runs no
    ///   frame and asks to exit.
    /// - When a frame is done, the cursor request of the frame is carried
    ///   out and the input state steps to the next frame.
    /// - When the redraws are done, another is asked for.
    /// - When the event loop shuts down, the loop is terminated and the
    ///   simulation is told.
    pub open spec fn react<D>(self, input: InputView<D>, event: LoopEvent<D>) -> Reaction<D> {
        if self.phase is Terminated {
            Reaction { state: self, input, actions: Seq::empty() }
        } else {
            match event {
                LoopEvent::Window(WindowEvent::Focused(true)) => Reaction {
                    state: LoopView { gate: self.gate.focus_gained().gate, ..self },
                    input,
                    actions: as_actions(self.gate.focus_gained().commands),
                },
                LoopEvent::Window(WindowEvent::Focused(false)) => Reaction {
                    state: LoopView { gate: self.gate.focus_lost().gate, ..self },
                    input,
                    actions: as_actions(self.gate.focus_lost().commands),
                },
                LoopEvent::Window(window_event) => Reaction {
                    state: LoopView {
                        phase: if input.accepts(window_event) {
                            self.phase
                        } else {
                            Phase::Terminating
                        },
                        ..self
                    },
                    input: input.window_event(window_event),
                    actions: if input.accepts(window_event) {
                        as_notice(window_input(window_event))
                    } else {
                        seq![Action::Exit] + as_notice(window_input(window_event))
                    },
                },
                LoopEvent::Device(device_event) => Reaction {
                    state: self,
                    input: input.device_event(device_event, self.gate.is_focused),
                    actions: if self.gate.is_focused {
                        as_notice(device_input(device_event))
                    } else {
                        Seq::empty()
                    },
                },
                LoopEvent::RedrawRequested => if self.phase is Running && !input.quit {
                    Reaction { state: self, input, actions: seq![Action::RunFrame] }
                } else {
                    Reaction {
                        state: LoopView { phase: Phase::Terminating, ..self },
                        input,
                        actions: seq![Action::Exit],
                    }
                },
                LoopEvent::FrameDone => Reaction {
                    state: LoopView { gate: self.gate.apply(input.cursor_action).gate, ..self },
                    input: input.step(),
                    actions: as_actions(self.gate.apply(input.cursor_action).commands),
                },
                LoopEvent::RedrawEventsCleared => Reaction {
                    state: self,
                    input,
                    actions: seq![Action::Command(WindowCommand::RequestRedraw)],
                },
                LoopEvent::LoopDestroyed => Reaction {
                    state: LoopView { phase: Phase::Terminated, ..self },
                    input,
                    actions: seq![Action::Close],
                },
                LoopEvent::Other => Reaction { state: self, input, actions: Seq::empty() },
            }
        }
    }
}

/// One turn of the loop: an event, and the input state as the event finds
/// it. Between two turns the simulation may have changed the input state at
/// will.
pub struct Turn<D> {
    pub input: InputView<D>,
    pub event: LoopEvent<D>,
}

/// How often the actions tell the simulation that the loop has ended.
pub open spec fn times_closed<D>(actions: Seq<Action<D>>) -> nat {
    actions.to_multiset().count(Action::Close)
}

impl LoopView {
    /// The loop after the turns, taken in order.
    pub open spec fn after<D>(self, turns: Seq<Turn<D>>) -> LoopView
        decreases turns.len(),
    {
        if turns.len() == 0 {
            self
        } else {
            self.react(turns[0].input, turns[0].event).state.after(turns.drop_first())
        }
    }

    /// All the actions that the turns lead to, in order.
    pub open spec fn actions_over<D>(self, turns: Seq<Turn<D>>) -> Seq<Action<D>>
        decreases turns.len(),
    {
        if turns.len() == 0 {
            Seq::empty()
        } else {
            self.react(turns[0].input, turns[0].event).actions + self.react(
                turns[0].input,
                turns[0].event,
            ).state.actions_over(turns.drop_first())
        }
    }

    /// A request to close the window ends the running of frames at once: the
    /// loop is terminating and asks to exit, and the input state is not touched.
    pub proof fn lemma_close_requested<D>(self, input: InputView<D>)
        requires
            !(self.phase is Terminated),
        ensures
            self.react(input, LoopEvent::Window(WindowEvent::CloseRequested)).state.phase
                == Phase::Terminating,
            self.react(input, LoopEvent::Window(WindowEvent::CloseRequested)).actions == seq![
                Action::<D>::Exit,
            ],
            self.react(input, LoopEvent::Window(WindowEvent::CloseRequested)).input == input,
    {
        let event = WindowEvent::<D>::CloseRequested;
        assert(seq![Action::<D>::Exit] + as_notice(window_input(event)) =~= seq![
            Action::<D>::Exit,
        ]);
    }

    /// A loop that is not running stays so whatever happens, and never asks
    /// for a frame.
    pub proof fn lemma_react_when_ending<D>(self, input: InputView<D>, event: LoopEvent<D>)
        requires
            !(self.phase is Running),
        ensures
            !(self.react(input, event).state.phase is Running),
            !self.react(input, event).actions.contains(Action::RunFrame),
    {
        let actions = self.react(input, event).actions;
        if actions.contains(Action::RunFrame) {
            let i = choose|i: int| 0 <= i < actions.len() && actions[i] == Action::<D>::RunFrame;
            assert(actions[i] == Action::<D>::RunFrame);
        }
    }

    /// An event leads to telling the simulation that the loop has ended
    /// exactly if the event is the shutting down of the event loop and the
    /// simulation was not told before; it is then told once.
    pub proof fn lemma_react_closes<D>(self, input: InputView<D>, event: LoopEvent<D>)
        ensures
            times_closed(self.react(input, event).actions) == if event is LoopDestroyed
                && !(self.phase is Terminated) {
                1nat
            } else {
                0nat
            },
            self.react(input, event).state.phase is Terminated <==> self.phase is Terminated
                || event is LoopDestroyed,
    {
        broadcast use vstd::seq_lib::to_multiset_contains;
        broadcast use vstd::seq_lib::to_multiset_build;
        broadcast use vstd::multiset::group_multiset_axioms;

        let actions = self.react(input, event).actions;
        if event is LoopDestroyed && !(self.phase is Terminated) {
            assert(actions =~= Seq::<Action<D>>::empty().push(Action::Close));
        } else if actions.contains(Action::Close) {
            let i = choose|i: int| 0 <= i < actions.len() && actions[i] == Action::<D>::Close;
            assert(actions[i] == Action::<D>::Close);
        }
    }

    /// Once the loop is not running, as after a request to close the window,
    /// no turn ever asks for a frame again: the simulation neither updates
    /// nor renders any more.
    pub proof fn lemma_no_frame_when_ending<D>(self, turns: Seq<Turn<D>>)
        requires
            !(self.phase is Running),
        ensures
            !(self.after(turns).phase is Running),
            !self.actions_over(turns).contains(Action::RunFrame),
        decreases turns.len(),
    {
        if turns.len() > 0 {
            let first = self.react(turns[0].input, turns[0].event);
            self.lemma_react_when_ending(turns[0].input, turns[0].event);
            first.state.lemma_no_frame_when_ending(turns.drop_first());
            let rest = first.state.actions_over(turns.drop_first());
            let all = self.actions_over(turns);
            if all.contains(Action::RunFrame) {
                let i = choose|i: int| 0 <= i < all.len() && all[i] == Action::<D>::RunFrame;
                if i < first.actions.len() {
                    assert(first.actions[i] == Action::<D>::RunFrame);
                } else {
                    assert(rest[i - first.actions.len()] == Action::<D>::RunFrame);
                }
            }
        }
    }

    /// After a request to close the window, whatever follows, the simulation
    /// neither updates nor renders any more, and it is told that the loop has
    /// ended exactly once if the event loop shuts down, and not before.
    pub proof fn lemma_close_ends_frames<D>(self, input: InputView<D>, turns: Seq<Turn<D>>)
        requires
            !(self.phase is Terminated),
        ensures
            ({
                let closing = self.react(input, LoopEvent::Window(WindowEvent::CloseRequested));
                &&& !closing.actions.contains(Action::RunFrame)
                &&& !closing.state.actions_over(turns).contains(Action::RunFrame)
                &&& times_closed(closing.actions) == 0
                &&& times_closed(closing.state.actions_over(turns)) == if exists|i: int|
                    0 <= i < turns.len() && (#[trigger] turns[i]).event is LoopDestroyed {
                    1nat
                } else {
                    0nat
                }
            }),
    {
        let event = LoopEvent::<D>::Window(WindowEvent::CloseRequested);
        let closing = self.react(input, event);
        self.lemma_close_requested(input);
        self.lemma_react_closes(input, event);
        closing.state.lemma_no_frame_when_ending(turns);
        closing.state.lemma_closed_once(turns);
    }

    /// Over any turns the simulation is told at most once that the loop has
    /// ended: exactly once if the event loop shuts down during them and the
    /// simulation was not told before, and not at all otherwise.
    pub proof fn lemma_closed_once<D>(self, turns: Seq<Turn<D>>)
        ensures
            times_closed(self.actions_over(turns)) == if !(self.phase is Terminated) && exists|
                i: int,
            |
                0 <= i < turns.len() && (#[trigger] turns[i]).event is LoopDestroyed {
                1nat
            } else {
                0nat
            },
            self.after(turns).phase is Terminated <==> self.phase is Terminated || exists|i: int|
                0 <= i < turns.len() && (#[trigger] turns[i]).event is LoopDestroyed,
        decreases turns.len(),
    {
        broadcast use vstd::seq_lib::lemma_multiset_commutative;
        broadcast use vstd::multiset::group_multiset_axioms;

        if turns.len() == 0 {
            assert(Seq::<Action<D>>::empty().to_multiset().count(Action::Close) == 0) by {
                broadcast use vstd::seq_lib::to_multiset_contains;

            }
        } else {
            let first = self.react(turns[0].input, turns[0].event);
            let rest = turns.drop_first();
            self.lemma_react_closes(turns[0].input, turns[0].event);
            first.state.lemma_closed_once(rest);
            let here = turns[0].event is LoopDestroyed;
            let later = exists|i: int|
                0 <= i < rest.len() && (#[trigger] rest[i]).event is LoopDestroyed;
            let ever = exists|i: int|
                0 <= i < turns.len() && (#[trigger] turns[i]).event is LoopDestroyed;
            if later {
                let i = choose|i: int|
                    0 <= i < rest.len() && (#[trigger] rest[i]).event is LoopDestroyed;
                assert(turns[i + 1] == rest[i]);
            }
            if ever {
                let i = choose|i: int|
                    0 <= i < turns.len() && (#[trigger] turns[i]).event is LoopDestroyed;
                if i > 0 {
                    assert(rest[i - 1] == turns[i]);
                }
            }
            assert(ever == (here || later));
        }
    }
}

/// The state of the frame loop.
#[derive(Copy, Clone, Debug)]
pub struct FrameLoop {
    phase: Phase,
    gate: FocusGate,
}

impl View for FrameLoop {
    type V = LoopView;

    closed spec fn view(&self) -> LoopView {
        LoopView { phase: self.phase, gate: self.gate@ }
    }
}

/// Turns commands into actions.
fn command_actions<D>(commands: Vec<WindowCommand>) -> (actions: Vec<Action<D>>)
    ensures
        actions@ == as_actions::<D>(commands@),
{
    let mut actions: Vec<Action<D>> = Vec::new();
    let mut i: usize = 0;
    while i < commands.len()
        invariant
            i <= commands.len(),
            actions@ == as_actions::<D>(commands@.take(i as int)),
        decreases commands.len() - i,
    {
        actions.push(Action::Command(commands[i]));
        i += 1;
    }
    actions
}

/// Adds to `actions` what the simulation is told of an event.
fn push_notice<D>(actions: &mut Vec<Action<D>>, input: Option<InputEvent<D>>)
    ensures
        final(actions)@ == old(actions)@ + as_notice(input),
{
    if let Some(event) = input {
        actions.push(Action::Notify(event));
    }
}

impl FrameLoop {
    /// A loop about to run its first frame.
    pub fn new() -> (frame_loop: FrameLoop)
        ensures
            frame_loop@ == LoopView::initial(),
    {
        FrameLoop { phase: Phase::Running, gate: FocusGate::new() }
    }

    /// Where the loop stands in its life.
    pub fn phase(&self) -> (phase: Phase)
        ensures
            phase == self@.phase,
    {
        self.phase
    }

    /// Tells whether the window has the focus.
    pub fn is_focused(&self) -> (focused: bool)
        ensures
            focused == self@.gate.is_focused,
    {
        self.gate.is_focused()
    }

    /// Takes in an event and returns what is to be done about it, in order.
    pub fn handle<D: Copy>(&mut self, input: &mut Input<D>, event: LoopEvent<D>) -> (actions: Vec<
        Action<D>,
    >)
        ensures
            final(self)@ == old(self)@.react(old(input)@, event).state,
            final(input)@ == old(self)@.react(old(input)@, event).input,
            actions@ == old(self)@.react(old(input)@, event).actions,
            old(input)@.wf() ==> final(input)@.wf(),
    {
        let mut actions: Vec<Action<D>> = Vec::new();
        if let Phase::Terminated = self.phase {
            return actions;
        }
        match event {
            LoopEvent::Window(WindowEvent::Focused(true)) => {
                actions = command_actions(self.gate.focus_gained());
            },
            LoopEvent::Window(WindowEvent::Focused(false)) => {
                actions = command_actions(self.gate.focus_lost());
            },
            LoopEvent::Window(window_event) => {
                if !input.process_window_event(&window_event) {
                    self.phase = Phase::Terminating;
                    actions.push(Action::Exit);
                }
                push_notice(&mut actions, process_window_event(window_event));
            },
            LoopEvent::Device(device_event) => {
                let focused = self.gate.is_focused();
                if focused {
                    push_notice(&mut actions, process_device_event(&device_event));
                }
                input.process_device_event(device_event, focused);
            },
            LoopEvent::RedrawRequested => {
                let running = match self.phase {
                    Phase::Running => !input.will_quit(),
                    _ => false,
                };
                if running {
                    actions.push(Action::RunFrame);
                } else {
                    self.phase = Phase::Terminating;
                    actions.push(Action::Exit);
                }
            },
            LoopEvent::FrameDone => {
                actions = command_actions(self.gate.apply(input.cursor_action()));
                input.step();
            },
            LoopEvent::RedrawEventsCleared => {
                actions.push(Action::Command(WindowCommand::RequestRedraw));
            },
            LoopEvent::LoopDestroyed => {
                self.phase = Phase::Terminated;
                actions.push(Action::Close);
            },
            LoopEvent::Other => {},
        }
        actions
    }
}

} // verus!
