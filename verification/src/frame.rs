//! What holds of the input state over a whole frame, whatever events arrive.

use crate::button_state::Buttons;
use crate::event::{DeviceEvent, WindowEvent};
use crate::identity::{Key, MouseButton, ScanCode, VirtualKeyCode};
use crate::input::{CursorGrabAction, InputView, WindowWheel};
use vstd::prelude::*;

verus! {

/// An event as it reaches the input state.
pub enum Delivery<D> {
    /// A window event.
    Window(WindowEvent<D>),
    /// A device event, and whether the window had the focus when it came.
    Device(DeviceEvent<D>, bool),
}

/// The delivery reports that `key` went down (`down`) or came up.
pub open spec fn reports_key<D>(delivery: Delivery<D>, key: Key, down: bool) -> bool {
    delivery matches Delivery::Window(
        WindowEvent::KeyboardInput { scancode, state, virtual_keycode },
    ) && state.down() == down && match key {
        Key::ScanCode(code) => scancode == code,
        Key::Virtual(code) => virtual_keycode == Some(code),
    }
}

/// The delivery reports that `button` went down (`down`) or came up.
pub open spec fn reports_button<D>(delivery: Delivery<D>, button: MouseButton, down: bool) -> bool {
    delivery matches Delivery::Window(WindowEvent::MouseInput { state, button: reported })
        && state.down() == down && reported == button
}

/// The delivery is a report about `key`.
pub open spec fn names_key<D>(delivery: Delivery<D>, key: Key) -> bool {
    reports_key(delivery, key, true) || reports_key(delivery, key, false)
}

/// The delivery is a report about `button`.
pub open spec fn names_button<D>(delivery: Delivery<D>, button: MouseButton) -> bool {
    reports_button(delivery, button, true) || reports_button(delivery, button, false)
}

/// What the delivery adds to the motions of the frame: the motion of the
/// mouse that a device reports under focus, and nothing else.
pub open spec fn motion_of<D>(delivery: Delivery<D>) -> Seq<(D, D)> {
    match delivery {
        Delivery::Device(DeviceEvent::MouseMotion { motion }, true) => seq![motion],
        _ => Seq::empty(),
    }
}

/// What the delivery adds to the wheel movements of the frame: the vertical
/// part of a movement that a device reports under focus, or that the window
/// reports and the policy lets count, and nothing else.
pub open spec fn wheel_of<D>(delivery: Delivery<D>, policy: WindowWheel) -> Seq<D> {
    match delivery {
        Delivery::Device(DeviceEvent::MouseWheel { delta }, true) => seq![delta.vertical()],
        Delivery::Window(WindowEvent::MouseWheel { delta }) => if policy.counts(delta) {
            seq![delta.vertical()]
        } else {
            Seq::empty()
        },
        _ => Seq::empty(),
    }
}

/// What the delivery adds to the text: the character that the window
/// received, and nothing else.
pub open spec fn text_of<D>(delivery: Delivery<D>) -> Seq<char> {
    match delivery {
        Delivery::Window(WindowEvent::ReceivedCharacter(character)) => seq![character],
        _ => Seq::empty(),
    }
}

/// What the delivery reports about keys by their scan codes.
pub open spec fn scan_report<D>(delivery: Delivery<D>) -> Seq<(ScanCode, bool)> {
    match delivery {
        Delivery::Window(WindowEvent::KeyboardInput { scancode, state, .. }) => seq![
            (scancode, state.down()),
        ],
        _ => Seq::empty(),
    }
}

/// What the delivery reports about keys by their virtual codes.
pub open spec fn code_report<D>(delivery: Delivery<D>) -> Seq<(VirtualKeyCode, bool)> {
    match delivery {
        Delivery::Window(
            WindowEvent::KeyboardInput { state, virtual_keycode: Some(code), .. },
        ) => seq![(code, state.down())],
        _ => Seq::empty(),
    }
}

/// What the delivery reports about mouse buttons.
pub open spec fn button_report<D>(delivery: Delivery<D>) -> Seq<(MouseButton, bool)> {
    match delivery {
        Delivery::Window(WindowEvent::MouseInput { state, button }) => seq![
            (button, state.down()),
        ],
        _ => Seq::empty(),
    }
}

/// What the deliveries report about keys by their scan codes, in order.
pub open spec fn scan_reports<D>(deliveries: Seq<Delivery<D>>) -> Seq<(ScanCode, bool)>
    decreases deliveries.len(),
{
    if deliveries.len() == 0 {
        Seq::empty()
    } else {
        scan_report(deliveries[0]) + scan_reports(deliveries.drop_first())
    }
}

/// What the deliveries report about keys by their virtual codes, in order.
pub open spec fn code_reports<D>(deliveries: Seq<Delivery<D>>) -> Seq<(VirtualKeyCode, bool)>
    decreases deliveries.len(),
{
    if deliveries.len() == 0 {
        Seq::empty()
    } else {
        code_report(deliveries[0]) + code_reports(deliveries.drop_first())
    }
}

/// What the deliveries report about mouse buttons, in order.
pub open spec fn button_reports<D>(deliveries: Seq<Delivery<D>>) -> Seq<(MouseButton, bool)>
    decreases deliveries.len(),
{
    if deliveries.len() == 0 {
        Seq::empty()
    } else {
        button_report(deliveries[0]) + button_reports(deliveries.drop_first())
    }
}

/// What the deliveries add to the motions of the frame, in order.
pub open spec fn motions_of<D>(deliveries: Seq<Delivery<D>>) -> Seq<(D, D)>
    decreases deliveries.len(),
{
    if deliveries.len() == 0 {
        Seq::empty()
    } else {
        motion_of(deliveries[0]) + motions_of(deliveries.drop_first())
    }
}

/// What the deliveries add to the wheel movements of the frame, in order.
pub open spec fn wheels_of<D>(deliveries: Seq<Delivery<D>>, policy: WindowWheel) -> Seq<D>
    decreases deliveries.len(),
{
    if deliveries.len() == 0 {
        Seq::empty()
    } else {
        wheel_of(deliveries[0], policy) + wheels_of(deliveries.drop_first(), policy)
    }
}

/// What the deliveries add to the text, in order.
pub open spec fn texts_of<D>(deliveries: Seq<Delivery<D>>) -> Seq<char>
    decreases deliveries.len(),
{
    if deliveries.len() == 0 {
        Seq::empty()
    } else {
        text_of(deliveries[0]) + texts_of(deliveries.drop_first())
    }
}

impl<D> InputView<D> {
    /// The state after the delivery.
    pub open spec fn deliver(self, delivery: Delivery<D>) -> Self {
        match delivery {
            Delivery::Window(event) => self.window_event(event),
            Delivery::Device(event, is_focused) => self.device_event(event, is_focused),
        }
    }

    /// The state after the deliveries, taken in order.
    pub open spec fn deliver_all(self, deliveries: Seq<Delivery<D>>) -> Self
        decreases deliveries.len(),
    {
        if deliveries.len() == 0 {
            self
        } else {
            self.deliver(deliveries[0]).deliver_all(deliveries.drop_first())
        }
    }

    /// The key was down when the frame began.
    pub open spec fn key_was_held(self, key: Key) -> bool {
        match key {
            Key::Virtual(code) => self.code_keys.was_held(code),
            Key::ScanCode(code) => self.keys.was_held(code),
        }
    }

    /// The key is listed as pressed (`down`) or as released.
    pub open spec fn key_listed(self, key: Key, down: bool) -> bool {
        match key {
            Key::Virtual(code) => self.code_keys.listed(code, down),
            Key::ScanCode(code) => self.keys.listed(code, down),
        }
    }

    /// How often the key is listed as pressed (`down`) or as released.
    pub open spec fn times_key_listed(self, key: Key, down: bool) -> nat {
        match key {
            Key::Virtual(code) => self.code_keys.times_listed(code, down),
            Key::ScanCode(code) => self.keys.times_listed(code, down),
        }
    }

    /// Before any event no key and no button is listed twice.
    pub proof fn lemma_initial_wf()
        ensures
            Self::initial().wf(),
            forall|policy: WindowWheel| (#[trigger] Self::initial_with(policy)).wf(),
    {
    }

    /// No delivery makes a list hold a key or a button twice, and none
    /// touches the snapshots taken when the frame began.
    pub proof fn lemma_deliver_wf(self, delivery: Delivery<D>)
        requires
            self.wf(),
        ensures
            self.deliver(delivery).wf(),
            self.deliver(delivery).keys.previous == self.keys.previous,
            self.deliver(delivery).code_keys.previous == self.code_keys.previous,
            self.deliver(delivery).mouse_buttons.previous == self.mouse_buttons.previous,
    {
        match delivery {
            Delivery::Window(WindowEvent::KeyboardInput { scancode, state, virtual_keycode }) => {
                self.keys.lemma_record_wf(scancode, state.down());
                if let Some(code) = virtual_keycode {
                    self.code_keys.lemma_record_wf(code, state.down());
                }
            },
            Delivery::Window(WindowEvent::MouseInput { state, button }) => {
                self.mouse_buttons.lemma_record_wf(button, state.down());
            },
            _ => {},
        }
    }

    /// No sequence of deliveries makes a list hold a key or a button twice.
    pub proof fn lemma_deliver_all_wf(self, deliveries: Seq<Delivery<D>>)
        requires
            self.wf(),
        ensures
            self.deliver_all(deliveries).wf(),
        decreases deliveries.len(),
    {
        if deliveries.len() > 0 {
            self.lemma_deliver_wf(deliveries[0]);
            self.deliver(deliveries[0]).lemma_deliver_all_wf(deliveries.drop_first());
        }
    }

    /// The next frame begins with no key and no button listed at all.
    pub proof fn lemma_step_wf(self)
        ensures
            self.step().wf(),
    {
    }

    /// Whatever number of like reports about one key arrive in a row within a
    /// frame, presses of a key that was up when the frame began or releases
    /// of one that was down then, the key is listed exactly once, as pressed
    /// or as released, and is down or up as reported.
    pub proof fn lemma_key_listed_once(self, deliveries: Seq<Delivery<D>>, key: Key, down: bool)
        requires
            self.wf(),
            deliveries.len() >= 1,
            forall|i: int|
                0 <= i < deliveries.len() ==> reports_key(#[trigger] deliveries[i], key, down),
            self.key_was_held(key) != down,
        ensures
            self.deliver_all(deliveries).times_key_listed(key, down) == 1,
            self.deliver_all(deliveries).key_listed(key, down),
            self.deliver_all(deliveries).key_held(key) == down,
    {
        let first = self.deliver(deliveries[0]);
        self.lemma_deliver_wf(deliveries[0]);
        match key {
            Key::ScanCode(code) => {
                self.keys.lemma_edge_listed(code, down);
            },
            Key::Virtual(code) => {
                self.code_keys.lemma_edge_listed(code, down);
            },
        }
        let rest = deliveries.drop_first();
        assert forall|i: int| 0 <= i < rest.len() implies reports_key(
            #[trigger] rest[i],
            key,
            down,
        ) by {
            assert(rest[i] == deliveries[i + 1]);
        }
        first.lemma_key_stays_listed(rest, key, down);
        let last = self.deliver_all(deliveries);
        match key {
            Key::ScanCode(code) => {
                if down {
                    Buttons::lemma_listed_once(last.keys.pressed, code);
                } else {
                    Buttons::lemma_listed_once(last.keys.released, code);
                }
            },
            Key::Virtual(code) => {
                if down {
                    Buttons::lemma_listed_once(last.code_keys.pressed, code);
                } else {
                    Buttons::lemma_listed_once(last.code_keys.released, code);
                }
            },
        }
    }

    /// Further like reports about a key that is listed leave it listed.
    proof fn lemma_key_stays_listed(self, deliveries: Seq<Delivery<D>>, key: Key, down: bool)
        requires
            self.wf(),
            forall|i: int|
                0 <= i < deliveries.len() ==> reports_key(#[trigger] deliveries[i], key, down),
            self.key_listed(key, down),
            self.key_held(key) == down,
        ensures
            self.deliver_all(deliveries).wf(),
            self.deliver_all(deliveries).key_listed(key, down),
            self.deliver_all(deliveries).key_held(key) == down,
        decreases deliveries.len(),
    {
        if deliveries.len() > 0 {
            let first = self.deliver(deliveries[0]);
            self.lemma_deliver_wf(deliveries[0]);
            let rest = deliveries.drop_first();
            assert forall|i: int| 0 <= i < rest.len() implies reports_key(
                #[trigger] rest[i],
                key,
                down,
            ) by {
                assert(rest[i] == deliveries[i + 1]);
            }
            first.lemma_key_stays_listed(rest, key, down);
        }
    }

    /// Whatever number of like reports about one mouse button arrive in a row
    /// within a frame, presses of a button that was up when the frame began
    /// or releases of one that was down then, the button is listed exactly
    /// once, as pressed or as released, and is down or up as reported.
    pub proof fn lemma_button_listed_once(
        self,
        deliveries: Seq<Delivery<D>>,
        button: MouseButton,
        down: bool,
    )
        requires
            self.wf(),
            deliveries.len() >= 1,
            forall|i: int|
                0 <= i < deliveries.len() ==> reports_button(
                    #[trigger] deliveries[i],
                    button,
                    down,
                ),
            self.mouse_buttons.was_held(button) != down,
        ensures
            self.deliver_all(deliveries).mouse_buttons.times_listed(button, down) == 1,
            self.deliver_all(deliveries).mouse_buttons.listed(button, down),
            self.deliver_all(deliveries).mouse_buttons.held(button) == down,
    {
        let first = self.deliver(deliveries[0]);
        self.lemma_deliver_wf(deliveries[0]);
        self.mouse_buttons.lemma_edge_listed(button, down);
        let rest = deliveries.drop_first();
        assert forall|i: int| 0 <= i < rest.len() implies reports_button(
            #[trigger] rest[i],
            button,
            down,
        ) by {
            assert(rest[i] == deliveries[i + 1]);
        }
        first.lemma_button_stays_listed(rest, button, down);
        let last = self.deliver_all(deliveries);
        if down {
            Buttons::lemma_listed_once(last.mouse_buttons.pressed, button);
        } else {
            Buttons::lemma_listed_once(last.mouse_buttons.released, button);
        }
    }

    /// Further like reports about a button that is listed leave it listed.
    proof fn lemma_button_stays_listed(
        self,
        deliveries: Seq<Delivery<D>>,
        button: MouseButton,
        down: bool,
    )
        requires
            self.wf(),
            forall|i: int|
                0 <= i < deliveries.len() ==> reports_button(
                    #[trigger] deliveries[i],
                    button,
                    down,
                ),
            self.mouse_buttons.listed(button, down),
            self.mouse_buttons.held(button) == down,
        ensures
            self.deliver_all(deliveries).wf(),
            self.deliver_all(deliveries).mouse_buttons.listed(button, down),
            self.deliver_all(deliveries).mouse_buttons.held(button) == down,
        decreases deliveries.len(),
    {
        if deliveries.len() > 0 {
            let first = self.deliver(deliveries[0]);
            self.lemma_deliver_wf(deliveries[0]);
            let rest = deliveries.drop_first();
            assert forall|i: int| 0 <= i < rest.len() implies reports_button(
                #[trigger] rest[i],
                button,
                down,
            ) by {
                assert(rest[i] == deliveries[i + 1]);
            }
            first.lemma_button_stays_listed(rest, button, down);
        }
    }

    /// The three families are tracked apart: scan codes, virtual codes and
    /// mouse buttons each go through the deliveries as a tracker of their own
    /// that hears only the reports about its own family. One key event is a
    /// report to the scan codes and, where the key has a virtual code, a
    /// report to the virtual codes too.
    pub proof fn lemma_families_apart(self, deliveries: Seq<Delivery<D>>)
        ensures
            self.deliver_all(deliveries).keys == self.keys.record_all(scan_reports(deliveries)),
            self.deliver_all(deliveries).code_keys == self.code_keys.record_all(
                code_reports(deliveries),
            ),
            self.deliver_all(deliveries).mouse_buttons == self.mouse_buttons.record_all(
                button_reports(deliveries),
            ),
        decreases deliveries.len(),
    {
        if deliveries.len() > 0 {
            let first = self.deliver(deliveries[0]);
            let rest = deliveries.drop_first();
            first.lemma_families_apart(rest);
            self.keys.lemma_record_first(scan_report(deliveries[0]), scan_reports(rest));
            self.code_keys.lemma_record_first(code_report(deliveries[0]), code_reports(rest));
            self.mouse_buttons.lemma_record_first(
                button_report(deliveries[0]),
                button_reports(rest),
            );
        }
    }

    /// A delivery that is no report about `key` leaves the key as it is:
    /// listed or not, down or up.
    pub proof fn lemma_deliver_other_key(self, delivery: Delivery<D>, key: Key)
        requires
            !names_key(delivery, key),
        ensures
            self.deliver(delivery).key_pressed(key) == self.key_pressed(key),
            self.deliver(delivery).key_released(key) == self.key_released(key),
            self.deliver(delivery).key_held(key) == self.key_held(key),
    {
        if let Delivery::Window(WindowEvent::KeyboardInput { scancode, state, virtual_keycode }) =
            delivery {
            match key {
                Key::ScanCode(code) => {
                    self.keys.lemma_record_other(scancode, state.down(), code);
                },
                Key::Virtual(code) => {
                    if let Some(reported) = virtual_keycode {
                        self.code_keys.lemma_record_other(reported, state.down(), code);
                    }
                },
            }
        }
    }

    /// A key that no event of a frame reports is listed neither as pressed
    /// nor as released in that frame, and is down throughout the frame
    /// exactly if it was down before the frame began.
    pub proof fn lemma_unreported_key(self, deliveries: Seq<Delivery<D>>, key: Key)
        requires
            forall|i: int| 0 <= i < deliveries.len() ==> !names_key(#[trigger] deliveries[i], key),
        ensures
            !self.step().deliver_all(deliveries).key_pressed(key),
            !self.step().deliver_all(deliveries).key_released(key),
            self.step().deliver_all(deliveries).key_held(key) == self.key_held(key),
    {
        self.step().lemma_key_untouched(deliveries, key);
    }

    /// Deliveries that are no reports about `key` leave the key as it is.
    pub proof fn lemma_key_untouched(self, deliveries: Seq<Delivery<D>>, key: Key)
        requires
            forall|i: int| 0 <= i < deliveries.len() ==> !names_key(#[trigger] deliveries[i], key),
        ensures
            self.deliver_all(deliveries).key_pressed(key) == self.key_pressed(key),
            self.deliver_all(deliveries).key_released(key) == self.key_released(key),
            self.deliver_all(deliveries).key_held(key) == self.key_held(key),
        decreases deliveries.len(),
    {
        if deliveries.len() > 0 {
            self.lemma_deliver_other_key(deliveries[0], key);
            let rest = deliveries.drop_first();
            assert forall|i: int| 0 <= i < rest.len() implies !names_key(
                #[trigger] rest[i],
                key,
            ) by {
                assert(rest[i] == deliveries[i + 1]);
            }
            self.deliver(deliveries[0]).lemma_key_untouched(rest, key);
        }
    }

    /// A delivery that is no report about `button` leaves the button as it
    /// is: listed or not, down or up.
    pub proof fn lemma_deliver_other_button(self, delivery: Delivery<D>, button: MouseButton)
        requires
            !names_button(delivery, button),
        ensures
            self.deliver(delivery).mouse_buttons.pressed.contains(button)
                == self.mouse_buttons.pressed.contains(button),
            self.deliver(delivery).mouse_buttons.released.contains(button)
                == self.mouse_buttons.released.contains(button),
            self.deliver(delivery).mouse_buttons.held(button) == self.mouse_buttons.held(button),
    {
        if let Delivery::Window(WindowEvent::MouseInput { state, button: reported }) = delivery {
            self.mouse_buttons.lemma_record_other(reported, state.down(), button);
        }
    }

    /// A mouse button that no event of a frame reports is listed neither as
    /// pressed nor as released in that frame, and is down throughout the
    /// frame exactly if it was down before the frame began.
    pub proof fn lemma_unreported_button(self, deliveries: Seq<Delivery<D>>, button: MouseButton)
        requires
            forall|i: int|
                0 <= i < deliveries.len() ==> !names_button(#[trigger] deliveries[i], button),
        ensures
            !self.step().deliver_all(deliveries).mouse_buttons.pressed.contains(button),
            !self.step().deliver_all(deliveries).mouse_buttons.released.contains(button),
            self.step().deliver_all(deliveries).mouse_buttons.held(button)
                == self.mouse_buttons.held(button),
    {
        self.step().lemma_button_untouched(deliveries, button);
    }

    /// Deliveries that are no reports about `button` leave the button as it is.
    pub proof fn lemma_button_untouched(self, deliveries: Seq<Delivery<D>>, button: MouseButton)
        requires
            forall|i: int|
                0 <= i < deliveries.len() ==> !names_button(#[trigger] deliveries[i], button),
        ensures
            self.deliver_all(deliveries).mouse_buttons.pressed.contains(button)
                == self.mouse_buttons.pressed.contains(button),
            self.deliver_all(deliveries).mouse_buttons.released.contains(button)
                == self.mouse_buttons.released.contains(button),
            self.deliver_all(deliveries).mouse_buttons.held(button) == self.mouse_buttons.held(
                button,
            ),
        decreases deliveries.len(),
    {
        if deliveries.len() > 0 {
            self.lemma_deliver_other_button(deliveries[0], button);
            let rest = deliveries.drop_first();
            assert forall|i: int| 0 <= i < rest.len() implies !names_button(
                #[trigger] rest[i],
                button,
            ) by {
                assert(rest[i] == deliveries[i + 1]);
            }
            self.deliver(deliveries[0]).lemma_button_untouched(rest, button);
        }
    }

    /// Stepping twice in a row is stepping once. Stepping leaves every key
    /// and button down or up as it was, and leaves nothing behind of what
    /// belongs to one frame: no edge, no motion, no wheel movement, no resize
    /// notice, no cursor request.
    pub proof fn lemma_step_twice(self)
        ensures
            self.step().step() == self.step(),
            forall|key: Key| self.step().key_held(key) == self.key_held(key),
            forall|button: MouseButton|
                self.step().mouse_buttons.held(button) == self.mouse_buttons.held(button),
            forall|key: Key| !self.step().key_pressed(key) && !self.step().key_released(key),
            forall|button: MouseButton|
                !self.step().mouse_buttons.pressed.contains(button)
                    && !self.step().mouse_buttons.released.contains(button),
            self.step().mouse_motion == Seq::<(D, D)>::empty(),
            self.step().mouse_wheel == Seq::<D>::empty(),
            self.step().resized == None::<(i32, i32)>,
            self.step().cursor_action == CursorGrabAction::Unchanged,
            self.step().mouse_position == self.mouse_position,
            self.step().characters == self.characters,
            self.step().quit == self.quit,
            self.step().window_wheel == self.window_wheel,
    {
        self.keys.lemma_step_twice();
        self.code_keys.lemma_step_twice();
        self.mouse_buttons.lemma_step_twice();
    }

    /// Within a frame motions and wheel movements only pile up, and so does
    /// the text: after any deliveries the lists hold what they held before,
    /// then what the deliveries added, in order. Only a step empties the
    /// motions and the wheel movements, and not even a step touches the text.
    pub proof fn lemma_deliveries_accumulate(self, deliveries: Seq<Delivery<D>>)
        ensures
            self.deliver_all(deliveries).mouse_motion == self.mouse_motion + motions_of(
                deliveries,
            ),
            self.deliver_all(deliveries).mouse_wheel == self.mouse_wheel + wheels_of(
                deliveries,
                self.window_wheel,
            ),
            self.deliver_all(deliveries).characters == self.characters + texts_of(deliveries),
            self.deliver_all(deliveries).window_wheel == self.window_wheel,
        decreases deliveries.len(),
    {
        let policy = self.window_wheel;
        if deliveries.len() > 0 {
            let first = self.deliver(deliveries[0]);
            let rest = deliveries.drop_first();
            first.lemma_deliveries_accumulate(rest);
            assert((self.mouse_motion + motion_of(deliveries[0])) + motions_of(rest)
                =~= self.mouse_motion + motions_of(deliveries));
            assert((self.mouse_wheel + wheel_of(deliveries[0], policy)) + wheels_of(rest, policy)
                =~= self.mouse_wheel + wheels_of(deliveries, policy));
            assert((self.characters + text_of(deliveries[0])) + texts_of(rest) =~= self.characters
                + texts_of(deliveries));
        }
    }

    /// The wish to quit, once made, stays: no delivery and no step takes it
    /// back, nor makes it.
    pub proof fn lemma_quit_stays(self, deliveries: Seq<Delivery<D>>)
        ensures
            self.deliver_all(deliveries).quit == self.quit,
            self.step().quit == self.quit,
        decreases deliveries.len(),
    {
        if deliveries.len() > 0 {
            self.deliver(deliveries[0]).lemma_quit_stays(deliveries.drop_first());
        }
    }

    /// Device events that arrive while the window lacks the focus are
    /// dropped: they leave the whole state as it is.
    pub proof fn lemma_unfocused_dropped(self, deliveries: Seq<Delivery<D>>)
        requires
            forall|i: int|
                0 <= i < deliveries.len() ==> (#[trigger] deliveries[i]) matches Delivery::Device(
                    _,
                    false,
                ),
        ensures
            self.deliver_all(deliveries) == self,
        decreases deliveries.len(),
    {
        if deliveries.len() > 0 {
            let rest = deliveries.drop_first();
            assert forall|i: int| 0 <= i < rest.len() implies (#[trigger] rest[i]) matches
                Delivery::Device(_, false) by {
                assert(rest[i] == deliveries[i + 1]);
            }
            self.lemma_unfocused_dropped(rest);
        }
    }
}

} // verus!
