//! The input dispatcher: one event in, one step of the state machine.
//!
//! `Corrosion` holds what input handling needs to know of the compositor:
//! the window stack, the outputs, the seat's devices, keyboard focus, the
//! pointer's place and its grab slot, and the serial counter. `step` says,
//! as a function of a state and an event, what state follows and what the
//! seat is handed; `process_input_event` carries that step out.

use vstd::prelude::*;
use crate::axis::{axis_frame, spec_axis_frame, AxisAmount, AxisSource};
use crate::event::{
    spec_transformed, transformed, ButtonEvent, ButtonResponse, DispatchError, InputEvent,
    MotionEvent, Outcome,
};
use crate::geometry::{Point, Rect};
use crate::grab::{
    grab_for, move_target, resize_target, spec_grab_for, spec_move_target, spec_resize_target, Grab,
};
use crate::keybinding::{key_filter, spec_key_filter, Config, KeyState, ModifierState};
use crate::serial::{Serial, SerialCounter};
use crate::window::{
    all_deactivated, raised, topmost_at, with_acknowledged, with_location, with_proposal,
    with_settled, Proposal, Window, WindowStack,
};

verus! {

/// The state of input handling.
#[derive(Clone, Debug, PartialEq, Eq)]
pub struct Corrosion {
    pub config: Config,
    pub serials: SerialCounter,
    pub windows: WindowStack,
    /// The outputs' geometries; absolute positions are placed on the first.
    pub outputs: Vec<Rect>,
    /// Whether the seat has a keyboard.
    pub has_keyboard: bool,
    /// Whether the seat has a pointer.
    pub has_pointer: bool,
    /// Where the pointer is.
    pub pointer_location: Point,
    /// The modifiers as of the latest key event.
    pub modifiers: ModifierState,
    /// The window that has keyboard focus.
    pub focus: Option<u64>,
    /// The pointer's grab slot.
    pub grab: Grab,
}

/// The state as the contracts see it.
pub struct State {
    pub config: Config,
    pub next_serial: u64,
    pub windows: Seq<Window>,
    pub outputs: Seq<Rect>,
    pub has_keyboard: bool,
    pub has_pointer: bool,
    pub pointer_location: Point,
    pub modifiers: ModifierState,
    pub focus: Option<u64>,
    pub grab: Grab,
}

/// One step of the dispatcher: the state that follows, and what the caller
/// is handed.
pub struct Step {
    pub state: State,
    pub result: Result<Outcome, DispatchError>,
}

impl View for Corrosion {
    type V = State;

    open spec fn view(&self) -> State {
        State {
            config: self.config,
            next_serial: self.serials.next,
            windows: self.windows@,
            outputs: self.outputs@,
            has_keyboard: self.has_keyboard,
            has_pointer: self.has_pointer,
            pointer_location: self.pointer_location,
            modifiers: self.modifiers,
            focus: self.focus,
            grab: self.grab,
        }
    }
}

/// A dropped event: the state stays as it was.
pub open spec fn dropped(pre: State, error: DispatchError) -> Step {
    Step { state: pre, result: Err(error) }
}

/// The id of the topmost window under `p`.
pub open spec fn window_under(windows: Seq<Window>, p: Point) -> Option<u64> {
    match topmost_at(windows, p) {
        Some(i) => Some(windows[i].id),
        None => None,
    }
}

/// The state with its grab slot emptied: what still waits at the grabbed
/// window is dropped, so the window keeps the geometry it acknowledged last.
pub open spec fn released(pre: State) -> State {
    match pre.grab.spec_window() {
        Some(window) => State {
            grab: Grab::Idle,
            windows: with_settled(pre.windows, window),
            ..pre
        },
        None => pre,
    }
}

/// What the active grab makes of the pointer arriving at `pointer`: a move
/// places its window at once; a resize proposes a geometry under `serial`.
pub open spec fn grab_motion(pre: State, pointer: Point, serial: Serial) -> Seq<Window> {
    match pre.grab {
        Grab::Idle => pre.windows,
        Grab::Move { start, window, initial_location } => with_location(
            pre.windows,
            window,
            spec_move_target(start.location, initial_location, pointer),
        ),
        Grab::Resize { start, window, edges, initial_rect } => with_proposal(
            pre.windows,
            window,
            Proposal {
                serial,
                rect: spec_resize_target(
                    edges,
                    initial_rect,
                    start.location,
                    pointer,
                    pre.config.min_size,
                ),
            },
        ),
    }
}

/// A key event: the modifier snapshot is taken over, a serial is minted, and
/// the filter decides between the client and a binding.
pub open spec fn key_step(
    pre: State,
    time: u32,
    key_code: u32,
    state: KeyState,
    keysym: u32,
    modifiers: ModifierState,
) -> Step {
    if !pre.has_keyboard {
        dropped(pre, DispatchError::MissingKeyboard)
    } else if pre.next_serial == u64::MAX {
        dropped(pre, DispatchError::SerialsExhausted)
    } else {
        Step {
            state: State { next_serial: (pre.next_serial + 1) as u64, modifiers, ..pre },
            result: Ok(
                Outcome::Key {
                    serial: Serial { value: pre.next_serial },
                    time,
                    key_code,
                    state,
                    filter: spec_key_filter(pre.config, modifiers, keysym, state),
                },
            ),
        }
    }
}

/// A relative motion: passed on, with nothing decided.
pub open spec fn relative_step(pre: State, time: u32, dx: i32, dy: i32) -> Step {
    if !pre.has_pointer {
        dropped(pre, DispatchError::MissingPointer)
    } else {
        Step { state: pre, result: Ok(Outcome::RelativeMotion { time, dx, dy }) }
    }
}

/// An absolute motion: the position is placed on the first output, a serial
/// is minted, the window under the pointer is looked up where the pointer
/// stands as the event arrives, the pointer goes to the new position, and an
/// active grab follows it.
pub open spec fn motion_step(pre: State, time: u32, x: u32, y: u32) -> Step {
    if pre.outputs.len() == 0 {
        dropped(pre, DispatchError::NoOutput)
    } else if !pre.has_pointer {
        dropped(pre, DispatchError::MissingPointer)
    } else if pre.next_serial == u64::MAX {
        dropped(pre, DispatchError::SerialsExhausted)
    } else {
        let location = spec_transformed(pre.outputs[0], x, y);
        let serial = Serial { value: pre.next_serial };
        Step {
            state: State {
                next_serial: (pre.next_serial + 1) as u64,
                pointer_location: location,
                windows: grab_motion(pre, location, serial),
                ..pre
            },
            result: Ok(
                Outcome::Motion {
                    under: window_under(pre.windows, pre.pointer_location),
                    motion: MotionEvent { location, serial, time },
                },
            ),
        }
    }
}

/// A press with no grab active. On a window: it is raised, activated in
/// place of all others, and focused, and with the logo key held the button
/// may begin a grab. On no window: all
/// windows are deactivated and keyboard focus is cleared.
pub open spec fn press_step(pre: State, next_serial: u64, event: ButtonEvent) -> Step {
    match topmost_at(pre.windows, pre.pointer_location) {
        Some(i) => {
            let hit = pre.windows[i];
            let grab = if pre.modifiers.logo {
                spec_grab_for(event.button, pre.pointer_location, hit.id, hit.rect)
            } else {
                Grab::Idle
            };
            Step {
                state: State {
                    next_serial,
                    windows: raised(pre.windows, i, true),
                    focus: Some(hit.id),
                    grab,
                    ..pre
                },
                result: Ok(
                    Outcome::Button {
                        response: ButtonResponse::Hit { window: hit.id, grab },
                        event,
                    },
                ),
            }
        },
        None => Step {
            state: State {
                next_serial,
                windows: all_deactivated(pre.windows),
                focus: None,
                ..pre
            },
            result: Ok(Outcome::Button { response: ButtonResponse::Miss, event }),
        },
    }
}

/// A button event: a serial is minted; a press with no grab active sets
/// focus; the release of the button that began the grab ends it; and the
/// event is forwarded in every case.
pub open spec fn button_step(pre: State, time: u32, button: u32, state: KeyState) -> Step {
    if !pre.has_pointer {
        dropped(pre, DispatchError::MissingPointer)
    } else if !pre.has_keyboard {
        dropped(pre, DispatchError::MissingKeyboard)
    } else if pre.next_serial == u64::MAX {
        dropped(pre, DispatchError::SerialsExhausted)
    } else {
        let next_serial = (pre.next_serial + 1) as u64;
        let event = ButtonEvent { button, state, serial: Serial { value: pre.next_serial }, time };
        if state == KeyState::Pressed && pre.grab is Idle {
            press_step(pre, next_serial, event)
        } else if state == KeyState::Released && pre.grab.spec_ends_on(button) {
            Step {
                state: State { next_serial, ..released(pre) },
                result: Ok(
                    Outcome::Button {
                        response: ButtonResponse::GrabEnded {
                            window: pre.grab.spec_window().unwrap(),
                        },
                        event,
                    },
                ),
            }
        } else {
            Step {
                state: State { next_serial, ..pre },
                result: Ok(Outcome::Button { response: ButtonResponse::Passed, event }),
            }
        }
    }
}

/// A scroll event: one frame for both axes, and no serial.
pub open spec fn axis_step(
    pre: State,
    time: u32,
    source: AxisSource,
    horizontal: AxisAmount,
    vertical: AxisAmount,
) -> Step {
    if !pre.has_pointer {
        dropped(pre, DispatchError::MissingPointer)
    } else {
        Step {
            state: pre,
            result: Ok(Outcome::Axis { frame: spec_axis_frame(time, source, horizontal, vertical) }),
        }
    }
}

/// The step that `event` takes from the state `pre`.
pub open spec fn step(pre: State, event: InputEvent) -> Step {
    match event {
        InputEvent::Keyboard { time, key_code, state, keysym, modifiers } => key_step(
            pre,
            time,
            key_code,
            state,
            keysym,
            modifiers,
        ),
        InputEvent::PointerMotion { time, dx, dy } => relative_step(pre, time, dx, dy),
        InputEvent::PointerMotionAbsolute { time, x, y } => motion_step(pre, time, x, y),
        InputEvent::PointerButton { time, button, state } => button_step(pre, time, button, state),
        InputEvent::PointerAxis { time, source, horizontal, vertical } => axis_step(
            pre,
            time,
            source,
            horizontal,
            vertical,
        ),
        InputEvent::Other => Step { state: pre, result: Ok(Outcome::Ignored) },
    }
}

impl Corrosion {
    /// A state with no window, no output, both devices present, the pointer
    /// at the origin, no modifier held, no focus and no grab.
    pub fn new(config: Config) -> (r: Corrosion)
        ensures
            r@ == (State {
                config,
                next_serial: 1,
                windows: Seq::<Window>::empty(),
                outputs: Seq::<Rect>::empty(),
                has_keyboard: true,
                has_pointer: true,
                pointer_location: Point { x: 0, y: 0 },
                modifiers: ModifierState {
                    shift: false,
                    ctrl: false,
                    alt: false,
                    logo: false,
                    caps_lock: false,
                    num_lock: false,
                },
                focus: None,
                grab: Grab::Idle,
            }),
    {
        Corrosion {
            config,
            serials: SerialCounter::new(),
            windows: WindowStack::new(),
            outputs: Vec::new(),
            has_keyboard: true,
            has_pointer: true,
            pointer_location: Point { x: 0, y: 0 },
            modifiers: ModifierState::none(),
            focus: None,
            grab: Grab::Idle,
        }
    }

    /// Adds an output behind those already there.
    pub fn add_output(&mut self, geometry: Rect)
        ensures
            final(self)@ == (State { outputs: old(self)@.outputs.push(geometry), ..old(self)@ }),
    {
        self.outputs.push(geometry);
    }

    /// Maps a window on top of the stack.
    pub fn map_window(&mut self, window: Window)
        ensures
            final(self)@ == (State { windows: old(self)@.windows.push(window), ..old(self)@ }),
    {
        self.windows.map_window(window);
    }

    /// Whether a grab is active.
    pub fn is_grabbed(&self) -> (r: bool)
        ensures
            r == self@.grab.spec_is_active(),
    {
        self.grab.is_active()
    }

    /// Empties the grab slot, whatever the buttons do: for a grabbed window
    /// that is going away. What still waits at the window is dropped.
    pub fn abort_grab(&mut self)
        ensures
            final(self)@ == released(old(self)@),
            !final(self)@.grab.spec_is_active(),
    {
        match self.grab.window() {
            Some(window) => {
                self.windows.settle(window);
                self.grab = Grab::Idle;
            },
            None => {},
        }
    }

    /// Takes the acknowledgment of the window `id` for what was proposed to
    /// it under `serial`: the proposal becomes the window's geometry if it
    /// is the one still waiting, and nothing changes otherwise.
    pub fn acknowledge_configure(&mut self, id: u64, serial: Serial)
        ensures
            final(self)@ == (State {
                windows: with_acknowledged(old(self)@.windows, id, serial),
                ..old(self)@
            }),
    {
        self.windows.acknowledge(id, serial);
    }

    fn on_key(
        &mut self,
        time: u32,
        key_code: u32,
        state: KeyState,
        keysym: u32,
        modifiers: ModifierState,
    ) -> (r: Result<Outcome, DispatchError>)
        ensures
            (Step { state: final(self)@, result: r }) == key_step(
                old(self)@,
                time,
                key_code,
                state,
                keysym,
                modifiers,
            ),
    {
        if !self.has_keyboard {
            return Err(DispatchError::MissingKeyboard);
        }
        if self.serials.exhausted() {
            return Err(DispatchError::SerialsExhausted);
        }
        let serial = self.serials.next_serial();
        self.modifiers = modifiers;
        let filter = key_filter(&self.config, modifiers, keysym, state);
        Ok(Outcome::Key { serial, time, key_code, state, filter })
    }

    fn on_motion(&mut self, time: u32, x: u32, y: u32) -> (r: Result<Outcome, DispatchError>)
        ensures
            (Step { state: final(self)@, result: r }) == motion_step(old(self)@, time, x, y),
    {
        if self.outputs.len() == 0 {
            return Err(DispatchError::NoOutput);
        }
        if !self.has_pointer {
            return Err(DispatchError::MissingPointer);
        }
        if self.serials.exhausted() {
            return Err(DispatchError::SerialsExhausted);
        }
        let location = transformed(self.outputs[0], x, y);
        let serial = self.serials.next_serial();
        let under = match self.windows.element_under(self.pointer_location) {
            Some(i) => Some(self.windows.windows[i].id),
            None => None,
        };
        self.pointer_location = location;
        match self.grab {
            Grab::Idle => {},
            Grab::Move { start, window, initial_location } => {
                let target = move_target(start.location, initial_location, location);
                self.windows.set_location(window, target);
            },
            Grab::Resize { start, window, edges, initial_rect } => {
                let rect = resize_target(
                    edges,
                    initial_rect,
                    start.location,
                    location,
                    self.config.min_size,
                );
                self.windows.propose(window, Proposal { serial, rect });
            },
        }
        Ok(Outcome::Motion { under, motion: MotionEvent { location, serial, time } })
    }

    fn on_press(&mut self, event: ButtonEvent) -> (r: Result<Outcome, DispatchError>)
        ensures
            (Step { state: final(self)@, result: r }) == press_step(
                old(self)@,
                old(self)@.next_serial,
                event,
            ),
    {
        match self.windows.element_under(self.pointer_location) {
            Some(i) => {
                let hit = self.windows.windows[i];
                self.windows.raise_element(i, true);
                self.focus = Some(hit.id);
                let grab = if self.modifiers.logo {
                    grab_for(event.button, self.pointer_location, hit.id, hit.rect)
                } else {
                    Grab::Idle
                };
                self.grab = grab;
                Ok(Outcome::Button { response: ButtonResponse::Hit { window: hit.id, grab }, event })
            },
            None => {
                self.windows.deactivate_all();
                self.focus = None;
                Ok(Outcome::Button { response: ButtonResponse::Miss, event })
            },
        }
    }

    fn on_button(&mut self, time: u32, button: u32, state: KeyState) -> (r: Result<
        Outcome,
        DispatchError,
    >)
        ensures
            (Step { state: final(self)@, result: r }) == button_step(
                old(self)@,
                time,
                button,
                state,
            ),
    {
        if !self.has_pointer {
            return Err(DispatchError::MissingPointer);
        }
        if !self.has_keyboard {
            return Err(DispatchError::MissingKeyboard);
        }
        if self.serials.exhausted() {
            return Err(DispatchError::SerialsExhausted);
        }
        let serial = self.serials.next_serial();
        let event = ButtonEvent { button, state, serial, time };
        let pressed = match state {
            KeyState::Pressed => true,
            KeyState::Released => false,
        };
        if pressed && !self.grab.is_active() {
            self.on_press(event)
        } else if !pressed && self.grab.ends_on(button) {
            match self.grab.window() {
                Some(window) => {
                    self.windows.settle(window);
                    self.grab = Grab::Idle;
                    Ok(
                        Outcome::Button {
                            response: ButtonResponse::GrabEnded { window },
                            event,
                        },
                    )
                },
                None => Ok(Outcome::Button { response: ButtonResponse::Passed, event }),
            }
        } else {
            Ok(Outcome::Button { response: ButtonResponse::Passed, event })
        }
    }

    /// Dispatches one input event: takes the step that `step` describes.
    ///
    /// An event is dropped, and the state left as it was, where the seat
    /// lacks the device the event needs, where an absolute position has no
    /// output to land on, or where no serial is left for an event that
    /// takes one. A key event updates the modifiers and is filtered for
    /// bindings; an absolute motion moves the pointer and lets an active
    /// grab follow; a button event sets focus, begins or ends a grab, and is
    /// forwarded whatever else it did; a scroll event becomes one frame.
    pub fn process_input_event(&mut self, event: InputEvent) -> (r: Result<Outcome, DispatchError>)
        ensures
            (Step { state: final(self)@, result: r }) == step(old(self)@, event),
    {
        match event {
            InputEvent::Keyboard { time, key_code, state, keysym, modifiers } => self.on_key(
                time,
                key_code,
                state,
                keysym,
                modifiers,
            ),
            InputEvent::PointerMotion { time, dx, dy } => {
                if !self.has_pointer {
                    Err(DispatchError::MissingPointer)
                } else {
                    Ok(Outcome::RelativeMotion { time, dx, dy })
                }
            },
            InputEvent::PointerMotionAbsolute { time, x, y } => self.on_motion(time, x, y),
            InputEvent::PointerButton { time, button, state } => self.on_button(time, button, state),
            InputEvent::PointerAxis { time, source, horizontal, vertical } => {
                if !self.has_pointer {
                    Err(DispatchError::MissingPointer)
                } else {
                    Ok(Outcome::Axis { frame: axis_frame(time, source, horizontal, vertical) })
                }
            },
            InputEvent::Other => Ok(Outcome::Ignored),
        }
    }
}

} // verus!
