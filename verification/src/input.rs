//! Which buttons went down, came up or are held since the last update.

use vstd::prelude::*;
use std::collections::HashSet;

verus! {

broadcast use vstd::std_specs::hash::group_hash_axioms;

/// Whether a button went down or came up.
#[derive(Clone, Copy, Debug, PartialEq, Eq, Structural)]
pub enum ElementState {
    Pressed,
    Released,
}

/// An event of the window, as far as input reads it. Keys and mouse buttons
/// are named by their codes.
#[derive(Clone, Copy, Debug, PartialEq, Eq, Structural)]
pub enum ButtonEvent {
    Key { keycode: u32, state: ElementState },
    /// A key event that names no key.
    UnknownKey,
    MouseButton { button: u32, state: ElementState },
    CursorMoved,
    Other,
}

/// The buttons of one device.
pub struct ButtonSet {
    pressed_buttons: HashSet<u32>,
    released_buttons: HashSet<u32>,
    held_buttons: HashSet<u32>,
}

/// Keys and mouse buttons.
pub struct Input {
    keys: ButtonSet,
    mouse_buttons: ButtonSet,
}

/// The three sets of a [`ButtonSet`] as values.
pub struct Buttons {
    pub pressed: Set<u32>,
    pub released: Set<u32>,
    pub held: Set<u32>,
}

/// The sets after `button` changed to `state`: a button that goes down is
/// held, and counts as pressed unless it was held already; one that comes up
/// is released and no longer held.
pub open spec fn buttons_after(buttons: Buttons, button: u32, state: ElementState) -> Buttons {
    match state {
        ElementState::Pressed => Buttons {
            pressed: if buttons.held.contains(button) {
                buttons.pressed
            } else {
                buttons.pressed.insert(button)
            },
            released: buttons.released,
            held: buttons.held.insert(button),
        },
        ElementState::Released => Buttons {
            pressed: buttons.pressed,
            released: buttons.released.insert(button),
            held: buttons.held.remove(button),
        },
    }
}

impl ButtonSet {
    pub closed spec fn view(&self) -> Buttons {
        Buttons {
            pressed: self.pressed_buttons@,
            released: self.released_buttons@,
            held: self.held_buttons@,
        }
    }

    /// No button is pressed, released or held.
    pub fn new() -> (r: ButtonSet)
        ensures
            r@.pressed == Set::<u32>::empty(),
            r@.released == Set::<u32>::empty(),
            r@.held == Set::<u32>::empty(),
    {
        ButtonSet {
            pressed_buttons: HashSet::new(),
            released_buttons: HashSet::new(),
            held_buttons: HashSet::new(),
        }
    }

    /// Whether the button went down since the last update.
    pub fn was_button_pressed(&self, button: u32) -> (r: bool)
        ensures
            r == self@.pressed.contains(button),
    {
        self.pressed_buttons.contains(&button)
    }

    /// Whether the button came up since the last update.
    pub fn was_button_released(&self, button: u32) -> (r: bool)
        ensures
            r == self@.released.contains(button),
    {
        self.released_buttons.contains(&button)
    }

    pub fn is_button_held(&self, button: u32) -> (r: bool)
        ensures
            r == self@.held.contains(button),
    {
        self.held_buttons.contains(&button)
    }

    pub fn button_state_changed(&mut self, button: u32, state: ElementState)
        ensures
            final(self)@ == buttons_after(old(self)@, button, state),
    {
        match state {
            ElementState::Pressed => {
                if self.held_buttons.insert(button) {
                    self.pressed_buttons.insert(button);
                }
            },
            ElementState::Released => {
                self.released_buttons.insert(button);
                self.held_buttons.remove(&button);
            },
        }
    }

    /// Starts a new frame: forgets what was pressed and released; what is
    /// held stays held.
    pub fn update(&mut self)
        ensures
            final(self)@.pressed == Set::<u32>::empty(),
            final(self)@.released == Set::<u32>::empty(),
            final(self)@.held == old(self)@.held,
    {
        self.pressed_buttons.clear();
        self.released_buttons.clear();
    }
}

impl Input {
    pub closed spec fn keys(&self) -> Buttons {
        self.keys@
    }

    pub closed spec fn mouse_buttons(&self) -> Buttons {
        self.mouse_buttons@
    }

    pub fn new() -> (r: Input)
        ensures
            r.keys().pressed == Set::<u32>::empty(),
            r.keys().released == Set::<u32>::empty(),
            r.keys().held == Set::<u32>::empty(),
            r.mouse_buttons().pressed == Set::<u32>::empty(),
            r.mouse_buttons().released == Set::<u32>::empty(),
            r.mouse_buttons().held == Set::<u32>::empty(),
    {
        Input { keys: ButtonSet::new(), mouse_buttons: ButtonSet::new() }
    }

    /// Takes in a window event. Returns whether the event was one of input:
    /// a key with a known code, a mouse button or a cursor move.
    pub fn process_button(&mut self, event: ButtonEvent) -> (handled: bool)
        ensures
            handled == !(event is Other || event is UnknownKey),
            final(self).keys() == match event {
                ButtonEvent::Key { keycode, state } => buttons_after(
                    old(self).keys(),
                    keycode,
                    state,
                ),
                _ => old(self).keys(),
            },
            final(self).mouse_buttons() == match event {
                ButtonEvent::MouseButton { button, state } => buttons_after(
                    old(self).mouse_buttons(),
                    button,
                    state,
                ),
                _ => old(self).mouse_buttons(),
            },
    {
        match event {
            ButtonEvent::Key { keycode, state } => {
                self.key_state_changed(keycode, state);
            },
            ButtonEvent::MouseButton { button, state } => {
                self.mouse_button_state_changed(button, state);
            },
            ButtonEvent::CursorMoved => {},
            ButtonEvent::UnknownKey => {
                return false;
            },
            ButtonEvent::Other => {
                return false;
            },
        }
        true
    }

    pub fn was_key_pressed(&self, keycode: u32) -> (r: bool)
        ensures
            r == self.keys().pressed.contains(keycode),
    {
        self.keys.was_button_pressed(keycode)
    }

    pub fn was_key_released(&self, keycode: u32) -> (r: bool)
        ensures
            r == self.keys().released.contains(keycode),
    {
        self.keys.was_button_released(keycode)
    }

    pub fn is_key_held(&self, keycode: u32) -> (r: bool)
        ensures
            r == self.keys().held.contains(keycode),
    {
        self.keys.is_button_held(keycode)
    }

    pub fn was_mouse_button_pressed(&self, button: u32) -> (r: bool)
        ensures
            r == self.mouse_buttons().pressed.contains(button),
    {
        self.mouse_buttons.was_button_pressed(button)
    }

    pub fn was_mouse_button_released(&self, button: u32) -> (r: bool)
        ensures
            r == self.mouse_buttons().released.contains(button),
    {
        self.mouse_buttons.was_button_released(button)
    }

    pub fn is_mouse_button_held(&self, button: u32) -> (r: bool)
        ensures
            r == self.mouse_buttons().held.contains(button),
    {
        self.mouse_buttons.is_button_held(button)
    }

    pub fn key_state_changed(&mut self, keycode: u32, state: ElementState)
        ensures
            final(self).keys() == buttons_after(old(self).keys(), keycode, state),
            final(self).mouse_buttons() == old(self).mouse_buttons(),
    {
        self.keys.button_state_changed(keycode, state);
    }

    pub fn mouse_button_state_changed(&mut self, button: u32, state: ElementState)
        ensures
            final(self).mouse_buttons() == buttons_after(old(self).mouse_buttons(), button, state),
            final(self).keys() == old(self).keys(),
    {
        self.mouse_buttons.button_state_changed(button, state);
    }

    /// Starts a new frame for keys and mouse buttons alike.
    pub fn update(&mut self)
        ensures
            final(self).keys().pressed == Set::<u32>::empty(),
            final(self).keys().released == Set::<u32>::empty(),
            final(self).keys().held == old(self).keys().held,
            final(self).mouse_buttons().pressed == Set::<u32>::empty(),
            final(self).mouse_buttons().released == Set::<u32>::empty(),
            final(self).mouse_buttons().held == old(self).mouse_buttons().held,
    {
        self.keys.update();
        self.mouse_buttons.update();
    }
}

} // verus!
