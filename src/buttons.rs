//! Button states: how a button reacts to the pointer and the mouse button,
//! and which sprite of its sheet it shows.
use vstd::prelude::*;

verus! {

/// The state of an on-screen button.
#[derive(Clone, Copy, PartialEq, Eq, Structural, Debug)]
pub enum ButtonState {
    NotHovered,
    Hovered,
    Pressed,
    PressedNotHovered,
}

/// One frame of pointer input as a button sees it: whether the pointer
/// moved and, if so, whether it is now over the button, and the left
/// button's edges.
#[derive(Clone, Copy, PartialEq, Eq, Structural, Debug)]
pub struct PointerInput {
    pub moved_in_bounds: Option<bool>,
    pub just_pressed: bool,
    pub just_released: bool,
}

/// The next state of a button and whether it fires its action: a press
/// released over the button fires it.
pub open spec fn button_step(s: ButtonState, i: PointerInput) -> (ButtonState, bool) {
    match s {
        ButtonState::NotHovered => if i.moved_in_bounds == Some(true) {
            (ButtonState::Hovered, false)
        } else {
            (s, false)
        },
        ButtonState::Hovered => if i.just_pressed {
            (ButtonState::Pressed, false)
        } else if i.moved_in_bounds == Some(false) {
            (ButtonState::NotHovered, false)
        } else {
            (s, false)
        },
        ButtonState::Pressed => if i.just_released {
            (ButtonState::Hovered, true)
        } else if i.moved_in_bounds == Some(false) {
            (ButtonState::PressedNotHovered, false)
        } else {
            (s, false)
        },
        ButtonState::PressedNotHovered => if i.just_released {
            (ButtonState::NotHovered, false)
        } else if i.moved_in_bounds == Some(true) {
            (ButtonState::Pressed, false)
        } else {
            (s, false)
        },
    }
}

/// Advances a button by one frame of input; returns its new state and
/// whether its action fires.
pub fn mouse_watcher(state: ButtonState, input: PointerInput) -> (r: (ButtonState, bool))
    ensures
        r == button_step(state, input),
{
    match state {
        ButtonState::NotHovered => {
            if input.moved_in_bounds == Some(true) {
                (ButtonState::Hovered, false)
            } else {
                (state, false)
            }
        },
        ButtonState::Hovered => {
            if input.just_pressed {
                (ButtonState::Pressed, false)
            } else if input.moved_in_bounds == Some(false) {
                (ButtonState::NotHovered, false)
            } else {
                (state, false)
            }
        },
        ButtonState::Pressed => {
            if input.just_released {
                (ButtonState::Hovered, true)
            } else if input.moved_in_bounds == Some(false) {
                (ButtonState::PressedNotHovered, false)
            } else {
                (state, false)
            }
        },
        ButtonState::PressedNotHovered => {
            if input.just_released {
                (ButtonState::NotHovered, false)
            } else if input.moved_in_bounds == Some(true) {
                (ButtonState::Pressed, false)
            } else {
                (state, false)
            }
        },
    }
}

/// The state of a button from scratch: `in_bounds` is `None` without a
/// pointer, else whether the pointer is over the button.
pub fn get_button_state(in_bounds: Option<bool>, mouse_pressed: bool) -> (r: ButtonState)
    ensures
        r == (if in_bounds == Some(true) {
            if mouse_pressed {
                ButtonState::Pressed
            } else {
                ButtonState::Hovered
            }
        } else {
            ButtonState::NotHovered
        }),
{
    match in_bounds {
        Some(true) => if mouse_pressed {
            ButtonState::Pressed
        } else {
            ButtonState::Hovered
        },
        _ => ButtonState::NotHovered,
    }
}

/// The sprite a button shows when it is created.
pub fn sprite_index(state: ButtonState) -> (r: usize)
    ensures
        r == (match state {
            ButtonState::NotHovered => 0usize,
            ButtonState::Hovered => 1,
            _ => 2,
        }),
{
    match state {
        ButtonState::NotHovered => 0,
        ButtonState::Hovered => 1,
        ButtonState::Pressed | ButtonState::PressedNotHovered => 2,
    }
}

/// The sprite a button switches to when its state changes; a press dragged
/// off the button keeps the sprite it has.
pub fn watch_button_state_changes(state: ButtonState) -> (r: Option<usize>)
    ensures
        r == (match state {
            ButtonState::NotHovered => Some(0usize),
            ButtonState::Hovered => Some(1usize),
            ButtonState::Pressed => Some(2usize),
            ButtonState::PressedNotHovered => None,
        }),
{
    match state {
        ButtonState::NotHovered => Some(0),
        ButtonState::Hovered => Some(1),
        ButtonState::Pressed => Some(2),
        ButtonState::PressedNotHovered => None,
    }
}

} // verus!
