//! Key input: the digits pick the shading variant, `M` shows or hides the
//! secondary body. Only a key going down does anything. What a key has
//! selected can be said on the console; the words for that are here too.

use vstd::prelude::*;
use crate::state::{RenderState, STYLE_COUNT};

verus! {

/// The physical keys that matter, and one value for all the others.
#[derive(Clone, Copy, Debug, PartialEq, Eq, Structural)]
pub enum Key {
    Digit1,
    Digit2,
    Digit3,
    Digit4,
    Digit5,
    /// The key that shows or hides the secondary body.
    KeyM,
    /// Any other key.
    Other,
}

/// Whether the key went down or came up.
#[derive(Clone, Copy, Debug, PartialEq, Eq, Structural)]
pub enum PressState {
    Pressed,
    Released,
}

/// The style that a key selects, if it is a digit key.
pub open spec fn style_of(key: Key) -> Option<u32> {
    match key {
        Key::Digit1 => Some(0u32),
        Key::Digit2 => Some(1u32),
        Key::Digit3 => Some(2u32),
        Key::Digit4 => Some(3u32),
        Key::Digit5 => Some(4u32),
        _ => None,
    }
}

/// Whether the event is taken: a digit key or `M`, going down.
pub open spec fn consumes(key: Key, press: PressState) -> bool {
    press == PressState::Pressed && key != Key::Other
}

impl RenderState {
    /// The state after a key event.
    pub open spec fn after_key(self, key: Key, press: PressState) -> RenderState {
        if press != PressState::Pressed {
            self
        } else if key == Key::KeyM {
            RenderState { show_secondary: !self.show_secondary, ..self }
        } else {
            match style_of(key) {
                Some(style_id) => RenderState { style_id, ..self },
                None => self,
            }
        }
    }

    /// Handles one key event and says whether it was taken. An event that is
    /// not taken changes nothing and is the caller's to handle.
    pub fn handle_key(&mut self, key: Key, press: PressState) -> (consumed: bool)
        ensures
            *final(self) == old(self).after_key(key, press),
            consumed == consumes(key, press),
            !consumed ==> *final(self) == *old(self),
            old(self).wf() ==> final(self).wf(),
    {
        match press {
            PressState::Released => false,
            PressState::Pressed => match key {
                Key::Digit1 => {
                    self.style_id = 0;
                    true
                },
                Key::Digit2 => {
                    self.style_id = 1;
                    true
                },
                Key::Digit3 => {
                    self.style_id = 2;
                    true
                },
                Key::Digit4 => {
                    self.style_id = 3;
                    true
                },
                Key::Digit5 => {
                    self.style_id = 4;
                    true
                },
                Key::KeyM => {
                    self.show_secondary = !self.show_secondary;
                    true
                },
                Key::Other => false,
            },
        }
    }
}

/// The name of a style, as it is shown to the user.
pub open spec fn style_label(style_id: u32) -> Seq<char> {
    if style_id == 0 {
        "Planeta Rocoso"@
    } else if style_id == 1 {
        "Gigante Gaseoso"@
    } else if style_id == 2 {
        "Planeta de Lava"@
    } else if style_id == 3 {
        "Planeta de Cristal"@
    } else {
        "Planeta con Océanos"@
    }
}

/// What is said after a key event that was taken, given the state that the
/// event has left: the name of the style after a digit key, and whether the
/// moon is now on or off after `M`. Nothing is said of a style that does not
/// exist.
pub open spec fn announcement_for(state: RenderState, key: Key, press: PressState) -> Option<
    Seq<char>,
> {
    if press != PressState::Pressed || key == Key::Other {
        None
    } else if key == Key::KeyM {
        if state.show_secondary {
            Some("Luna: Activada"@)
        } else {
            Some("Luna: Desactivada"@)
        }
    } else if state.style_id < STYLE_COUNT {
        Some(style_label(state.style_id))
    } else {
        None
    }
}

/// The name of a style, for the styles that exist.
pub fn style_name(style_id: u32) -> (name: Option<&'static str>)
    ensures
        match name {
            Some(text) => style_id < STYLE_COUNT && text@ == style_label(style_id),
            None => style_id >= STYLE_COUNT,
        },
{
    if style_id == 0 {
        Some("Planeta Rocoso")
    } else if style_id == 1 {
        Some("Gigante Gaseoso")
    } else if style_id == 2 {
        Some("Planeta de Lava")
    } else if style_id == 3 {
        Some("Planeta de Cristal")
    } else if style_id == 4 {
        Some("Planeta con Océanos")
    } else {
        None
    }
}

/// What to say on the console after a key event, given the state that the
/// event has left. Events that were not taken are passed over in silence.
pub fn announcement(state: &RenderState, key: Key, press: PressState) -> (text: Option<
    &'static str,
>)
    ensures
        match text {
            Some(words) => announcement_for(*state, key, press) == Some(words@),
            None => announcement_for(*state, key, press) is None,
        },
{
    match press {
        PressState::Released => None,
        PressState::Pressed => match key {
            Key::Other => None,
            Key::KeyM => if state.show_secondary {
                Some("Luna: Activada")
            } else {
                Some("Luna: Desactivada")
            },
            _ => style_name(state.style_id),
        },
    }
}

/// Pressing the toggle key twice leaves the state as it was.
pub proof fn lemma_toggle_twice(state: RenderState)
    ensures
        state.after_key(Key::KeyM, PressState::Pressed).after_key(Key::KeyM, PressState::Pressed)
            == state,
        state.after_key(Key::KeyM, PressState::Pressed).show_secondary != state.show_secondary,
{
}

/// A digit key going down selects its style, whatever the state was; the
/// style is always one of the variants afterwards.
pub proof fn lemma_digit_selects_style(state: RenderState, key: Key)
    requires
        style_of(key) is Some,
    ensures
        state.after_key(key, PressState::Pressed).style_id == style_of(key).unwrap(),
        state.after_key(key, PressState::Pressed).style_id < STYLE_COUNT,
        state.after_key(key, PressState::Pressed).show_secondary == state.show_secondary,
{
}

/// Every event that is taken is announced, and no other.
pub proof fn lemma_taken_events_are_announced(state: RenderState, key: Key, press: PressState)
    ensures
        announcement_for(state.after_key(key, press), key, press) is Some <==> consumes(key, press),
{
}

/// Key input touches the style and the visibility of the secondary body and
/// nothing else, and an event that is not taken touches nothing at all.
pub proof fn lemma_input_frame(state: RenderState, key: Key, press: PressState)
    ensures
        state.after_key(key, press).time == state.time,
        state.after_key(key, press).camera_angle == state.camera_angle,
        state.after_key(key, press).surface_size == state.surface_size,
        !consumes(key, press) ==> state.after_key(key, press) == state,
        state.wf() ==> state.after_key(key, press).wf(),
{
}

} // verus!
