use vstd::prelude::*;

use crate::text::str_eq;

verus! {

/// A button of one of the wireless switches.
#[derive(Debug, Clone, Copy, PartialEq, Eq, Structural)]
pub enum ControllerButton {
    On,
    Off,
    Left,
    Right,
    Up,
    Down,
}

/// What happened to a button: it was pressed, or it was released after a press.
#[derive(Debug, Clone, Copy, PartialEq, Eq, Structural)]
pub enum ButtonAction {
    Press(ControllerButton),
    Release(ControllerButton),
}

/// The message a switch publishes when one of its buttons is used.
#[derive(Debug, Clone, Copy, PartialEq, Eq, Structural)]
pub struct ButtonMessage {
    pub action: ButtonAction,
}

/// The action that a lower-case action name stands for, if any.
///
/// The first four names are sent by the Ikea switch, the others by the
/// Phillips switch.
pub open spec fn action_named(name: Seq<char>) -> Option<ButtonAction> {
    if name == "on"@ {
        Some(ButtonAction::Press(ControllerButton::On))
    } else if name == "off"@ {
        Some(ButtonAction::Press(ControllerButton::Off))
    } else if name == "arrow_left_click"@ {
        Some(ButtonAction::Press(ControllerButton::Left))
    } else if name == "arrow_right_click"@ {
        Some(ButtonAction::Press(ControllerButton::Right))
    } else if name == "on_press"@ {
        Some(ButtonAction::Press(ControllerButton::On))
    } else if name == "off_press"@ {
        Some(ButtonAction::Press(ControllerButton::Off))
    } else if name == "up_press"@ {
        Some(ButtonAction::Press(ControllerButton::Up))
    } else if name == "down_press"@ {
        Some(ButtonAction::Press(ControllerButton::Down))
    } else if name == "on_press_release"@ {
        Some(ButtonAction::Release(ControllerButton::On))
    } else if name == "off_press_release"@ {
        Some(ButtonAction::Release(ControllerButton::Off))
    } else if name == "up_press_release"@ {
        Some(ButtonAction::Release(ControllerButton::Up))
    } else if name == "down_press_release"@ {
        Some(ButtonAction::Release(ControllerButton::Down))
    } else {
        None
    }
}

/// Whether `name` is one of the action names that the two switches send.
pub open spec fn is_known_action_name(name: Seq<char>) -> bool {
    ||| name == "on"@
    ||| name == "off"@
    ||| name == "arrow_left_click"@
    ||| name == "arrow_right_click"@
    ||| name == "on_press"@
    ||| name == "off_press"@
    ||| name == "up_press"@
    ||| name == "down_press"@
    ||| name == "on_press_release"@
    ||| name == "off_press_release"@
    ||| name == "up_press_release"@
    ||| name == "down_press_release"@
}

/// The lower-case form of a string, as Unicode defines it.
pub uninterp spec fn lowercase(s: Seq<char>) -> Seq<char>;

/// Calls `str::to_lowercase` of std.
///
/// Trusted: the result is the lower-case mapping of the argument's characters,
/// named `lowercase`; nothing more of that mapping is stated.
#[verifier::external_body]
fn to_lowercase(s: &str) -> (lower: String)
    ensures
        lower@ == lowercase(s@),
{
    s.to_lowercase()
}

impl ButtonAction {
    /// The action that `name` stands for, where `name` is already in lower case.
    pub fn from_lowercase_name(name: &str) -> (action: Option<ButtonAction>)
        ensures
            action == action_named(name@),
            action is Some <==> is_known_action_name(name@),
            action matches Some(a) ==> (a is Release <==> (name@ == "on_press_release"@ || name@
                == "off_press_release"@ || name@ == "up_press_release"@ || name@
                == "down_press_release"@)),
    {
        proof {
            reveal_strlit("on");
            reveal_strlit("off");
            reveal_strlit("arrow_left_click");
            reveal_strlit("arrow_right_click");
            reveal_strlit("on_press");
            reveal_strlit("off_press");
            reveal_strlit("up_press");
            reveal_strlit("down_press");
            reveal_strlit("on_press_release");
            reveal_strlit("off_press_release");
            reveal_strlit("up_press_release");
            reveal_strlit("down_press_release");
            assert("on"@[1] == 'n' && "on"@.len() == 2);
            assert("off"@[2] == 'f' && "off"@.len() == 3);
            assert("arrow_left_click"@[15] == 'k' && "arrow_left_click"@.len() == 16);
            assert("arrow_right_click"@[16] == 'k' && "arrow_right_click"@.len() == 17);
            assert("on_press"@[7] == 's' && "on_press"@.len() == 8);
            assert("off_press"@[8] == 's' && "off_press"@.len() == 9);
            assert("up_press"@[7] == 's' && "up_press"@.len() == 8);
            assert("down_press"@[9] == 's' && "down_press"@.len() == 10);
            assert("on_press_release"@[15] == 'e' && "on_press_release"@.len() == 16);
            assert("off_press_release"@[16] == 'e' && "off_press_release"@.len() == 17);
            assert("up_press_release"@[15] == 'e' && "up_press_release"@.len() == 16);
            assert("down_press_release"@[17] == 'e' && "down_press_release"@.len() == 18);
        }
        if str_eq(name, "on") {
            Some(ButtonAction::Press(ControllerButton::On))
        } else if str_eq(name, "off") {
            Some(ButtonAction::Press(ControllerButton::Off))
        } else if str_eq(name, "arrow_left_click") {
            Some(ButtonAction::Press(ControllerButton::Left))
        } else if str_eq(name, "arrow_right_click") {
            Some(ButtonAction::Press(ControllerButton::Right))
        } else if str_eq(name, "on_press") {
            Some(ButtonAction::Press(ControllerButton::On))
        } else if str_eq(name, "off_press") {
            Some(ButtonAction::Press(ControllerButton::Off))
        } else if str_eq(name, "up_press") {
            Some(ButtonAction::Press(ControllerButton::Up))
        } else if str_eq(name, "down_press") {
            Some(ButtonAction::Press(ControllerButton::Down))
        } else if str_eq(name, "on_press_release") {
            Some(ButtonAction::Release(ControllerButton::On))
        } else if str_eq(name, "off_press_release") {
            Some(ButtonAction::Release(ControllerButton::Off))
        } else if str_eq(name, "up_press_release") {
            Some(ButtonAction::Release(ControllerButton::Up))
        } else if str_eq(name, "down_press_release") {
            Some(ButtonAction::Release(ControllerButton::Down))
        } else {
            None
        }
    }

    /// Decodes the `action` field that a switch sends; the name is matched
    /// without regard to case. `None` for a name that no switch sends.
    pub fn from_name(name: &str) -> (action: Option<ButtonAction>)
        ensures
            action == action_named(lowercase(name@)),
    {
        let lower = to_lowercase(name);
        ButtonAction::from_lowercase_name(lower.as_str())
    }
}

} // verus!
