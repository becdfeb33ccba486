use vstd::prelude::*;

verus! {

/// Rofi's result code: exit Rofi.
pub const EXIT: i32 = 1000;

/// Rofi's result code: switch to the next mode.
pub const NEXT_DIALOG: i32 = 1001;

/// Rofi's result code: reload the current mode.
pub const RELOAD_DIALOG: i32 = 1002;

/// Rofi's result code: switch to the previous mode.
pub const PREVIOUS_DIALOG: i32 = 1003;

/// Rofi's result code: reload the current mode and unset the user input.
pub const RESET_DIALOG: i32 = 1004;

/// Menu flag: the user accepted an entry.
pub const MENU_OK: i32 = 0x00010000;

/// Menu state: the user cancelled.
pub const MENU_CANCEL: i32 = 0x00020000;

/// Menu flag: the user entered custom input.
pub const MENU_CUSTOM_INPUT: i32 = 0x00080000;

/// Menu state: the user asked to delete an entry.
pub const MENU_ENTRY_DELETE: i32 = 0x00100000;

/// Menu flag: the user ran a custom command.
pub const MENU_CUSTOM_COMMAND: i32 = 0x00800000;

/// Menu state: the user asked for completion.
pub const MENU_COMPLETE: i32 = 0x01000000;

/// Menu flag: the alternative binding was used.
pub const MENU_CUSTOM_ACTION: i32 = 0x10000000;

/// Mask of the custom command number.
pub const MENU_LOWER_MASK: i32 = 0x0000FFF;

/// The selected line that Rofi passes when no line is selected.
pub const NO_SELECTED_LINE: u32 = 0xFFFF_FFFF;

/// An event triggered by the user.
#[derive(Debug, Clone, Copy, PartialEq, Eq, Structural)]
#[allow(inconsistent_fields)]
pub enum Event {
    /// The user cancelled the operation, for example by pressing escape.
    Cancel {
        /// The line that was selected at the time of cancellation,
        /// if one was selected.
        selected: Option<usize>,
    },
    /// The user accepted an option from the list (ctrl+j, ctrl+m or enter by default).
    Accept {
        /// Whether the alt binding was used (shift+enter by default).
        alt: bool,
        /// The line that was selected.
        selected: usize,
    },
    /// The user entered an input not on the list (ctrl+return by default).
    CustomInput {
        /// Whether the alt binding was used (ctrl+shift+return by default).
        alt: bool,
        /// The line that was selected at the time of the event,
        /// if one was selected.
        selected: Option<usize>,
    },
    /// The user used the `kb-mode-complete` binding (control+l by default).
    ///
    /// If this happens,
    /// you should set the `input` value
    /// to the currently selected entry
    /// if there is one.
    Complete {
        /// The line that was selected at the time of the event,
        /// if one was selected.
        selected: Option<usize>,
    },
    /// The user used the `kb-delete-entry` binding (shift+delete by default).
    DeleteEntry {
        /// The index of the entry that was selected to be deleted,
        selected: usize,
    },
    /// The user ran a custom command.
    CustomCommand {
        /// The number of the custom command, in the range [0, 18].
        number: u8,
        /// The line that was selected at the time of the event,
        /// if one was selected.
        selected: Option<usize>,
    },
}

/// The line that an event carries, if one was selected.
pub open spec fn event_selected(event: Event) -> Option<usize> {
    match event {
        Event::Cancel { selected } => selected,
        Event::Accept { selected, .. } => Some(selected),
        Event::CustomInput { selected, .. } => selected,
        Event::Complete { selected } => selected,
        Event::DeleteEntry { selected } => Some(selected),
        Event::CustomCommand { selected, .. } => selected,
    }
}

/// The selection that Rofi's selected-line value stands for.
pub open spec fn line_selection(selected_line: u32) -> Option<usize> {
    if selected_line == NO_SELECTED_LINE {
        None
    } else {
        Some(selected_line as usize)
    }
}

/// The event that Rofi's menu return value `mretv` and selected line stand for,
/// or `None` where they stand for none (an unknown value, or an accepting or
/// deleting event without a selected line).
pub open spec fn decoded_event(mretv: i32, selected_line: u32) -> Option<Event> {
    let selected = line_selection(selected_line);
    let alt = mretv & MENU_CUSTOM_ACTION != 0;
    if mretv == MENU_CANCEL {
        Some(Event::Cancel { selected })
    } else if mretv & MENU_OK != 0 {
        match selected {
            Some(line) => Some(Event::Accept { alt, selected: line }),
            None => None,
        }
    } else if mretv & MENU_CUSTOM_INPUT != 0 {
        Some(Event::CustomInput { alt, selected })
    } else if mretv == MENU_COMPLETE {
        Some(Event::Complete { selected })
    } else if mretv == MENU_ENTRY_DELETE {
        match selected {
            Some(line) => Some(Event::DeleteEntry { selected: line }),
            None => None,
        }
    } else if mretv & MENU_CUSTOM_COMMAND != 0 {
        Some(Event::CustomCommand { number: (mretv & MENU_LOWER_MASK) as u8, selected })
    } else {
        None
    }
}

impl Event {
    /// Get the index of the line that was selected at the time of the event,
    /// if one was selected.
    pub fn selected(&self) -> (line: Option<usize>)
        ensures
            line == event_selected(*self),
    {
        match *self {
            Event::Cancel { selected }
            | Event::CustomInput { selected, .. }
            | Event::Complete { selected }
            | Event::CustomCommand { selected, .. } => selected,
            Event::Accept { selected, .. } | Event::DeleteEntry { selected } => Some(selected),
        }
    }

    /// Decode Rofi's menu return value and selected line into an event.
    ///
    /// Returns `None` for a value that stands for no event: one that Rofi does not
    /// send, or an accepting or deleting event without a selected line.
    pub fn from_raw(mretv: i32, selected_line: u32) -> (event: Option<Event>)
        ensures
            event == decoded_event(mretv, selected_line),
    {
        let selected = if selected_line == NO_SELECTED_LINE {
            None
        } else {
            Some(selected_line as usize)
        };
        let alt = mretv & MENU_CUSTOM_ACTION != 0;
        if mretv == MENU_CANCEL {
            Some(Event::Cancel { selected })
        } else if mretv & MENU_OK != 0 {
            match selected {
                Some(line) => Some(Event::Accept { alt, selected: line }),
                None => None,
            }
        } else if mretv & MENU_CUSTOM_INPUT != 0 {
            Some(Event::CustomInput { alt, selected })
        } else if mretv == MENU_COMPLETE {
            Some(Event::Complete { selected })
        } else if mretv == MENU_ENTRY_DELETE {
            match selected {
                Some(line) => Some(Event::DeleteEntry { selected: line }),
                None => None,
            }
        } else if mretv & MENU_CUSTOM_COMMAND != 0 {
            Some(Event::CustomCommand { number: (mretv & MENU_LOWER_MASK) as u8, selected })
        } else {
            None
        }
    }
}

/// Accepting and deleting events always carry a selected line.
pub proof fn lemma_ok_and_delete_have_selection(event: Event)
    requires
        event is Accept || event is DeleteEntry,
    ensures
        event_selected(event) is Some,
{
}

/// A decoded event carries exactly the line that Rofi reported as selected.
pub proof fn lemma_decoded_selection(mretv: i32, selected_line: u32)
    requires
        decoded_event(mretv, selected_line) is Some,
    ensures
        event_selected(decoded_event(mretv, selected_line)->0) == line_selection(selected_line),
{
}

/// Cancelling decodes, for every selected line, to a cancel event that carries the
/// line when one is selected (Rofi passes `0xFFFF_FFFF` for none).
pub proof fn lemma_decode_cancel(selected_line: u32)
    ensures
        decoded_event(0x0002_0000, selected_line) == Some(
            Event::Cancel {
                selected: if selected_line == 0xFFFF_FFFFu32 {
                    None
                } else {
                    Some(selected_line as usize)
                },
            },
        ),
{
}

/// Completion decodes, for every selected line, to a completion event that carries
/// the line when one is selected, and no line otherwise.
pub proof fn lemma_decode_complete(selected_line: u32)
    ensures
        decoded_event(0x0100_0000, selected_line) == Some(
            Event::Complete {
                selected: if selected_line == 0xFFFF_FFFFu32 {
                    None
                } else {
                    Some(selected_line as usize)
                },
            },
        ),
{
    assert(0x0100_0000i32 & 0x0001_0000i32 == 0) by (bit_vector);
    assert(0x0100_0000i32 & 0x0008_0000i32 == 0) by (bit_vector);
}

/// Deleting decodes to a delete event of the selected line, and to nothing when no
/// line is selected.
pub proof fn lemma_decode_delete(selected_line: u32)
    ensures
        selected_line != 0xFFFF_FFFFu32 ==> decoded_event(0x0010_0000, selected_line) == Some(
            Event::DeleteEntry { selected: selected_line as usize },
        ),
        selected_line == 0xFFFF_FFFFu32 ==> decoded_event(0x0010_0000, selected_line) is None,
{
    assert(0x0010_0000i32 & 0x0001_0000i32 == 0) by (bit_vector);
    assert(0x0010_0000i32 & 0x0008_0000i32 == 0) by (bit_vector);
}

/// Accepting, with or without the alternative binding, decodes to an accept event of
/// the selected line whose `alt` is whether the binding was used, and to nothing
/// when no line is selected.
pub proof fn lemma_decode_accept(alt: bool, selected_line: u32)
    ensures
        ({
            let mretv: i32 = if alt {
                0x1001_0000
            } else {
                0x0001_0000
            };
            &&& selected_line != 0xFFFF_FFFFu32 ==> decoded_event(mretv, selected_line) == Some(
                Event::Accept { alt, selected: selected_line as usize },
            )
            &&& selected_line == 0xFFFF_FFFFu32 ==> decoded_event(mretv, selected_line) is None
        }),
{
    assert(0x1001_0000i32 & 0x0001_0000i32 != 0) by (bit_vector);
    assert(0x0001_0000i32 & 0x0001_0000i32 != 0) by (bit_vector);
    assert(0x1001_0000i32 & 0x1000_0000i32 != 0) by (bit_vector);
    assert(0x0001_0000i32 & 0x1000_0000i32 == 0) by (bit_vector);
}

/// Custom input, with or without the alternative binding, decodes for every selected
/// line to a custom-input event whose `alt` is whether the binding was used and
/// which carries the line when one is selected.
pub proof fn lemma_decode_custom_input(alt: bool, selected_line: u32)
    ensures
        ({
            let mretv: i32 = if alt {
                0x1008_0000
            } else {
                0x0008_0000
            };
            decoded_event(mretv, selected_line) == Some(
                Event::CustomInput {
                    alt,
                    selected: if selected_line == 0xFFFF_FFFFu32 {
                        None
                    } else {
                        Some(selected_line as usize)
                    },
                },
            )
        }),
{
    assert(0x1008_0000i32 & 0x0001_0000i32 == 0) by (bit_vector);
    assert(0x0008_0000i32 & 0x0001_0000i32 == 0) by (bit_vector);
    assert(0x1008_0000i32 & 0x0008_0000i32 != 0) by (bit_vector);
    assert(0x0008_0000i32 & 0x0008_0000i32 != 0) by (bit_vector);
    assert(0x1008_0000i32 & 0x1000_0000i32 != 0) by (bit_vector);
    assert(0x0008_0000i32 & 0x1000_0000i32 == 0) by (bit_vector);
}

/// Every custom command `number` (Rofi sends 0 to 18) decodes, for every selected
/// line, to a custom-command event with that number, carrying the line when one is
/// selected.
pub proof fn lemma_decode_custom_command(number: u8, selected_line: u32)
    ensures
        decoded_event((0x0080_0000 + number) as i32, selected_line) == Some(
            Event::CustomCommand {
                number,
                selected: if selected_line == 0xFFFF_FFFFu32 {
                    None
                } else {
                    Some(selected_line as usize)
                },
            },
        ),
{
    let m: i32 = (0x0080_0000 + number) as i32;
    assert(m & 0x0001_0000i32 == 0) by (bit_vector)
        requires
            m == (0x0080_0000 + number) as i32,
    ;
    assert(m & 0x0008_0000i32 == 0) by (bit_vector)
        requires
            m == (0x0080_0000 + number) as i32,
    ;
    assert(m & 0x0080_0000i32 != 0) by (bit_vector)
        requires
            m == (0x0080_0000 + number) as i32,
    ;
    assert((m & 0x0FFFi32) as u8 == number) by (bit_vector)
        requires
            m == (0x0080_0000 + number) as i32,
    ;
}

/// Whenever an accept or custom-input event is decoded, its `alt` is exactly whether
/// the alternative-binding flag is set in `mretv`, whatever the selected line.
pub proof fn lemma_decoded_alt(mretv: i32, selected_line: u32)
    ensures
        decoded_event(mretv, selected_line) matches Some(Event::Accept { alt, .. }) ==> alt == (
        mretv & 0x1000_0000 != 0),
        decoded_event(mretv, selected_line) matches Some(Event::CustomInput { alt, .. }) ==> alt
            == (mretv & 0x1000_0000 != 0),
{
}

/// Decoding yields nothing only for an accepting or deleting result without a
/// selected line, or for a result code that carries no known event.
pub proof fn lemma_decode_none_only_when_unknown(mretv: i32, selected_line: u32)
    ensures
        decoded_event(mretv, selected_line) is None ==> {
            ||| (selected_line == 0xFFFF_FFFFu32 && (mretv & 0x0001_0000 != 0 || mretv
                == 0x0010_0000))
            ||| (mretv != 0x0002_0000 && mretv & 0x0001_0000 == 0 && mretv & 0x0008_0000 == 0
                && mretv != 0x0100_0000 && mretv != 0x0010_0000 && mretv & 0x0080_0000 == 0)
        },
{
}

/// An action caused by reacting to an [`Event`].
#[derive(Debug, Clone, Copy, PartialEq, Eq, Structural)]
pub enum Action {
    /// Change the active mode to one with the given index.
    ///
    /// The index must be < 1000.
    SetMode(u16),
    /// Switch to the next mode.
    Next,
    /// Switch to the previous mode.
    Previous,
    /// Reload the current mode.
    Reload,
    /// Reset the current mode: this reloads the mode and unsets user input.
    Reset,
    /// Exit Rofi.
    Exit,
}

/// Rofi's result code for an action.
pub open spec fn action_code(action: Action) -> i32 {
    match action {
        Action::SetMode(mode) => mode as i32,
        Action::Next => NEXT_DIALOG,
        Action::Previous => PREVIOUS_DIALOG,
        Action::Reload => RELOAD_DIALOG,
        Action::Reset => RESET_DIALOG,
        Action::Exit => EXIT,
    }
}

/// The action is one that Rofi accepts: a mode index is below 1000.
pub open spec fn valid_action(action: Action) -> bool {
    action matches Action::SetMode(mode) ==> mode < 1000
}

impl Action {
    /// Rofi's result code for this action.
    pub fn to_raw(self) -> (code: i32)
        ensures
            code == action_code(self),
    {
        match self {
            Action::SetMode(mode) => mode as i32,
            Action::Next => NEXT_DIALOG,
            Action::Previous => PREVIOUS_DIALOG,
            Action::Reload => RELOAD_DIALOG,
            Action::Reset => RESET_DIALOG,
            Action::Exit => EXIT,
        }
    }
}

/// Distinct valid actions have distinct result codes, so Rofi can tell them apart.
pub proof fn lemma_action_codes_distinct(a: Action, b: Action)
    requires
        valid_action(a),
        valid_action(b),
        a != b,
    ensures
        action_code(a) != action_code(b),
{
}

} // verus!
