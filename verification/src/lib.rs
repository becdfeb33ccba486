//! A nul-terminated, UTF-8 string buffer and the value-level logic of a Rofi mode:
//! the display-name slot of the Rofi API, the decoding of Rofi's result codes into
//! events, and the encoding of actions back into Rofi's codes.
pub mod api;
pub mod convert;
mod event;
mod order;
mod string;

pub use api::{
    lemma_display_name_reads_back, lemma_take_after_replace, optional_capacity, Api, IconRequest,
};
pub use event::{
    action_code, decoded_event, event_selected, lemma_action_codes_distinct, lemma_decode_accept,
    lemma_decode_cancel, lemma_decode_complete, lemma_decode_custom_command,
    lemma_decode_custom_input, lemma_decode_delete, lemma_decode_none_only_when_unknown,
    lemma_decoded_alt,
    lemma_decoded_selection, lemma_ok_and_delete_have_selection, line_selection, valid_action,
    Action, Event, EXIT, MENU_CANCEL, MENU_COMPLETE, MENU_CUSTOM_ACTION, MENU_CUSTOM_COMMAND,
    MENU_CUSTOM_INPUT, MENU_ENTRY_DELETE, MENU_LOWER_MASK, MENU_OK, NEXT_DIALOG, NO_SELECTED_LINE,
    PREVIOUS_DIALOG, RELOAD_DIALOG, RESET_DIALOG,
};
pub use order::{
    byte_order, lemma_byte_order_antisymmetric, lemma_byte_order_first_difference,
    lemma_byte_order_prefix, lemma_string_order,
};
pub use string::{
    fresh_capacity, has_no_nul, lemma_eq_is_content_equality, has_no_nul_char, lemma_no_nul_char_encoding,
    lemma_no_nul_encoding_char, lemma_push_str_reads_back, lemma_reserve_makes_room, lemma_shrink_bounds,
    lemma_shrink_to_fit_exact, reserve_fits, reserved_capacity, shrunk_capacity, String,
    MIN_NON_ZERO_CAP,
};

use vstd::prelude::*;
use vstd::string::StringSliceAdditionalSpecFns;

verus! {

/// Build a Rofi [`String`] from already formatted text.
///
/// The text must not contain nul bytes.
pub fn format(text: &str) -> (s: String)
    requires
        has_no_nul_char(text@),
        text.spec_bytes().len() < usize::MAX,
    ensures
        s.wf(),
        s@ == text.spec_bytes(),
        s.spec_capacity() == fresh_capacity(text.spec_bytes().len() as int),
{
    String::from_str(text)
}

} // verus!
