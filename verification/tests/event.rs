use rofi_mode::{
    Action, Event, MENU_CANCEL, MENU_COMPLETE, MENU_CUSTOM_ACTION, MENU_CUSTOM_COMMAND,
    MENU_CUSTOM_INPUT, MENU_ENTRY_DELETE, MENU_OK, NO_SELECTED_LINE,
};

#[test]
fn selected_of_each_event() {
    assert_eq!(Event::Cancel { selected: None }.selected(), None);
    assert_eq!(Event::Cancel { selected: Some(2) }.selected(), Some(2));
    assert_eq!(Event::Accept { alt: false, selected: 5 }.selected(), Some(5));
    assert_eq!(Event::CustomInput { alt: true, selected: Some(1) }.selected(), Some(1));
    assert_eq!(Event::Complete { selected: None }.selected(), None);
    assert_eq!(Event::DeleteEntry { selected: 9 }.selected(), Some(9));
    assert_eq!(Event::CustomCommand { number: 3, selected: Some(0) }.selected(), Some(0));
}

#[test]
fn decode_cancel() {
    assert_eq!(Event::from_raw(MENU_CANCEL, NO_SELECTED_LINE), Some(Event::Cancel { selected: None }));
    assert_eq!(Event::from_raw(MENU_CANCEL, 4), Some(Event::Cancel { selected: Some(4) }));
}

#[test]
fn decode_accept() {
    assert_eq!(Event::from_raw(MENU_OK, 7), Some(Event::Accept { alt: false, selected: 7 }));
    assert_eq!(
        Event::from_raw(MENU_OK | MENU_CUSTOM_ACTION, 7),
        Some(Event::Accept { alt: true, selected: 7 })
    );
    assert_eq!(Event::from_raw(MENU_OK, NO_SELECTED_LINE), None);
}

#[test]
fn decode_custom_input() {
    assert_eq!(
        Event::from_raw(MENU_CUSTOM_INPUT, NO_SELECTED_LINE),
        Some(Event::CustomInput { alt: false, selected: None })
    );
    assert_eq!(
        Event::from_raw(MENU_CUSTOM_INPUT | MENU_CUSTOM_ACTION, 1),
        Some(Event::CustomInput { alt: true, selected: Some(1) })
    );
}

#[test]
fn decode_complete_and_delete() {
    assert_eq!(Event::from_raw(MENU_COMPLETE, 3), Some(Event::Complete { selected: Some(3) }));
    assert_eq!(Event::from_raw(MENU_ENTRY_DELETE, 3), Some(Event::DeleteEntry { selected: 3 }));
    assert_eq!(Event::from_raw(MENU_ENTRY_DELETE, NO_SELECTED_LINE), None);
}

#[test]
fn decode_custom_command() {
    assert_eq!(
        Event::from_raw(MENU_CUSTOM_COMMAND | 5, NO_SELECTED_LINE),
        Some(Event::CustomCommand { number: 5, selected: None })
    );
    assert_eq!(
        Event::from_raw(MENU_CUSTOM_COMMAND | 18, 2),
        Some(Event::CustomCommand { number: 18, selected: Some(2) })
    );
}

#[test]
fn decode_unknown_value() {
    assert_eq!(Event::from_raw(0, 0), None);
    assert_eq!(Event::from_raw(0x0004_0000, 0), None);
}

#[test]
fn decoded_event_carries_the_selected_line() {
    for mretv in [MENU_CANCEL, MENU_OK, MENU_CUSTOM_INPUT, MENU_COMPLETE, MENU_ENTRY_DELETE, MENU_CUSTOM_COMMAND | 2] {
        for line in [0u32, 3, NO_SELECTED_LINE] {
            if let Some(event) = Event::from_raw(mretv, line) {
                let expected = if line == NO_SELECTED_LINE { None } else { Some(line as usize) };
                assert_eq!(event.selected(), expected);
            }
        }
    }
}

#[test]
fn action_codes() {
    assert_eq!(Action::SetMode(3).to_raw(), 3);
    assert_eq!(Action::Next.to_raw(), 1001);
    assert_eq!(Action::Previous.to_raw(), 1003);
    assert_eq!(Action::Reload.to_raw(), 1002);
    assert_eq!(Action::Reset.to_raw(), 1004);
    assert_eq!(Action::Exit.to_raw(), 1000);
}

#[test]
fn action_codes_are_distinct() {
    let actions = [
        Action::SetMode(0),
        Action::SetMode(999),
        Action::Next,
        Action::Previous,
        Action::Reload,
        Action::Reset,
        Action::Exit,
    ];
    for (i, a) in actions.iter().enumerate() {
        for (j, b) in actions.iter().enumerate() {
            if i != j {
                assert_ne!(a.to_raw(), b.to_raw());
            }
        }
    }
}
