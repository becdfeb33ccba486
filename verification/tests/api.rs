use rofi_mode::{Api, IconRequest, String};

#[test]
fn new_api_has_no_display_name() {
    let api = Api::new();
    assert_eq!(api.display_name(), None);
}

#[test]
fn replace_then_take_gives_back_name() {
    let mut api = Api::new();
    assert!(api.replace_display_name(String::from_str("first")).is_none());
    assert_eq!(api.display_name(), Some("first"));
    let previous = api.replace_display_name(String::from_str("second"));
    assert_eq!(previous.unwrap().as_str(), "first");
    assert_eq!(api.display_name(), Some("second"));
    let taken = api.take_display_name();
    assert_eq!(taken.unwrap().as_str(), "second");
    assert_eq!(api.display_name(), None);
    assert!(api.take_display_name().is_none());
}

#[test]
fn set_display_name_reuses_buffer() {
    let mut api = Api::new();
    api.set_display_name("A basic Rofi plugin");
    assert_eq!(api.display_name(), Some("A basic Rofi plugin"));
    api.set_display_name("short");
    assert_eq!(api.display_name(), Some("short"));
    let name = api.take_display_name().unwrap();
    assert_eq!(name.capacity(), 20);
}

#[test]
fn set_display_name_empty() {
    let mut api = Api::new();
    api.set_display_name("");
    assert_eq!(api.display_name(), Some(""));
    assert_eq!(api.take_display_name().unwrap().capacity(), 0);
}

#[test]
fn icon_request_keeps_uid() {
    let request = IconRequest::from_uid(42);
    assert_eq!(request.uid(), 42);
}
