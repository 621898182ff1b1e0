use crs_tui::credentials::Credentials;
use crs_tui::event::{Event, KeyCode};
use crs_tui::login::{CurrentInput, LoginPage};

fn type_text(page: &mut LoginPage, text: &str) {
    for ch in text.chars() {
        let out = page.on_event(Event::key_press(KeyCode::Char(ch)));
        assert!(out.is_none());
    }
}

fn full_credentials() -> Credentials<String> {
    Credentials {
        homeserver: "http://localhost:8008".to_owned(),
        password: "hunter2".to_owned(),
        username: "@a:localhost".to_owned(),
    }
}

#[test]
fn empty_username_submit_makes_no_login_attempt() {
    let mut page = LoginPage::new(Credentials {
        homeserver: "http://localhost:8008".to_owned(),
        password: "hunter2".to_owned(),
        username: String::new(),
    });
    page.on_event(Event::key_press(KeyCode::Tab));
    assert_eq!(page.current(), CurrentInput::Username);

    let out = page.on_event(Event::key_press(KeyCode::Enter));
    assert!(out.is_none(), "no authentication call may be made");
    assert_eq!(page.error(), "Found empty field, but all are required");
    assert_eq!(page.current(), CurrentInput::Username, "focus unchanged");
    assert_eq!(page.password().as_value(), "hunter2", "fields keep their values");
}

#[test]
fn full_submit_hands_out_credentials_and_freezes() {
    let mut page = LoginPage::new(full_credentials());
    let out = page.on_event(Event::key_press(KeyCode::Enter)).expect("credentials expected");
    assert_eq!(out.homeserver, "http://localhost:8008");
    assert_eq!(out.username, "@a:localhost");
    assert_eq!(out.password, "hunter2");
    assert_eq!(page.current(), CurrentInput::Submitting);
    assert_eq!(page.homeserver().as_value(), "", "form reset after submit");
    assert!(!page.homeserver().is_active());
    let after = page.on_event(Event::key_press(KeyCode::Char('x')));
    assert!(after.is_none(), "input blocked while submitting");
    assert_eq!(page.homeserver().as_value(), "");
}

#[test]
fn tab_cycles_focus_down_and_backtab_up() {
    let mut page = LoginPage::default();
    assert_eq!(page.current(), CurrentInput::HomeServer);
    assert!(page.homeserver().is_active());

    page.on_event(Event::key_press(KeyCode::Tab));
    assert_eq!(page.current(), CurrentInput::Username);
    assert!(page.username().is_active());
    assert!(!page.homeserver().is_active());

    page.on_event(Event::key_press(KeyCode::Tab));
    assert_eq!(page.current(), CurrentInput::Password);

    page.on_event(Event::key_press(KeyCode::Tab));
    assert_eq!(page.current(), CurrentInput::HomeServer, "focus wraps");

    page.on_event(Event::key_press(KeyCode::BackTab));
    assert_eq!(page.current(), CurrentInput::Password);
}

#[test]
fn typing_edits_the_focused_field_only() {
    let mut page = LoginPage::default();
    type_text(&mut page, "http://h");
    assert_eq!(page.homeserver().as_value(), "http://h");
    assert_eq!(page.username().as_value(), "");

    page.on_event(Event::key_press(KeyCode::Tab));
    type_text(&mut page, "user");
    assert_eq!(page.username().as_value(), "user");

    page.on_event(Event::key_press(KeyCode::Backspace));
    assert_eq!(page.username().as_value(), "use");
    assert_eq!(page.homeserver().as_value(), "http://h");
}

#[test]
fn password_field_is_masked_and_label_set() {
    let page = LoginPage::default();
    assert!(page.password().is_hidden());
    assert!(!page.username().is_hidden());
    assert_eq!(page.homeserver().label().unwrap(), "Homeserver");
    assert_eq!(page.username().label().unwrap(), "Username");
    assert_eq!(page.password().label().unwrap(), "Password");
}

#[test]
fn login_error_reopens_the_form() {
    let mut page = LoginPage::new_with_login_err("M_FORBIDDEN".to_owned());
    assert_eq!(page.error(), "M_FORBIDDEN");
    assert_eq!(page.current(), CurrentInput::HomeServer);

    page.freeze();
    assert_eq!(page.current(), CurrentInput::Submitting);
    page.update("invalid password".to_owned());
    assert_eq!(page.error(), "invalid password");
    assert_eq!(page.current(), CurrentInput::HomeServer);
}

#[test]
fn credentials_is_full_and_fill_with_empty() {
    let all = Credentials {
        homeserver: Some("h".to_owned()),
        password: Some("p".to_owned()),
        username: Some("u".to_owned()),
    };
    assert!(all.is_full());
    let partial = Credentials {
        homeserver: Some("h".to_owned()),
        password: None,
        username: Some("u".to_owned()),
    };
    assert!(!partial.is_full());
    let filled = partial.fill_with_empty();
    assert_eq!(filled.homeserver, "h");
    assert_eq!(filled.password, "");
    assert_eq!(filled.username, "u");
}
