use crs_tui::app::{App, AppCommand, Screen, ScreenUpdate};
use crs_tui::cache::RoomCache;
use crs_tui::chat::{ChatCommand, ChatPage, RoomList};
use crs_tui::credentials::Credentials;
use crs_tui::event::{Event, KeyCode};
use crs_tui::message::DisplayMessage;
use crs_tui::room::{DisplayRoom, FetchError, Membership};

fn room(
    id: &str,
    name: Result<&str, &str>,
    messages: Result<Vec<DisplayMessage>, &str>,
    membership: Membership,
) -> DisplayRoom {
    DisplayRoom::new(
        id.to_owned(),
        name.map(str::to_owned).map_err(|e| FetchError::new(e.to_owned())),
        messages.map_err(|e| FetchError::new(e.to_owned())),
        membership,
    )
}

fn filled() -> Credentials<String> {
    Credentials {
        homeserver: "http://h".to_owned(),
        password: "p".to_owned(),
        username: "u".to_owned(),
    }
}

#[test]
fn login_submission_surfaces_as_an_app_command() {
    let cache = RoomCache::new();
    let mut app = App::new_login(filled());
    assert!(matches!(app.screen(), Screen::Login(_)));
    let command = app.on_event(Event::key_press(KeyCode::Enter), &cache);
    match command {
        Some(AppCommand::LogIn(credentials)) => {
            assert_eq!(credentials.homeserver, "http://h");
            assert_eq!(credentials.username, "u");
            assert_eq!(credentials.password, "p");
        },
        _ => panic!("expected the login request"),
    }
    let update = ScreenUpdate::AttemptLogIn(filled());
    let ScreenUpdate::AttemptLogIn(c) = update;
    assert_eq!(c.username, "u");
}

#[test]
fn failed_login_reopens_the_page_with_the_error() {
    let mut app = App::new_with_login_err("M_FORBIDDEN".to_owned());
    match app.screen() {
        Screen::Login(page) => assert_eq!(page.error(), "M_FORBIDDEN"),
        Screen::Chat(_) => panic!("expected the login page"),
    }
    app.update_login_error("timed out".to_owned());
    match app.screen() {
        Screen::Login(page) => assert_eq!(page.error(), "timed out"),
        Screen::Chat(_) => panic!("expected the login page"),
    }
}

#[test]
fn successful_login_opens_the_chat_page() {
    let app = App::new_with_user();
    assert!(matches!(app.screen(), Screen::Chat(_)));
}

#[test]
fn menu_moves_within_bounds_and_opens_the_selected_room() {
    let mut menu = RoomList::new();
    assert_eq!(menu.selected(), 0);
    assert!(menu.on_event(Event::key_press(KeyCode::Up), 3).is_none());
    assert_eq!(menu.selected(), 0, "stops at the first room");
    menu.on_event(Event::key_press(KeyCode::Down), 3);
    menu.on_event(Event::key_press(KeyCode::Down), 3);
    menu.on_event(Event::key_press(KeyCode::Down), 3);
    assert_eq!(menu.selected(), 2, "stops at the last room");
    assert_eq!(menu.on_event(Event::key_press(KeyCode::Enter), 3), Some(2));
}

#[test]
fn chat_page_opens_the_menu_selection_in_the_panel() {
    let mut cache = RoomCache::new();
    cache.reconcile(room("!a:x", Ok("first"), Ok(vec![]), Membership::Joined));
    cache.reconcile(room("!b:x", Ok("second"), Ok(vec![]), Membership::Joined));

    let mut page = ChatPage::new();
    page.on_event(Event::key_press(KeyCode::Down), &cache);
    let out = page.on_event(Event::key_press(KeyCode::Enter), &cache);
    assert!(out.is_none(), "selection is handled inside the page");
    assert_eq!(page.current_room().room_name(), "second");
}

#[test]
fn empty_creation_name_becomes_an_anonymous_room() {
    let cache = RoomCache::new();
    let mut page = ChatPage::new();
    page.on_event(Event::ctrl_key_press(KeyCode::Char('n')), &cache);
    let cmd = page.on_event(Event::key_press(KeyCode::Enter), &cache);
    assert!(
        matches!(cmd, Some(ChatCommand::CreateRoom(None))),
        "the open popup consumes the submit, ahead of the menu"
    );
}

#[test]
fn typed_creation_name_is_requested_through_the_page() {
    let cache = RoomCache::new();
    let mut page = ChatPage::new();
    page.on_event(Event::ctrl_key_press(KeyCode::Char('n')), &cache);
    for ch in "dev".chars() {
        assert!(page.on_event(Event::key_press(KeyCode::Char(ch)), &cache).is_none());
    }
    match page.current_room().child() {
        crs_tui::current_room::CurrentRoomChild::CreateRoom(popup, _) => {
            assert_eq!(popup.name().as_value(), "dev");
        },
        _ => panic!("expected the creation popup"),
    }
    let cmd = page.on_event(Event::key_press(KeyCode::Enter), &cache);
    match cmd {
        Some(ChatCommand::CreateRoom(Some(name))) => assert_eq!(name, "dev"),
        _ => panic!("expected a named creation request"),
    }
}

#[test]
fn sending_reaches_the_caller_through_the_whole_app() {
    let mut cache = RoomCache::new();
    cache.reconcile(room("!a:x", Ok("General"), Ok(vec![]), Membership::Joined));
    let mut app = App::new_with_user();
    app.on_event(Event::key_press(KeyCode::Enter), &cache);
    for ch in "hi".chars() {
        app.on_event(Event::key_press(KeyCode::Char(ch)), &cache);
    }
    let cmd = app.on_event(Event::key_press(KeyCode::Enter), &cache);
    match cmd {
        Some(AppCommand::Chat(ChatCommand::Send { room_id, body })) => {
            assert_eq!(room_id, "!a:x");
            assert_eq!(body, "hi");
        },
        _ => panic!("expected the send request"),
    }
}

#[test]
fn accepting_an_invitation_reaches_the_caller_through_the_whole_app() {
    let mut cache = RoomCache::new();
    cache.reconcile(room("!i:x", Ok("Inv"), Ok(vec![]), Membership::Invited));
    let mut app = App::new_with_user();
    app.on_event(Event::key_press(KeyCode::Enter), &cache);
    let cmd = app.on_event(Event::key_press(KeyCode::Enter), &cache);
    match cmd {
        Some(AppCommand::Chat(ChatCommand::AcceptInvitation { room_id })) => {
            assert_eq!(room_id, "!i:x");
        },
        _ => panic!("expected the join request"),
    }
    let joined = room("!i:x", Ok("Inv"), Ok(vec![]), Membership::Joined);
    app.on_accept_result(&mut cache, "!i:x".to_owned(), Ok(joined));
    match app.screen() {
        Screen::Chat(page) => match page.current_room().child() {
            crs_tui::current_room::CurrentRoomChild::Discussion(d) => {
                assert_eq!(d.room_id(), "!i:x");
            },
            _ => panic!("expected the joined room's discussion"),
        },
        Screen::Login(_) => panic!("expected the chat page"),
    }
}

#[test]
fn failed_send_shows_inline_and_retry_clears_it() {
    let mut cache = RoomCache::new();
    cache.reconcile(room("!a:x", Ok("General"), Ok(vec![]), Membership::Joined));
    let mut app = App::new_with_user();
    app.on_event(Event::key_press(KeyCode::Enter), &cache);
    app.on_event(Event::key_press(KeyCode::Char('x')), &cache);
    app.on_event(Event::key_press(KeyCode::Enter), &cache);
    app.on_send_error("M_LIMIT_EXCEEDED".to_owned());
    match app.screen() {
        Screen::Chat(page) => match page.current_room().child() {
            crs_tui::current_room::CurrentRoomChild::Discussion(d) => {
                assert_eq!(d.error().unwrap(), "M_LIMIT_EXCEEDED");
            },
            _ => panic!("expected the discussion"),
        },
        Screen::Login(_) => panic!("expected the chat page"),
    }
    // The prompt stays editable and the next attempt starts clean.
    app.on_event(Event::key_press(KeyCode::Char('y')), &cache);
    let cmd = app.on_event(Event::key_press(KeyCode::Enter), &cache);
    match cmd {
        Some(AppCommand::Chat(ChatCommand::Send { body, .. })) => assert_eq!(body, "y"),
        _ => panic!("expected the retried send request"),
    }
    match app.screen() {
        Screen::Chat(page) => match page.current_room().child() {
            crs_tui::current_room::CurrentRoomChild::Discussion(d) => {
                assert!(d.error().is_none(), "the inline error is dismissed on retry");
            },
            _ => panic!("expected the discussion"),
        },
        Screen::Login(_) => panic!("expected the chat page"),
    }
}

#[test]
fn menu_reacts_while_an_error_is_displayed() {
    let mut cache = RoomCache::new();
    cache.reconcile(room("!a:x", Ok("broken"), Err("history down"), Membership::Joined));
    cache.reconcile(room("!b:x", Ok("fine"), Ok(vec![]), Membership::Joined));
    let mut page = ChatPage::new();
    page.on_event(Event::key_press(KeyCode::Enter), &cache);
    assert!(matches!(
        page.current_room().child(),
        crs_tui::current_room::CurrentRoomChild::Error(_, _)
    ));
    page.on_event(Event::key_press(KeyCode::Down), &cache);
    let out = page.on_event(Event::key_press(KeyCode::Enter), &cache);
    assert!(out.is_none());
    assert_eq!(page.current_room().room_name(), "fine");
}

#[test]
fn search_shortcut_reaches_the_panel_through_the_page() {
    let mut cache = RoomCache::new();
    cache.reconcile(room("!a:x", Ok("alpha"), Ok(vec![]), Membership::Joined));
    let mut app = App::new_with_user();
    let out = app.on_event(Event::ctrl_key_press(KeyCode::Char('k')), &cache);
    assert!(out.is_none());
    match app.screen() {
        Screen::Chat(page) => {
            assert!(matches!(
                page.current_room().child(),
                crs_tui::current_room::CurrentRoomChild::Search(_, _)
            ));
        },
        Screen::Login(_) => panic!("expected the chat page"),
    }
}
