use crs_tui::cache::RoomCache;
use crs_tui::current_room::{
    CurrentRoom, CurrentRoomChild, RoomCommand, UpdateCurrentRoomPanel,
};
use crs_tui::event::{Event, KeyCode};
use crs_tui::message::DisplayMessage;
use crs_tui::room::{DisplayRoom, FetchError, Membership};

fn room(
    id: &str,
    name: Result<&str, &str>,
    messages: Result<Vec<DisplayMessage>, &str>,
    membership: Membership,
) -> DisplayRoom {
    DisplayRoom::new(
        id.to_owned(),
        name.map(str::to_owned).map_err(|e| FetchError::new(e.to_owned())),
        messages.map_err(|e| FetchError::new(e.to_owned())),
        membership,
    )
}

fn cache_with(rooms: Vec<DisplayRoom>) -> RoomCache {
    let mut cache = RoomCache::new();
    for r in rooms {
        cache.reconcile(r);
    }
    cache
}

#[test]
fn selecting_a_joined_room_opens_its_discussion() {
    let mut panel = CurrentRoom::default();
    assert!(matches!(panel.child(), CurrentRoomChild::NoRoom));
    let r = room("!a:x", Ok("General"), Ok(vec![]), Membership::Joined);
    panel.select_new_room(&r);
    assert_eq!(panel.room_name(), "General");
    match panel.child() {
        CurrentRoomChild::Discussion(d) => assert_eq!(d.room_id(), "!a:x"),
        _ => panic!("expected a discussion"),
    }
}

#[test]
fn selecting_an_unnamed_room_shows_the_placeholder() {
    let mut panel = CurrentRoom::default();
    let r = room("!a:x", Err("no name"), Ok(vec![]), Membership::Joined);
    panel.select_new_room(&r);
    assert_eq!(panel.room_name(), "<unknown channel>");
}

#[test]
fn selecting_a_room_with_failed_history_shows_the_error() {
    let mut panel = CurrentRoom::default();
    let r = room("!a:x", Ok("General"), Err("history down"), Membership::Joined);
    panel.select_new_room(&r);
    match panel.child() {
        CurrentRoomChild::Error(msg, prior) => {
            assert_eq!(msg, "history down");
            assert_eq!(prior.as_deref(), Some("!a:x"));
        },
        _ => panic!("expected the error display"),
    }
}

#[test]
fn accept_input_in_invited_state_requests_the_join() {
    let cache = cache_with(vec![room("!i:x", Ok("Inv"), Ok(vec![]), Membership::Invited)]);
    let mut panel = CurrentRoom::default();
    panel.select_new_room(cache.find("!i:x").unwrap());
    assert!(matches!(panel.child(), CurrentRoomChild::Invited(_, _)));

    let other = panel.on_event(Event::key_press(KeyCode::Char('x')), &cache);
    assert!(other.is_none(), "only the accept key requests the join");

    let cmd = panel.on_event(Event::key_press(KeyCode::Enter), &cache);
    match cmd {
        Some(RoomCommand::AcceptInvitation { room_id }) => assert_eq!(room_id, "!i:x"),
        _ => panic!("expected the join request"),
    }
}

#[test]
fn accept_success_transitions_to_discussion() {
    let mut cache = cache_with(vec![room("!i:x", Ok("Inv"), Ok(vec![]), Membership::Invited)]);
    let mut panel = CurrentRoom::default();
    panel.select_new_room(cache.find("!i:x").unwrap());

    let joined = room("!i:x", Ok("Inv"), Ok(vec![]), Membership::Joined);
    panel.on_accept_result(&mut cache, "!i:x".to_owned(), Ok(joined));
    match panel.child() {
        CurrentRoomChild::Discussion(d) => assert_eq!(d.room_id(), "!i:x"),
        _ => panic!("expected a discussion after the join succeeded"),
    }
    assert_eq!(cache.len(), 1);
    assert!(!cache.get(0).has_invitation(), "the fresh membership was reconciled");
}

#[test]
fn accept_failure_shows_error_and_retains_the_room() {
    let mut cache = cache_with(vec![room("!i:x", Ok("Inv"), Ok(vec![]), Membership::Invited)]);
    let mut panel = CurrentRoom::default();
    panel.select_new_room(cache.find("!i:x").unwrap());

    panel.on_accept_result(&mut cache, "!i:x".to_owned(), Err("join refused".to_owned()));
    match panel.child() {
        CurrentRoomChild::Error(msg, prior) => {
            assert_eq!(msg, "join refused");
            assert_eq!(prior.as_deref(), Some("!i:x"), "same room kept for a later retry");
        },
        _ => panic!("expected the error display"),
    }
    assert!(cache.get(0).has_invitation(), "cache untouched on failure");
}

#[test]
fn create_room_shortcut_opens_the_popup_over_the_current_room() {
    let cache = cache_with(vec![room("!a:x", Ok("A"), Ok(vec![]), Membership::Joined)]);
    let mut panel = CurrentRoom::default();
    panel.select_new_room(cache.find("!a:x").unwrap());

    let out = panel.on_event(Event::ctrl_key_press(KeyCode::Char('n')), &cache);
    assert!(out.is_none());
    match panel.child() {
        CurrentRoomChild::CreateRoom(_, prior) => assert_eq!(prior.as_deref(), Some("!a:x")),
        _ => panic!("expected the creation popup"),
    }
}

#[test]
fn create_submission_carries_the_typed_name() {
    let cache = RoomCache::new();
    let mut panel = CurrentRoom::default();
    panel.on_event(Event::ctrl_key_press(KeyCode::Char('n')), &cache);
    for ch in "dev".chars() {
        panel.on_event(Event::key_press(KeyCode::Char(ch)), &cache);
    }
    let cmd = panel.on_event(Event::key_press(KeyCode::Enter), &cache);
    match cmd {
        Some(RoomCommand::Create(action)) => assert_eq!(action.0, "dev"),
        _ => panic!("expected the creation request"),
    }
}

#[test]
fn invite_shortcut_and_submission() {
    let cache = cache_with(vec![room("!a:x", Ok("A"), Ok(vec![]), Membership::Joined)]);
    let mut panel = CurrentRoom::default();
    panel.select_new_room(cache.find("!a:x").unwrap());

    panel.on_event(Event::ctrl_key_press(KeyCode::Char('j')), &cache);
    match panel.child() {
        CurrentRoomChild::Invite(popup) => {
            assert_eq!(popup.room_id(), "!a:x");
            assert_eq!(popup.person().as_value(), "", "the popup opens blank");
        },
        _ => panic!("expected the invitation popup"),
    }

    for ch in "@bob:x".chars() {
        panel.on_event(Event::key_press(KeyCode::Char(ch)), &cache);
    }
    let cmd = panel.on_event(Event::key_press(KeyCode::Enter), &cache);
    match cmd {
        Some(RoomCommand::Invite { room_id, user }) => {
            assert_eq!(room_id, "!a:x");
            assert_eq!(user, "@bob:x");
        },
        _ => panic!("expected the invitation request"),
    }

    panel.on_invite_error("not allowed".to_owned());
    match panel.child() {
        CurrentRoomChild::Invite(popup) => {
            assert_eq!(popup.error().unwrap(), "not allowed");
        },
        _ => panic!("the popup stays open for a retry"),
    }
}

#[test]
fn sending_a_message_from_the_discussion() {
    let cache = cache_with(vec![room("!a:x", Ok("A"), Ok(vec![]), Membership::Joined)]);
    let mut panel = CurrentRoom::default();
    panel.select_new_room(cache.find("!a:x").unwrap());

    for ch in "hi".chars() {
        panel.on_event(Event::key_press(KeyCode::Char(ch)), &cache);
    }
    let cmd = panel.on_event(Event::key_press(KeyCode::Enter), &cache);
    match cmd {
        Some(RoomCommand::Send { room_id, body }) => {
            assert_eq!(room_id, "!a:x");
            assert_eq!(body, "hi");
        },
        _ => panic!("expected the send request"),
    }
    match panel.child() {
        CurrentRoomChild::Discussion(d) => assert_eq!(d.message_prompt().as_value(), ""),
        _ => panic!("the discussion stays open"),
    }
}

#[test]
fn search_filters_moves_cursor_and_opens_a_hit() {
    let cache = cache_with(vec![
        room("!a:x", Ok("rust devs"), Ok(vec![]), Membership::Joined),
        room("!b:x", Ok("cooking"), Ok(vec![]), Membership::Joined),
        room("!c:x", Ok("rustaceans"), Ok(vec![]), Membership::Joined),
    ]);
    let mut panel = CurrentRoom::default();
    panel.update(UpdateCurrentRoomPanel::Search, &cache);

    for ch in "rust".chars() {
        panel.on_event(Event::key_press(KeyCode::Char(ch)), &cache);
    }
    match panel.child() {
        CurrentRoomChild::Search(search, _) => {
            let hits = search.results();
            assert_eq!(hits.len(), 2);
            assert_eq!(hits[0].name, "rust devs");
            assert_eq!(hits[0].index, 0);
            assert_eq!(hits[1].name, "rustaceans");
            assert_eq!(hits[1].index, 2);
            assert_eq!(search.cursor(), None);
        },
        _ => panic!("expected the search popup"),
    }

    panel.on_event(Event::key_press(KeyCode::Tab), &cache);
    panel.on_event(Event::key_press(KeyCode::Tab), &cache);
    match panel.child() {
        CurrentRoomChild::Search(search, _) => assert_eq!(search.cursor(), Some(1)),
        _ => panic!("expected the search popup"),
    }

    let out = panel.on_event(Event::key_press(KeyCode::Enter), &cache);
    assert!(out.is_none(), "opening a hit is handled inside the panel");
    match panel.child() {
        CurrentRoomChild::Discussion(d) => assert_eq!(d.room_id(), "!c:x"),
        _ => panic!("expected the hit's discussion"),
    }
    assert_eq!(panel.room_name(), "rustaceans");
}

#[test]
fn dismissing_the_search_restores_the_prior_room() {
    let cache = cache_with(vec![room("!a:x", Ok("A"), Ok(vec![]), Membership::Joined)]);
    let mut panel = CurrentRoom::default();
    panel.select_new_room(cache.find("!a:x").unwrap());
    panel.update(UpdateCurrentRoomPanel::Search, &cache);
    match panel.child() {
        CurrentRoomChild::Search(_, prior) => assert_eq!(prior.as_deref(), Some("!a:x")),
        _ => panic!("expected the search popup"),
    }
    panel.on_event(Event::key_press(KeyCode::CapsLock), &cache);
    match panel.child() {
        CurrentRoomChild::Discussion(d) => assert_eq!(d.room_id(), "!a:x"),
        _ => panic!("expected the prior room back"),
    }
}

#[test]
fn error_update_covers_the_room_but_keeps_its_key() {
    let cache = cache_with(vec![room("!a:x", Ok("A"), Ok(vec![]), Membership::Joined)]);
    let mut panel = CurrentRoom::default();
    panel.select_new_room(cache.find("!a:x").unwrap());
    panel.update(UpdateCurrentRoomPanel::Error("creation failed".to_owned()), &cache);
    match panel.child() {
        CurrentRoomChild::Error(msg, prior) => {
            assert_eq!(msg, "creation failed");
            assert_eq!(prior.as_deref(), Some("!a:x"));
        },
        _ => panic!("expected the error display"),
    }
}

#[test]
fn search_keeps_at_most_twenty_hits() {
    let mut cache = RoomCache::new();
    for i in 0..25 {
        let id = format!("!r{i}:x");
        let name = format!("room {i}");
        cache.reconcile(room(&id, Ok(&name), Ok(vec![]), Membership::Joined));
    }
    let mut search = crs_tui::current_room::search::RoomSearch::new();
    search.on_event(Event::key_press(KeyCode::Char('r')), &cache);
    assert_eq!(search.results().len(), 20, "hits are cut off");
    assert_eq!(search.results()[0].index, 0);
    assert_eq!(search.results()[0].name, "room 0");
    assert_eq!(search.results()[19].index, 19);
}

#[test]
fn fetch_error_keeps_its_text() {
    let error = FetchError::new("M_LIMIT_EXCEEDED".to_owned());
    assert_eq!(error.as_text(), "M_LIMIT_EXCEEDED");
}

#[test]
fn cursor_wraps_both_ways_over_search_results() {
    let cache = cache_with(vec![
        room("!a:x", Ok("r1"), Ok(vec![]), Membership::Joined),
        room("!b:x", Ok("r2"), Ok(vec![]), Membership::Joined),
    ]);
    let mut search = crs_tui::current_room::search::RoomSearch::new();
    search.on_event(Event::key_press(KeyCode::Char('r')), &cache);
    assert_eq!(search.results().len(), 2);
    search.cursor_increment();
    assert_eq!(search.cursor(), Some(0));
    search.cursor_decrement();
    search.cursor_decrement();
    assert_eq!(search.cursor(), Some(0), "decrement wraps to the last entry and back");
    search.cursor_increment();
    search.cursor_increment();
    assert_eq!(search.cursor(), Some(0), "increment wraps past the last entry");
}
