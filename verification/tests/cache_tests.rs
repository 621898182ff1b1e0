use crs_tui::cache::RoomCache;
use crs_tui::message::DisplayMessage;
use crs_tui::room::{DisplayRoom, FetchError, Membership};

fn room(
    id: &str,
    name: Result<&str, &str>,
    messages: Result<Vec<DisplayMessage>, &str>,
    membership: Membership,
) -> DisplayRoom {
    DisplayRoom::new(
        id.to_owned(),
        name.map(str::to_owned).map_err(|e| FetchError::new(e.to_owned())),
        messages.map_err(|e| FetchError::new(e.to_owned())),
        membership,
    )
}

#[test]
fn first_knowledge_inserted_verbatim_even_on_errors() {
    let mut cache = RoomCache::new();
    assert!(cache.is_empty());
    cache.reconcile(room("!a:x", Err("nope"), Err("down"), Membership::Joined));
    assert_eq!(cache.len(), 1);
    let entry = cache.get(0);
    assert_eq!(entry.id(), "!a:x");
    assert_eq!(entry.as_name().unwrap_err().as_text(), "nope");
    assert_eq!(entry.as_messages().unwrap_err().as_text(), "down");
}

#[test]
fn scenario_fresh_room_then_degraded_name_fetch() {
    let mut cache = RoomCache::new();
    cache.reconcile(room("1", Ok("General"), Ok(vec![]), Membership::Joined));

    assert_eq!(cache.len(), 1);
    assert_eq!(cache.list().len(), 1);
    let entry = cache.get(0);
    assert_eq!(entry.as_name().unwrap(), "General");
    assert_eq!(entry.as_messages().unwrap().len(), 0);

    let msg = DisplayMessage::new("hello".to_owned(), "alice".to_owned());
    cache.reconcile(room("1", Err("E"), Ok(vec![msg]), Membership::Joined));

    assert_eq!(cache.len(), 1, "no duplicate entry for the same id");
    let entry = cache.get(0);
    assert_eq!(entry.as_name().unwrap(), "General", "good name survives a failed fetch");
    let messages = entry.as_messages().unwrap();
    assert_eq!(messages.len(), 1);
    assert_eq!(messages[0].as_body(), "hello");
    assert_eq!(messages[0].as_sender(), "alice");
}

#[test]
fn merge_never_regresses_messages() {
    let mut cache = RoomCache::new();
    let msg = DisplayMessage::new("kept".to_owned(), "bob".to_owned());
    cache.reconcile(room("!r:x", Ok("Room"), Ok(vec![msg]), Membership::Joined));
    cache.reconcile(room("!r:x", Ok("Room"), Err("flaky poll"), Membership::Joined));
    let entry = cache.get(0);
    let messages = entry.as_messages().unwrap();
    assert_eq!(messages.len(), 1);
    assert_eq!(messages[0].as_body(), "kept");
}

#[test]
fn merge_adopts_success_over_cached_error() {
    let mut cache = RoomCache::new();
    cache.reconcile(room("!r:x", Ok("Room"), Err("first failure"), Membership::Joined));
    let msg = DisplayMessage::new("fresh".to_owned(), "bob".to_owned());
    cache.reconcile(room("!r:x", Ok("Room"), Ok(vec![msg]), Membership::Joined));
    let entry = cache.get(0);
    assert_eq!(entry.as_messages().unwrap()[0].as_body(), "fresh");
}

#[test]
fn merge_replaces_error_with_newer_error() {
    let mut cache = RoomCache::new();
    cache.reconcile(room("!r:x", Err("old error"), Ok(vec![]), Membership::Joined));
    cache.reconcile(room("!r:x", Err("new error"), Ok(vec![]), Membership::Joined));
    assert_eq!(cache.get(0).as_name().unwrap_err().as_text(), "new error");
}

#[test]
fn failed_name_fetch_does_not_touch_messages_and_vice_versa() {
    let mut cache = RoomCache::new();
    let msg = DisplayMessage::new("body".to_owned(), "carol".to_owned());
    cache.reconcile(room("!r:x", Ok("Named"), Ok(vec![msg]), Membership::Joined));

    cache.reconcile(room("!r:x", Err("name down"), Ok(vec![]), Membership::Joined));
    let entry = cache.get(0);
    assert_eq!(entry.as_name().unwrap(), "Named", "name kept");
    assert_eq!(entry.as_messages().unwrap().len(), 0, "messages refreshed independently");

    cache.reconcile(room("!r:x", Ok("Renamed"), Err("history down"), Membership::Joined));
    let entry = cache.get(0);
    assert_eq!(entry.as_name().unwrap(), "Renamed");
    assert_eq!(entry.as_messages().unwrap().len(), 0, "messages kept");
}

#[test]
fn reconciling_same_id_twice_never_duplicates() {
    let mut cache = RoomCache::new();
    cache.reconcile(room("!dup:x", Ok("One"), Ok(vec![]), Membership::Joined));
    cache.reconcile(room("!dup:x", Ok("Two"), Ok(vec![]), Membership::Joined));
    assert_eq!(cache.len(), 1);
    assert_eq!(cache.get(0).as_name().unwrap(), "Two");
}

#[test]
fn distinct_ids_all_appear_after_interleaved_reconciliations() {
    let mut cache = RoomCache::new();
    let ids = ["!c:x", "!a:x", "!e:x", "!b:x", "!d:x"];
    for id in ids {
        cache.reconcile(room(id, Ok(id), Ok(vec![]), Membership::Joined));
    }
    for id in ids {
        cache.reconcile(room(id, Ok(id), Err("refresh hiccup"), Membership::Joined));
    }
    assert_eq!(cache.len(), ids.len(), "no lost update: every id has exactly one entry");
    for id in ids {
        let entry = cache.find(id).expect("id must be present");
        assert_eq!(entry.id(), id);
        assert_eq!(entry.as_name().unwrap(), id);
    }
}

#[test]
fn insertion_keeps_first_seen_order() {
    let mut cache = RoomCache::new();
    cache.reconcile(room("!1:x", Ok("first"), Ok(vec![]), Membership::Joined));
    cache.reconcile(room("!2:x", Ok("second"), Ok(vec![]), Membership::Joined));
    cache.reconcile(room("!1:x", Ok("first again"), Ok(vec![]), Membership::Joined));
    assert_eq!(cache.get(0).id(), "!1:x");
    assert_eq!(cache.get(1).id(), "!2:x");
    assert_eq!(cache.find_index("!2:x"), Some(1));
    assert_eq!(cache.find_index("!3:x"), None);
}

#[test]
fn membership_follows_the_fresh_observation() {
    let mut cache = RoomCache::new();
    cache.reconcile(room("!m:x", Ok("Room"), Ok(vec![]), Membership::Invited));
    assert!(cache.get(0).has_invitation());
    assert_eq!(cache.get(0).membership(), Membership::Invited);
    cache.reconcile(room("!m:x", Ok("Room"), Ok(vec![]), Membership::Joined));
    assert!(!cache.get(0).has_invitation());
    assert_eq!(cache.get(0).membership(), Membership::Joined);
}

#[test]
fn update_from_merges_in_place() {
    let mut cached = room("!u:x", Ok("Keep"), Err("old"), Membership::Joined);
    let fresh = room("!u:x", Err("ignored"), Ok(vec![]), Membership::Left);
    cached.update_from(fresh);
    assert_eq!(cached.as_name().unwrap(), "Keep");
    assert!(cached.as_messages().is_ok());
    assert_eq!(cached.membership(), Membership::Left);
    assert_eq!(cached.id(), "!u:x");
}
