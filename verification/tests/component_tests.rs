use crs_tui::candidates::Candidates;
use crs_tui::event::{Event, KeyCode};
use crs_tui::input::{Input, HEIGHT_WITHOUT_LABEL, HEIGHT_WITH_LABEL};
use crs_tui::message::DisplayMessage;
use crs_tui::prompt::{Prompt, Status};
use crs_tui::widgets::{saturating_cast, InstructionPart, InstructionsBuilder};

#[test]
fn input_editing_appends_and_removes_characters() {
    let mut input = Input::new();
    assert!(input.is_empty());
    for ch in "abc".chars() {
        input.on_event(Event::key_press(KeyCode::Char(ch)));
    }
    assert_eq!(input.as_value(), "abc");
    input.on_event(Event::key_press(KeyCode::Backspace));
    assert_eq!(input.as_value(), "ab");
    input.on_event(Event::key_press(KeyCode::Up));
    assert_eq!(input.as_value(), "ab", "other keys leave the value alone");
    input.on_event(Event::key_press(KeyCode::Backspace));
    input.on_event(Event::key_press(KeyCode::Backspace));
    input.on_event(Event::key_press(KeyCode::Backspace));
    assert_eq!(input.as_value(), "", "backspace on empty does nothing");
}

#[test]
fn input_builders_and_accessors() {
    let input = Input::new().with_label("Name".to_owned()).with_active().with_value(
        "seed".to_owned(),
    );
    assert_eq!(input.label().unwrap(), "Name");
    assert!(input.is_active());
    assert!(!input.is_hidden());
    assert_eq!(input.as_value(), "seed");
    assert_eq!(input.height(), HEIGHT_WITH_LABEL);

    let hidden = Input::new().with_hidden();
    assert!(hidden.is_hidden());
    assert_eq!(hidden.height(), HEIGHT_WITHOUT_LABEL);

    let mut input = Input::new();
    input.set_value("v".to_owned());
    assert_eq!(input.take_value(), "v");
    assert!(input.is_empty());
    input.set_active(true);
    input.set_error(true);
    assert!(input.is_active());
    assert!(input.has_error());
    assert_eq!(Input::new().with_value("xyz".to_owned()).into_value(), "xyz");
}

#[test]
fn candidates_matching_and_cursor() {
    let list = vec![
        "rust devs".to_owned(),
        "cooking".to_owned(),
        "rustaceans".to_owned(),
    ];
    let mut candidates = Candidates::new(list);
    assert_eq!(candidates.nb_matching(), 0);
    candidates.update_matching("rust");
    assert_eq!(candidates.nb_matching(), 2);
    assert_eq!(candidates.matching()[0], "rust devs");
    assert_eq!(candidates.matching()[1], "rustaceans");
    candidates.update_matching("");
    assert_eq!(candidates.nb_matching(), 3, "everything contains the empty query");
    candidates.update_matching("zzz");
    assert_eq!(candidates.nb_matching(), 0);

    assert_eq!(candidates.cursor(), None);
    candidates.on_event(Event::key_press(KeyCode::Tab));
    assert_eq!(candidates.cursor(), Some(0), "the cursor walks the whole list");
    candidates.on_event(Event::key_press(KeyCode::BackTab));
    assert_eq!(candidates.cursor(), Some(2));
    candidates.cursor_increment();
    assert_eq!(candidates.cursor(), Some(0));
}

#[test]
fn empty_candidates_never_get_a_cursor() {
    let mut candidates = Candidates::new(vec![]);
    candidates.cursor_increment();
    candidates.cursor_decrement();
    assert_eq!(candidates.cursor(), None);
}

#[test]
fn prompt_submission_and_status() {
    let mut prompt = Prompt::new(Input::new().with_active(), " Name of the room to create ".to_owned());
    assert_eq!(prompt.title(), " Name of the room to create ");
    for ch in "dev".chars() {
        assert!(prompt.on_event(Event::key_press(KeyCode::Char(ch))).is_none());
    }
    let submitted = prompt.on_event(Event::key_press(KeyCode::Enter));
    assert_eq!(submitted.as_deref(), Some("dev"));
    assert_eq!(prompt.input().as_value(), "", "the input clears on submit");

    prompt.update_status(Status::Submitting);
    assert!(!prompt.input().is_active(), "the input is blocked while submitting");
    assert!(matches!(prompt.status(), Status::Submitting));
    prompt.update(Status::Error("taken".to_owned()));
    assert!(prompt.input().is_active());
    match prompt.status() {
        Status::Error(e) => assert_eq!(e, "taken"),
        _ => panic!("expected the error status"),
    }
}

#[test]
fn prompt_possibilities_are_filtered_and_truncated() {
    let entries = vec![
        "alpha".to_owned(),
        "beta".to_owned(),
        "alphabet".to_owned(),
        "gamma".to_owned(),
    ];
    let mut prompt = Prompt::new_with_list(
        Input::new().with_active(),
        " Name of the room ".to_owned(),
        entries,
    );
    for ch in "alpha".chars() {
        prompt.on_event(Event::key_press(KeyCode::Char(ch)));
    }
    assert_eq!(prompt.get_possibilites(10), vec!["alpha".to_owned(), "alphabet".to_owned()]);
    assert_eq!(prompt.get_possibilites(1), vec!["alpha".to_owned()]);
    assert_eq!(prompt.get_possibilites(0), Vec::<String>::new());
}

#[test]
fn saturating_cast_caps_at_the_largest_width() {
    assert_eq!(saturating_cast(0), 0);
    assert_eq!(saturating_cast(1234), 1234);
    assert_eq!(saturating_cast(65535), u16::MAX);
    assert_eq!(saturating_cast(65536), u16::MAX);
    assert_eq!(saturating_cast(usize::MAX), u16::MAX);
}

#[test]
fn instructions_builder_counts_the_width() {
    let instructions = InstructionsBuilder::default()
        .text(" Switch input".to_owned())
        .key("Tab".to_owned())
        .text("Submit".to_owned())
        .key("Enter".to_owned())
        .build();
    // 13 + (3 + 4) + 6 + (5 + 4)
    assert_eq!(instructions.width, 35);
    assert_eq!(instructions.parts.len(), 4);
    match &instructions.parts[1] {
        InstructionPart::Key(k) => assert_eq!(k, "Tab"),
        InstructionPart::Text(_) => panic!("expected a key part"),
    }
}

#[test]
fn message_parts_assemble_only_when_complete() {
    let complete = DisplayMessage::from_parts(Some("hi".to_owned()), Some("alice".to_owned()))
        .expect("both parts present");
    assert_eq!(complete.as_body(), "hi");
    assert_eq!(complete.as_sender(), "alice");
    assert!(DisplayMessage::from_parts(None, Some("alice".to_owned())).is_none());
    assert!(DisplayMessage::from_parts(Some("hi".to_owned()), None).is_none());
    assert!(DisplayMessage::from_parts(None, None).is_none());
}
