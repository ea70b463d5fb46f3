use checklist::backend::config::Config;
use checklist::backend::tags::TagSet;
use checklist::backend::task::{
    Status, Task, TaskList, Timestamp, Urgency, ID_KIND_MASK, ID_KIND_RANDOM,
};
use checklist::display::add::{stage_after, stage_before, EntryMode, Inputs, Stage};
use checklist::display::keys::{KeyCode, KeyEvent, KeyEventKind, KeyModifiers};
use checklist::display::text::HighlightDirection;
use checklist::display::tui::{App, Reselect};
use std::path::PathBuf;

fn fresh() -> App {
    App::new(Config::new(PathBuf::from("tasks.sqlite")), None)
}

fn key(code: KeyCode) -> KeyEvent {
    KeyEvent::new(code, KeyModifiers::Plain)
}

fn ctrl(code: KeyCode) -> KeyEvent {
    KeyEvent::new(code, KeyModifiers::Control)
}

fn shift(code: KeyCode) -> KeyEvent {
    KeyEvent::new(code, KeyModifiers::Shift)
}

fn adding() -> App {
    let mut app = fresh();
    app.open_add();
    app
}

fn updating(task: Task) -> App {
    let mut app = fresh();
    app.tasklist = TaskList::from(vec![task]);
    app.tasklist.select(Some(0));
    app.open_update();
    app
}

fn sample() -> Task {
    Task::from_sql(
        42,
        String::from("Write report"),
        Some(String::from("quarterly")),
        None,
        Urgency::High,
        Status::Working,
        Some(TagSet::from_vec(vec!["work".to_string(), "q3".to_string()])),
        Timestamp { secs: 1000, nanos: 7 },
        None,
    )
}

fn type_text(app: &mut App, text: &str) {
    for c in text.chars() {
        app.handle_keys_for_text_inputs(key(KeyCode::Char(c)));
    }
}

#[test]
fn key_event_is_a_press() {
    let k = KeyEvent::new(KeyCode::Enter, KeyModifiers::Shift);
    assert_eq!(k.code, KeyCode::Enter);
    assert_eq!(k.modifiers, KeyModifiers::Shift);
    assert_eq!(k.kind, KeyEventKind::Press);
}

#[test]
fn stage_goes_forward_six_times_to_finished_and_back() {
    let mut stage = Stage::Name;
    let forward = [
        Stage::Urgency,
        Stage::Status,
        Stage::Description,
        Stage::Latest,
        Stage::Tags,
        Stage::Finished,
    ];
    for expected in forward {
        stage.next();
        assert_eq!(stage, expected);
    }
    stage.next();
    assert_eq!(stage, Stage::Finished);
    let backward =
        [Stage::Tags, Stage::Latest, Stage::Description, Stage::Status, Stage::Urgency, Stage::Name];
    for expected in backward {
        stage.back();
        assert_eq!(stage, expected);
    }
    stage.back();
    assert_eq!(stage, Stage::Name);
}

#[test]
fn staging_lies_outside_the_order() {
    let mut stage = Stage::Staging;
    stage.next();
    assert_eq!(stage, Stage::Staging);
    stage.back();
    assert_eq!(stage, Stage::Staging);
    assert_eq!(Stage::default(), Stage::Name);
    assert!(Stage::Name < Stage::Finished);
}

#[test]
fn stage_after_and_before_depend_on_the_mode() {
    assert_eq!(stage_after(EntryMode::Add, Stage::Name), Stage::Urgency);
    assert_eq!(stage_after(EntryMode::Add, Stage::Tags), Stage::Finished);
    assert_eq!(stage_after(EntryMode::Update, Stage::Name), Stage::Finished);
    assert_eq!(stage_after(EntryMode::QuickAdd, Stage::Name), Stage::Finished);
    assert_eq!(stage_before(EntryMode::Add, Stage::Status), Stage::Urgency);
    assert_eq!(stage_before(EntryMode::Add, Stage::Name), Stage::Name);
    assert_eq!(stage_before(EntryMode::Update, Stage::Latest), Stage::Staging);
    assert_eq!(stage_before(EntryMode::QuickAdd, Stage::Name), Stage::Name);
}

#[test]
fn inputs_are_copied_from_a_task() {
    let task = sample();
    let inputs = Inputs::from_task(&task);
    assert_eq!(inputs.name, "Write report");
    assert_eq!(inputs.urgency, Urgency::High);
    assert_eq!(inputs.status, Status::Working);
    assert_eq!(inputs.description, "quarterly");
    assert_eq!(inputs.latest, "");
    assert_eq!(inputs.tags.to_vec(), vec!["q3".to_string(), "work".to_string()]);
    assert_eq!(inputs.tags_input, "");
    // the task is left as it is
    assert_eq!(task, sample());

    let blank = Inputs::default();
    assert_eq!(blank.name, "");
    assert_eq!(blank.urgency, Urgency::Low);
    assert_eq!(blank.status, Status::Open);
    assert!(blank.tags.is_empty());
}

#[test]
fn text_stage_types_moves_and_erases() {
    let mut app = adding();
    assert_eq!(*app.get_stage_off_entry_mode(), Stage::Name);
    type_text(&mut app, "Buy milk");
    assert_eq!(app.inputs.name, "Buy milk");
    assert_eq!(app.text_info.character_index, 8);
    assert_eq!(app.get_text_length(), 8);
    app.handle_keys_for_text_inputs(key(KeyCode::Left));
    app.handle_keys_for_text_inputs(key(KeyCode::Left));
    app.handle_keys_for_text_inputs(key(KeyCode::Backspace));
    assert_eq!(app.inputs.name, "Buy mlk");
    assert_eq!(app.text_info.character_index, 5);
    app.handle_keys_for_text_inputs(shift(KeyCode::Char('I')));
    assert_eq!(app.inputs.name, "Buy mIlk");
    app.handle_keys_for_text_inputs(key(KeyCode::Right));
    app.handle_keys_for_text_inputs(key(KeyCode::Right));
    app.handle_keys_for_text_inputs(key(KeyCode::Right));
    assert_eq!(app.text_info.character_index, 8);
    assert_eq!(app.clamp_cursor(100), 8);
    assert_eq!(app.clamp_cursor(3), 3);
    // the other fields are untouched
    assert_eq!(app.inputs.description, "");
    assert_eq!(app.add_stage, Stage::Name);
    assert!(app.add_popup);
}

#[test]
fn text_stage_highlights_and_replaces() {
    let mut app = adding();
    type_text(&mut app, "abcdef");
    app.handle_keys_for_text_inputs(shift(KeyCode::Left));
    app.handle_keys_for_text_inputs(shift(KeyCode::Left));
    assert!(app.text_info.is_text_highlighted);
    assert_eq!(app.get_highlight_start_and_end(), (4, 6));
    app.handle_keys_for_text_inputs(key(KeyCode::Char('X')));
    assert_eq!(app.inputs.name, "abcdX");
    assert!(!app.text_info.is_text_highlighted);

    app.handle_keys_for_text_inputs(ctrl(KeyCode::Char('a')));
    assert!(app.text_info.is_text_highlighted);
    assert_eq!(app.get_highlight_start_and_end(), (0, 5));
    app.handle_keys_for_text_inputs(key(KeyCode::Char('c')));
    assert_eq!(app.inputs.name, "c");
    assert_eq!(app.text_info.character_index, 1);

    app.handle_keys_for_text_inputs(ctrl(KeyCode::Char('a')));
    app.handle_keys_for_text_inputs(key(KeyCode::Backspace));
    assert_eq!(app.inputs.name, "");

    type_text(&mut app, "xy");
    app.handle_keys_for_text_inputs(shift(KeyCode::Left));
    // a key that does nothing else ends the highlight
    app.handle_keys_for_text_inputs(key(KeyCode::Up));
    assert!(!app.text_info.is_text_highlighted);
    assert_eq!(app.inputs.name, "xy");
}

#[test]
fn highlight_methods_act_on_the_active_field() {
    let mut app = adding();
    type_text(&mut app, "hello");
    app.highlight_all();
    assert_eq!(app.get_highlight_start_and_end(), (0, 5));
    assert_eq!(app.text_info.character_index, 0);
    app.move_cursor_right();
    assert_eq!(app.text_info.character_index, 5);
    app.highlight_single_char(HighlightDirection::Left);
    assert_eq!(app.get_highlight_start_and_end(), (4, 5));
    app.delete_char();
    assert_eq!(app.inputs.name, "hell");
    app.enter_char('o');
    assert_eq!(app.inputs.name, "hello");
    app.move_cursor_left();
    assert_eq!(app.text_info.character_index, 4);
    assert!(app.at_text_stage());
}

#[test]
fn wizard_walks_through_every_stage_of_a_new_task() {
    let mut app = adding();
    type_text(&mut app, "Plan trip");
    app.handle_keys_for_text_inputs(key(KeyCode::Enter));
    assert_eq!(app.add_stage, Stage::Urgency);
    assert_eq!(app.text_info.character_index, 0);
    assert!(!app.at_text_stage());

    app.handle_keys_for_urgency(key(KeyCode::Char('9')));
    assert_eq!(app.add_stage, Stage::Urgency);
    app.handle_keys_for_urgency(key(KeyCode::Char('3')));
    assert_eq!(app.inputs.urgency, Urgency::High);
    assert_eq!(app.add_stage, Stage::Status);

    app.handle_keys_for_status(key(KeyCode::Char('2')));
    assert_eq!(app.inputs.status, Status::Working);
    assert_eq!(app.add_stage, Stage::Description);

    type_text(&mut app, "by train");
    assert_eq!(app.inputs.description, "by train");
    app.handle_keys_for_text_inputs(key(KeyCode::Enter));
    assert_eq!(app.add_stage, Stage::Latest);
    app.handle_keys_for_text_inputs(key(KeyCode::Enter));
    assert_eq!(app.add_stage, Stage::Tags);

    for c in "fun".chars() {
        app.handle_keys_for_tags(key(KeyCode::Char(c)));
    }
    assert_eq!(app.inputs.tags_input, "fun");
    app.handle_keys_for_tags(key(KeyCode::Enter));
    assert_eq!(app.add_stage, Stage::Tags);
    assert_eq!(app.inputs.tags_input, "");
    assert_eq!(app.inputs.tags.to_vec(), vec!["fun".to_string()]);
    assert_eq!(app.text_info.character_index, 0);
    app.handle_keys_for_tags(key(KeyCode::Enter));
    assert_eq!(app.add_stage, Stage::Finished);

    let task = app.add_new_task_in().unwrap();
    assert_eq!(task.name, "Plan trip");
    assert_eq!(task.urgency, Urgency::High);
    assert_eq!(task.status, Status::Working);
    assert_eq!(task.description, Some("by train".to_string()));
    assert_eq!(task.latest, None);
    assert_eq!(task.tags.map(|t| t.to_vec()), Some(vec!["fun".to_string()]));
    assert_eq!(task.completed_on, None);
}

#[test]
fn every_urgency_and_status_key() {
    for (ch, urgency) in
        [('1', Urgency::Low), ('2', Urgency::Medium), ('3', Urgency::High), ('4', Urgency::Critical)]
    {
        let mut app = adding();
        app.set_stage(Stage::Urgency);
        app.handle_keys_for_urgency(key(KeyCode::Char(ch)));
        assert_eq!(app.inputs.urgency, urgency);
        assert_eq!(app.add_stage, Stage::Status);
    }
    for (ch, status) in
        [('1', Status::Open), ('2', Status::Working), ('3', Status::Paused), ('4', Status::Completed)]
    {
        let mut app = adding();
        app.set_stage(Stage::Status);
        app.handle_keys_for_status(key(KeyCode::Char(ch)));
        assert_eq!(app.inputs.status, status);
        assert_eq!(app.add_stage, Stage::Description);
    }
}

#[test]
fn going_back_keeps_the_cursor_within_the_text() {
    let mut app = adding();
    type_text(&mut app, "ab");
    app.handle_keys_for_text_inputs(key(KeyCode::Enter));
    app.handle_keys_for_urgency(key(KeyCode::Char('1')));
    app.handle_keys_for_status(key(KeyCode::Char('1')));
    type_text(&mut app, "a long description");
    assert_eq!(app.text_info.character_index, 18);
    app.handle_keys_for_text_inputs(ctrl(KeyCode::Left));
    assert_eq!(app.add_stage, Stage::Status);
    assert_eq!(app.text_info.character_index, 18);
    app.handle_keys_for_status(key(KeyCode::Left));
    assert_eq!(app.add_stage, Stage::Urgency);
    assert_eq!(app.text_info.character_index, 18);
    app.handle_keys_for_urgency(key(KeyCode::Left));
    assert_eq!(app.add_stage, Stage::Name);
    assert_eq!(app.text_info.character_index, 2);
    app.handle_keys_for_text_inputs(ctrl(KeyCode::Left));
    assert_eq!(app.add_stage, Stage::Name);
    assert_eq!(app.text_info.character_index, 2);
    assert_eq!(app.inputs.name, "ab");
    assert_eq!(app.inputs.description, "a long description");
}

#[test]
fn a_choice_leaves_the_cursor_where_the_next_text_reaches() {
    let mut app = adding();
    type_text(&mut app, "ab");
    app.handle_keys_for_text_inputs(key(KeyCode::Enter));
    assert_eq!(app.text_info.character_index, 0);
    app.handle_keys_for_urgency(key(KeyCode::Char('2')));
    assert_eq!(app.add_stage, Stage::Status);
    assert_eq!(app.text_info.character_index, 0);
    app.handle_keys_for_status(key(KeyCode::Char('1')));
    assert_eq!(app.add_stage, Stage::Description);
    assert_eq!(app.text_info.character_index, 0);
    type_text(&mut app, "hello");
    app.handle_keys_for_text_inputs(key(KeyCode::Left));
    assert_eq!(app.text_info.character_index, 4);
    app.handle_keys_for_text_inputs(ctrl(KeyCode::Left));
    assert_eq!(app.add_stage, Stage::Status);
    app.handle_keys_for_status(key(KeyCode::Left));
    assert_eq!(app.add_stage, Stage::Urgency);
    app.handle_keys_for_urgency(key(KeyCode::Char('7')));
    assert_eq!(app.add_stage, Stage::Urgency);
    app.handle_keys_for_urgency(key(KeyCode::Char('4')));
    assert_eq!(app.add_stage, Stage::Status);
    assert_eq!(app.inputs.urgency, Urgency::Critical);
    assert_eq!(app.text_info.character_index, 4);
    app.handle_keys_for_status(key(KeyCode::Char('3')));
    assert_eq!(app.add_stage, Stage::Description);
    assert_eq!(app.inputs.status, Status::Paused);
    assert_eq!(app.text_info.character_index, 4);
    type_text(&mut app, "!");
    assert_eq!(app.inputs.description, "hell!o");

    let mut short = adding();
    short.set_stage(Stage::Status);
    short.inputs.description = String::from("ab");
    short.text_info.character_index = 9;
    short.handle_keys_for_status(key(KeyCode::Char('1')));
    assert_eq!(short.add_stage, Stage::Description);
    assert_eq!(short.text_info.character_index, 2);
}

#[test]
fn the_cursor_is_brought_back_into_the_text() {
    let mut app = adding();
    app.inputs.name = String::from("añb");
    app.text_info.character_index = 7;
    app.settle();
    assert_eq!(app.text_info.character_index, 3);
    app.text_info.character_index = 2;
    app.settle();
    assert_eq!(app.text_info.character_index, 2);
    app.set_stage(Stage::Urgency);
    app.text_info.character_index = 7;
    app.settle();
    assert_eq!(app.text_info.character_index, 7);
}

#[test]
fn escape_discards_what_was_entered() {
    let mut app = adding();
    type_text(&mut app, "half a na");
    app.handle_keys_for_text_inputs(key(KeyCode::Esc));
    assert!(!app.add_popup);
    assert_eq!(app.inputs.name, "");
    assert_eq!(app.text_info.character_index, 0);

    let mut urgency = adding();
    urgency.set_stage(Stage::Urgency);
    urgency.handle_keys_for_urgency(key(KeyCode::Esc));
    assert!(!urgency.add_popup);

    let mut status = updating(sample());
    status.handle_update_staging(key(KeyCode::Char('2')));
    status.handle_keys_for_status(key(KeyCode::Esc));
    assert!(!status.update_popup);
    assert_eq!(status.inputs.name, "");

    let mut tags = adding();
    tags.set_stage(Stage::Tags);
    tags.handle_keys_for_tags(key(KeyCode::Char('t')));
    tags.handle_keys_for_tags(key(KeyCode::Esc));
    assert!(!tags.add_popup);
    assert_eq!(tags.inputs.tags_input, "");
}

#[test]
fn committing_a_tag_twice_holds_it_once() {
    let mut app = adding();
    app.set_stage(Stage::Tags);
    for _ in 0..2 {
        for c in "foo".chars() {
            app.handle_keys_for_tags(key(KeyCode::Char(c)));
        }
        app.handle_keys_for_tags(key(KeyCode::Enter));
    }
    assert_eq!(app.inputs.tags.to_vec(), vec!["foo".to_string()]);
    assert_eq!(app.inputs.tags_input, "");
    assert_eq!(app.add_stage, Stage::Tags);

    app.inputs.tags_input = String::from("bar");
    app.commit_typed();
    assert_eq!(app.inputs.tags.to_vec(), vec!["bar".to_string(), "foo".to_string()]);
}

#[test]
fn tags_are_picked_and_removed() {
    let mut app = adding();
    app.set_stage(Stage::Tags);
    // nothing to pick yet
    app.handle_keys_for_tags(key(KeyCode::Down));
    assert!(!app.highlight_tags);
    for tag in ["cherry", "apple", "banana"] {
        for c in tag.chars() {
            app.handle_keys_for_tags(key(KeyCode::Char(c)));
        }
        app.handle_keys_for_tags(key(KeyCode::Enter));
    }
    app.handle_keys_for_tags(key(KeyCode::Down));
    assert!(app.highlight_tags);
    assert_eq!(app.tags_highlight_value, 0);
    app.handle_keys_for_tags(key(KeyCode::Left));
    assert_eq!(app.tags_highlight_value, 0);
    app.handle_keys_for_tags(key(KeyCode::Right));
    app.handle_keys_for_tags(key(KeyCode::Right));
    app.handle_keys_for_tags(key(KeyCode::Right));
    assert_eq!(app.tags_highlight_value, 2);
    // while a tag is picked, characters are not typed
    app.handle_keys_for_tags(key(KeyCode::Char('z')));
    assert_eq!(app.inputs.tags_input, "");
    app.handle_keys_for_tags(key(KeyCode::Char('d')));
    assert_eq!(app.inputs.tags.to_vec(), vec!["apple".to_string(), "banana".to_string()]);
    assert_eq!(app.tags_highlight_value, 1);
    app.handle_keys_for_tags(key(KeyCode::Up));
    assert!(!app.highlight_tags);
    app.handle_keys_for_tags(key(KeyCode::Down));
    app.handle_keys_for_tags(key(KeyCode::Char('d')));
    app.handle_keys_for_tags(key(KeyCode::Char('d')));
    assert!(app.inputs.tags.is_empty());
    assert!(!app.highlight_tags);
    assert_eq!(app.tags_highlight_value, 0);
}

#[test]
fn tag_stage_edits_the_typed_text() {
    let mut app = adding();
    app.set_stage(Stage::Tags);
    for c in "abc".chars() {
        app.handle_keys_for_tags(key(KeyCode::Char(c)));
    }
    app.handle_keys_for_tags(key(KeyCode::Left));
    app.handle_keys_for_tags(key(KeyCode::Backspace));
    assert_eq!(app.inputs.tags_input, "ac");
    app.handle_keys_for_tags(key(KeyCode::Right));
    assert_eq!(app.text_info.character_index, 2);
    app.handle_keys_for_tags(ctrl(KeyCode::Left));
    assert_eq!(app.add_stage, Stage::Latest);
    assert_eq!(app.text_info.character_index, 0);
}

#[test]
fn update_menu_picks_the_field() {
    for (ch, stage, cursor) in [
        ('1', Stage::Name, 12),
        ('2', Stage::Status, 0),
        ('3', Stage::Urgency, 0),
        ('4', Stage::Description, 9),
        ('5', Stage::Latest, 0),
        ('6', Stage::Tags, 0),
    ] {
        let mut app = updating(sample());
        assert_eq!(app.update_stage, Stage::Staging);
        assert_eq!(app.entry_mode, EntryMode::Update);
        app.handle_update_staging(key(KeyCode::Char(ch)));
        assert_eq!(app.update_stage, stage);
        assert_eq!(app.text_info.character_index, cursor);
    }
    let mut other = updating(sample());
    other.handle_update_staging(key(KeyCode::Char('7')));
    assert_eq!(other.update_stage, Stage::Staging);
    other.handle_update_staging(key(KeyCode::Esc));
    assert!(!other.update_popup);
}

#[test]
fn a_change_confirms_one_field_and_goes_back_to_the_menu() {
    let mut app = updating(sample());
    app.handle_update_staging(key(KeyCode::Char('3')));
    app.handle_keys_for_urgency(key(KeyCode::Left));
    assert_eq!(app.update_stage, Stage::Staging);
    app.handle_update_staging(key(KeyCode::Char('3')));
    app.handle_keys_for_urgency(key(KeyCode::Char('4')));
    assert_eq!(app.update_stage, Stage::Finished);
    let task = app.update_selected_task().unwrap();
    assert_eq!(task.get_id(), 42);
    assert_eq!(task.date_added, Timestamp { secs: 1000, nanos: 7 });
    assert_eq!(task.urgency, Urgency::Critical);
    assert_eq!(task.status, Status::Working);
    assert_eq!(task.name, "Write report");
    assert_eq!(task.description, Some("quarterly".to_string()));
    assert_eq!(task.completed_on, None);
}

#[test]
fn a_change_to_completed_sets_the_completion_time() {
    let mut app = updating(sample());
    app.handle_update_staging(key(KeyCode::Char('2')));
    app.handle_keys_for_status(key(KeyCode::Char('4')));
    let task = app.update_selected_task().unwrap();
    assert_eq!(task.status, Status::Completed);
    assert!(task.completed_on.is_some());
    assert!(task.completed_on.unwrap().secs > 1_577_836_800);

    // without a selected task there is nothing to change: the wizard is left
    let mut none = fresh();
    none.entry_mode = EntryMode::Update;
    none.update_popup = true;
    none.inputs.name = String::from("n");
    assert!(none.update_selected_task().is_none());
    assert!(!none.update_popup);
    assert_eq!(none.inputs.name, "");
}

#[test]
fn advance_retreat_and_cancel() {
    let mut app = adding();
    app.advance();
    assert_eq!(app.add_stage, Stage::Urgency);
    app.retreat();
    assert_eq!(app.add_stage, Stage::Name);
    app.place_cursor(3);
    assert_eq!(app.text_info.character_index, 3);
    app.cancel();
    assert!(!app.add_popup);
    app.quick_add_setup();
    assert_eq!(app.entry_mode, EntryMode::QuickAdd);
    app.retreat();
    assert_eq!(app.add_stage, Stage::Name);
    app.advance();
    assert_eq!(app.add_stage, Stage::Finished);
}

#[test]
fn tag_pick_moves_within_the_tags() {
    let mut app = adding();
    app.inputs.tags = TagSet::from_vec(vec!["a".to_string(), "b".to_string()]);
    app.move_tags_highlight_right();
    assert_eq!(app.tags_highlight_value, 1);
    app.move_tags_highlight_right();
    assert_eq!(app.tags_highlight_value, 1);
    app.move_tags_highlight_left();
    app.move_tags_highlight_left();
    assert_eq!(app.tags_highlight_value, 0);
    app.highlight_tags = true;
    app.remove_tag();
    assert_eq!(app.inputs.tags.to_vec(), vec!["b".to_string()]);
    assert!(app.highlight_tags);
    app.remove_tag();
    assert!(!app.highlight_tags);
}

#[test]
fn the_byte_offset_of_the_cursor() {
    let mut app = adding();
    type_text(&mut app, "añ→b");
    assert_eq!(app.byte_index(), 7);
    app.move_cursor_left();
    assert_eq!(app.byte_index(), 6);
    app.move_cursor_left();
    assert_eq!(app.byte_index(), 3);
    app.set_stage(Stage::Urgency);
    assert_eq!(app.byte_index(), 0);
}

#[test]
fn a_new_task_without_a_name_is_not_made() {
    let mut app = adding();
    app.inputs.description = String::from("d");
    app.inputs.urgency = Urgency::High;
    app.set_stage(Stage::Finished);
    app.place_cursor(4);
    assert!(app.add_new_task_in().is_none());
    assert!(app.add_popup);
    assert_eq!(app.add_stage, Stage::Name);
    assert_eq!(app.text_info.character_index, 0);
    // what was entered stays
    assert_eq!(app.inputs.description, "d");
    assert_eq!(app.inputs.urgency, Urgency::High);
    assert_eq!(app.pending, Reselect::Nothing);

    app.inputs.name = String::from("n");
    app.inputs.status = Status::Completed;
    app.set_stage(Stage::Finished);
    let task = app.add_new_task_in().unwrap();
    assert_eq!(task.name, "n");
    assert_eq!(task.get_id() & ID_KIND_MASK, ID_KIND_RANDOM);
    assert_eq!(task.completed_on, Some(task.date_added));
    assert!(task.date_added.secs > 1_577_836_800);
    assert_eq!(app.pending, Reselect::Id(task.get_id()));
    assert_eq!(app.add_stage, Stage::Finished);
    let other = app.add_new_task_in().unwrap();
    assert_ne!(other.get_id(), task.get_id());
}

#[test]
fn a_change_without_a_name_is_not_made() {
    let mut app = updating(sample());
    app.inputs.name = String::new();
    app.set_stage(Stage::Finished);
    assert!(app.update_selected_task().is_none());
    assert!(app.update_popup);
    assert_eq!(app.update_stage, Stage::Name);
    assert_eq!(app.inputs.description, "quarterly");
    assert_eq!(app.pending, Reselect::Nothing);
    app.inputs.name = String::from("Report");
    app.set_stage(Stage::Finished);
    let task = app.update_selected_task().unwrap();
    assert_eq!(task.name, "Report");
    assert_eq!(task.get_id(), 42);
    assert_eq!(app.pending, Reselect::Id(42));
}

#[test]
fn highlighting_all_and_typing_leaves_the_typed_character() {
    for text in ["abc", "", "añ→b with more text"] {
        let mut app = adding();
        type_text(&mut app, text);
        app.move_cursor_left();
        app.highlight_all();
        app.enter_char('x');
        assert_eq!(app.inputs.name, "x");
        assert_eq!(app.text_info.character_index, 1);
        assert!(!app.text_info.is_text_highlighted);
    }
    // at a stage without a text nothing is typed
    let mut app = adding();
    app.set_stage(Stage::Urgency);
    app.enter_char('x');
    assert_eq!(app.inputs.name, "");
    assert_eq!(app.text_info.character_index, 0);
}

fn holding(name: &str, description: Option<&str>, latest: Option<&str>) -> Task {
    Task::from_sql(
        7,
        name.to_string(),
        description.map(str::to_string),
        latest.map(str::to_string),
        Urgency::Low,
        Status::Open,
        None,
        Timestamp { secs: 500, nanos: 0 },
        None,
    )
}

#[test]
fn the_menu_puts_the_cursor_behind_what_the_task_holds() {
    let mut app = updating(holding("ab", Some("héllo wörld"), None));
    app.handle_update_staging(key(KeyCode::Char('1')));
    assert_eq!(app.text_info.character_index, 2);
    type_text(&mut app, "cd");
    assert_eq!(app.inputs.name, "abcd");
    assert_eq!(app.text_info.character_index, 4);
    app.handle_keys_for_text_inputs(ctrl(KeyCode::Left));
    assert_eq!(app.update_stage, Stage::Staging);
    app.handle_update_staging(key(KeyCode::Char('1')));
    assert_eq!(app.update_stage, Stage::Name);
    assert_eq!(app.inputs.name, "abcd");
    assert_eq!(app.text_info.character_index, 2);
    assert!(!app.text_info.is_text_highlighted);

    let mut longer = updating(holding("ab", Some("héllo wörld"), None));
    longer.inputs.description = String::from("héllo wörld, ünd more");
    longer.handle_update_staging(key(KeyCode::Char('4')));
    assert_eq!(longer.update_stage, Stage::Description);
    assert_eq!(longer.text_info.character_index, 11);

    let mut late = updating(holding("ab", Some("héllo wörld"), None));
    late.inputs.latest = String::from("xyz");
    late.handle_update_staging(key(KeyCode::Char('5')));
    assert_eq!(late.update_stage, Stage::Latest);
    assert_eq!(late.text_info.character_index, 0);
}

#[test]
fn the_menu_keeps_the_cursor_within_a_text_that_was_shortened() {
    let mut app = updating(holding("abcdef", Some("ä"), Some("news")));
    app.inputs.name = String::from("abc");
    app.handle_update_staging(key(KeyCode::Char('1')));
    assert_eq!(app.text_info.character_index, 3);

    let mut gone = updating(holding("abcdef", Some("ä"), Some("news")));
    gone.inputs.latest = String::new();
    gone.handle_update_staging(key(KeyCode::Char('5')));
    assert_eq!(gone.text_info.character_index, 0);

    let mut same = updating(holding("abcdef", Some("ä"), Some("news")));
    same.handle_update_staging(key(KeyCode::Char('4')));
    assert_eq!(same.text_info.character_index, 1);
}

#[test]
fn the_menu_without_a_selected_task_puts_the_cursor_at_the_end() {
    for (ch, stage, cursor) in [
        ('1', Stage::Name, 4),
        ('4', Stage::Description, 5),
        ('5', Stage::Latest, 0),
    ] {
        let mut app = fresh();
        app.update_popup = true;
        app.entry_mode = EntryMode::Update;
        app.update_stage = Stage::Staging;
        app.inputs.name = String::from("übel");
        app.inputs.description = String::from("to do");
        assert_eq!(app.tasklist.selected_task(), None);
        app.handle_update_staging(key(KeyCode::Char(ch)));
        assert_eq!(app.update_stage, stage);
        assert_eq!(app.text_info.character_index, cursor);
    }
}

#[test]
fn a_field_is_picked_with_the_cursor_placed() {
    let mut app = updating(holding("ab", None, Some("späť")));
    app.inputs.latest = String::from("später");
    app.text_info.select_all("später");
    assert!(app.text_info.is_text_highlighted);
    app.pick_text_field(Stage::Latest);
    assert_eq!(app.update_stage, Stage::Latest);
    assert_eq!(app.text_info.character_index, 4);
    assert!(!app.text_info.is_text_highlighted);
    assert_eq!(app.inputs.latest, "später");
}

#[test]
fn a_change_is_made_at_the_instant_that_is_given() {
    let now = Timestamp { secs: 1_700_000_000, nanos: 250 };
    let mut app = updating(sample());
    app.inputs.name = String::from("Write the report");
    app.inputs.description = String::new();
    app.inputs.latest = String::from("draft sent");
    app.inputs.urgency = Urgency::Low;
    app.inputs.status = Status::Completed;
    let done = app.changed_task_at(now).unwrap();
    assert_eq!(app.pending, Reselect::Nothing);
    assert_eq!(app.inputs.name, "Write the report");
    assert_eq!(
        done,
        Task::from_sql(
            42,
            String::from("Write the report"),
            None,
            Some(String::from("draft sent")),
            Urgency::Low,
            Status::Completed,
            Some(TagSet::from_vec(vec!["q3".to_string(), "work".to_string()])),
            Timestamp { secs: 1000, nanos: 7 },
            Some(now),
        )
    );
    assert_ne!(done.completed_on, Some(done.date_added));

    app.inputs.status = Status::Paused;
    app.inputs.tags = TagSet::new();
    let paused = app.changed_task_at(now).unwrap();
    assert_eq!(paused.status, Status::Paused);
    assert_eq!(paused.completed_on, None);
    assert_eq!(paused.tags, None);
    assert_eq!(paused.get_id(), 42);
    assert_eq!(paused.get_date_added(), Timestamp { secs: 1000, nanos: 7 });
}

#[test]
fn a_change_of_a_completed_task_that_stays_completed_is_completed_anew() {
    let then = Timestamp { secs: 2000, nanos: 0 };
    let now = Timestamp { secs: 3000, nanos: 1 };
    let mut task = sample();
    task.set_status_at(Status::Completed, then);
    assert_eq!(task.completed_on, Some(then));
    let app = updating(task);
    assert_eq!(app.inputs.status, Status::Completed);
    let done = app.changed_task_at(now).unwrap();
    assert_eq!(done.completed_on, Some(now));
}

#[test]
fn no_change_is_made_without_a_selected_task() {
    let mut app = fresh();
    app.inputs.name = String::from("nothing");
    assert_eq!(app.changed_task_at(Timestamp { secs: 1, nanos: 0 }), None);
    assert_eq!(app.toggled_task_at(Timestamp { secs: 1, nanos: 0 }), None);
}

#[test]
fn a_status_is_toggled_at_the_instant_that_is_given() {
    let now = Timestamp { secs: 1_700_000_000, nanos: 250 };
    let later = Timestamp { secs: 1_700_000_900, nanos: 0 };
    let mut app = fresh();
    app.tasklist = TaskList::from(vec![sample()]);
    app.tasklist.select(Some(0));
    let done = app.toggled_task_at(now).unwrap();
    assert_eq!(app.pending, Reselect::Nothing);
    assert_eq!(app.tasklist.selected_task(), Some(&sample()));
    let mut expected = sample();
    expected.status = Status::Completed;
    expected.completed_on = Some(now);
    assert_eq!(done, expected);

    app.tasklist = TaskList::from(vec![done]);
    app.tasklist.select(Some(0));
    let open = app.toggled_task_at(later).unwrap();
    let mut reopened = sample();
    reopened.status = Status::Open;
    assert_eq!(open, reopened);
    assert_eq!(open.completed_on, None);
}
