use checklist::backend::config::{config_file_name, database_file_name, tmp_file_name, Config};
use checklist::backend::task::{Display, Status, Task, Timestamp, Urgency};
use checklist::backend::wipe::{answer_of, confirmation, Confirmation};
use checklist::display::keys::KeyCode;
use checklist::display::ui::{
    room_for, wrap_plan, BoxPart, CursorInfo, Graphics, HighlightInfo, Renderer, TaskInfo,
    TaskWindow,
};
use std::path::PathBuf;

fn task(id: u128, urgency: Urgency) -> Task {
    Task::from_sql(
        id,
        format!("task {id}"),
        None,
        None,
        urgency,
        Status::Open,
        None,
        Timestamp { secs: id as i64, nanos: 0 },
        None,
    )
}

fn tasks(n: u128) -> Vec<Task> {
    (0..n).map(|i| task(i, Urgency::Low)).collect()
}

fn shown(r: &Renderer) -> Vec<u128> {
    r.taskinfo.display_tasklist.tasks.iter().map(|t| t.get_id()).collect()
}

#[test]
fn config_of_a_first_session() {
    let config = Config::new(PathBuf::from("db_path.db"));
    assert_eq!(config.db_path, PathBuf::from("db_path.db"));
    assert_eq!(config.display_filter, Display::All);
    assert!(config.urgency_sort_desc);
}

#[test]
fn files_are_named_for_tests_and_for_real() {
    assert_eq!(config_file_name(false), "config.json");
    assert_eq!(config_file_name(true), "test.config.json");
    assert_eq!(database_file_name(false), "checklist.sqlite");
    assert_eq!(database_file_name(true), "test.checklist.sqlite");
    assert_eq!(tmp_file_name("config.json"), "config.json.tmp");
    assert_eq!(tmp_file_name("theme.toml"), "theme.toml.tmp");
}

#[test]
fn the_answer_to_the_wipe_question() {
    assert_eq!(answer_of("y"), Confirmation::Proceed);
    assert_eq!(answer_of("n"), Confirmation::Halt);
    assert_eq!(answer_of("Y"), Confirmation::Unclear);
    assert_eq!(answer_of("yes"), Confirmation::Unclear);
    assert_eq!(answer_of(""), Confirmation::Unclear);
    assert_eq!(confirmation("y\n"), Confirmation::Proceed);
    assert_eq!(confirmation("Y\r\n"), Confirmation::Proceed);
    assert_eq!(confirmation("N  "), Confirmation::Halt);
    assert_eq!(confirmation("n"), Confirmation::Halt);
    assert_eq!(confirmation(" y"), Confirmation::Unclear);
    assert_eq!(confirmation("maybe\n"), Confirmation::Unclear);
    assert_eq!(confirmation("\n"), Confirmation::Unclear);
}

#[test]
fn the_symbols_of_a_box() {
    let g = Graphics::new();
    assert_eq!(g.vertical, "─");
    assert_eq!(g.horizontal, "│");
    assert_eq!(g.top_left, "┌");
    assert_eq!(g.top_right, "┐");
    assert_eq!(g.bottom_left, "└");
    assert_eq!(g.bottom_right, "┘");
    assert_eq!(Graphics::part_at(2, 3, 2, 3, 9, 8), BoxPart::TopLeft);
    assert_eq!(Graphics::part_at(2, 8, 2, 3, 9, 8), BoxPart::BottomLeft);
    assert_eq!(Graphics::part_at(9, 3, 2, 3, 9, 8), BoxPart::TopRight);
    assert_eq!(Graphics::part_at(9, 8, 2, 3, 9, 8), BoxPart::BottomRight);
    assert_eq!(Graphics::part_at(2, 5, 2, 3, 9, 8), BoxPart::Side);
    assert_eq!(Graphics::part_at(9, 4, 2, 3, 9, 8), BoxPart::Side);
    assert_eq!(Graphics::part_at(5, 3, 2, 3, 9, 8), BoxPart::Level);
    assert_eq!(Graphics::part_at(5, 8, 2, 3, 9, 8), BoxPart::Level);
    assert_eq!(Graphics::part_at(5, 5, 2, 3, 9, 8), BoxPart::Inside);
    assert_eq!(g.symbol(BoxPart::TopLeft), Some(&"┌".to_string()));
    assert_eq!(g.symbol(BoxPart::BottomLeft), Some(&"└".to_string()));
    assert_eq!(g.symbol(BoxPart::TopRight), Some(&"┐".to_string()));
    assert_eq!(g.symbol(BoxPart::BottomRight), Some(&"┘".to_string()));
    assert_eq!(g.symbol(BoxPart::Side), Some(&"│".to_string()));
    assert_eq!(g.symbol(BoxPart::Level), Some(&"─".to_string()));
    assert_eq!(g.symbol(BoxPart::Inside), None);
}

#[test]
fn the_plain_interface_begins_at_the_top() {
    let info = TaskInfo::new();
    assert_eq!(info.total_tasklist.len(), 0);
    assert_eq!(info.display_filter, Display::All);
    assert!(info.urgency_sort_desc);
    assert_eq!(info.tags_filter, "");
    assert_eq!(info.current_task, 0);
    assert_eq!(info.current_task_details_len, 0);

    let r = Renderer::new(3, 5, 90, 31);
    assert_eq!((r.width, r.height, r.box_padding, r.task_height), (90, 31, 3, 5));
    assert_eq!(r.main_box_start, (3, 3));
    assert_eq!(r.detail_box_start, (30, 4));
    // (31 - 6) / 5 = 5 tasks, less one
    assert_eq!(r.taskwindow, TaskWindow { window_start: 0, window_end: 4, tasks_that_can_fit: 4 });
    assert_eq!(r.cursorinfo, CursorInfo { cursor_x: 0, cursor_y: 0 });
    assert_eq!(r.highlightinfo, HighlightInfo { highlight_place: 0, highlight_x: 0, highlight_y: 0 });
    assert_eq!(r.graphics, Graphics::new());
}

#[test]
fn the_plain_interface_filters_and_sorts() {
    let mut r = Renderer::new(3, 5, 90, 31);
    r.pull_latest_tasklist(vec![
        task(1, Urgency::Low),
        task(2, Urgency::Critical),
        task(3, Urgency::Medium),
    ]);
    let ids: Vec<u128> = r.taskinfo.total_tasklist.tasks.iter().map(|t| t.get_id()).collect();
    assert_eq!(ids, vec![2, 3, 1]);
    r.update_task_window();
    assert_eq!(shown(&r), vec![2, 3, 1]);
}

#[test]
fn the_window_follows_the_current_task() {
    let mut r = Renderer::new(3, 5, 90, 31);
    r.pull_latest_tasklist(tasks(8));
    r.update_task_window();
    // the window shows its rows 0 to 4
    assert_eq!(shown(&r).len(), 5);
    // up at the top does nothing
    r.handle_direction(KeyCode::Up);
    assert_eq!(r.taskinfo.current_task, 0);
    for expected in 1..=4u64 {
        r.handle_direction(KeyCode::Down);
        assert_eq!(r.taskinfo.current_task, expected);
        assert_eq!(r.highlightinfo.highlight_place, expected);
        assert_eq!(r.taskwindow.window_start, 0);
    }
    r.handle_direction(KeyCode::Down);
    assert_eq!(r.taskinfo.current_task, 5);
    assert_eq!(r.highlightinfo.highlight_place, 4);
    assert_eq!((r.taskwindow.window_start, r.taskwindow.window_end), (1, 5));
    r.handle_direction(KeyCode::Down);
    r.handle_direction(KeyCode::Down);
    assert_eq!(r.taskinfo.current_task, 7);
    assert_eq!((r.taskwindow.window_start, r.taskwindow.window_end), (3, 7));
    // down at the bottom does nothing
    r.handle_direction(KeyCode::Down);
    assert_eq!(r.taskinfo.current_task, 7);
    r.update_task_window();
    let first = r.taskinfo.total_tasklist.tasks[3].get_id();
    assert_eq!(shown(&r).len(), 5);
    assert_eq!(shown(&r)[0], first);
    for _ in 0..4 {
        r.handle_direction(KeyCode::Up);
    }
    assert_eq!(r.taskinfo.current_task, 3);
    assert_eq!(r.highlightinfo.highlight_place, 0);
    r.handle_direction(KeyCode::Up);
    assert_eq!(r.taskinfo.current_task, 2);
    assert_eq!(r.highlightinfo.highlight_place, 0);
    assert_eq!((r.taskwindow.window_start, r.taskwindow.window_end), (2, 6));
}

#[test]
fn the_window_is_adapted_to_the_screen() {
    let mut r = Renderer::new(3, 5, 90, 31);
    r.pull_latest_tasklist(tasks(8));
    for _ in 0..6 {
        r.handle_direction(KeyCode::Down);
    }
    assert_eq!((r.taskwindow.window_start, r.taskwindow.window_end), (2, 6));
    // a smaller screen: (21 - 6) / 5 = 3 tasks, less one
    r.height = 21;
    r.resize_tasks_window();
    assert_eq!(r.taskwindow.tasks_that_can_fit, 2);
    assert_eq!((r.taskwindow.window_start, r.taskwindow.window_end), (4, 6));
    assert_eq!(r.highlightinfo.highlight_place, 2);
    // a larger screen, which still does not show all tasks
    r.height = 41;
    r.resize_tasks_window();
    assert_eq!(r.taskwindow.tasks_that_can_fit, 6);
    assert_eq!((r.taskwindow.window_start, r.taskwindow.window_end), (1, 7));
    assert_eq!(r.highlightinfo.highlight_place, 5);
    // a screen that shows all tasks
    r.height = 100;
    r.resize_tasks_window();
    assert_eq!(r.taskwindow.tasks_that_can_fit, 17);
    assert_eq!((r.taskwindow.window_start, r.taskwindow.window_end), (0, 8));
    assert_eq!(r.highlightinfo.highlight_place, 6);
    r.update_task_window();
    assert_eq!(shown(&r).len(), 8);
    // and small again, with the current task near the top
    for _ in 0..5 {
        r.handle_direction(KeyCode::Up);
    }
    r.height = 21;
    r.resize_tasks_window();
    assert_eq!((r.taskwindow.window_start, r.taskwindow.window_end), (1, 3));
    assert_eq!(r.highlightinfo.highlight_place, 0);
}

#[test]
fn lines_are_planned_word_by_word() {
    // a text that is shorter than the box, less three columns, is not wrapped
    assert_eq!(wrap_plan(6, &vec![2, 3], 10), None);
    assert_eq!(wrap_plan(0, &vec![], 10), None);
    // ten columns: a word begins a new line if it comes within three of the edge
    assert_eq!(
        wrap_plan(20, &vec![3, 3, 3, 8, 1, 1], 10),
        Some(vec![false, true, true, true, false, false])
    );
    assert_eq!(wrap_plan(20, &vec![2, 2, 2, 2], 12), Some(vec![false, false, false, true]));
    // after a word that is too long no line is begun any more
    assert_eq!(wrap_plan(40, &vec![12, 2, 2], 10), Some(vec![true, false, false]));
    assert_eq!(wrap_plan(7, &vec![], 10), Some(vec![]));
}

#[test]
fn a_screen_has_room_or_not() {
    assert!(room_for(31, 3, 5));
    assert!(room_for(11, 3, 5));
    assert!(!room_for(10, 3, 5));
    assert!(!room_for(5, 3, 5));
    assert!(!room_for(31, 3, 0));
    assert!(!room_for(65_535, 40_000, 1));
    assert!(room_for(65_535, 32_767, 1));
}

#[test]
fn the_window_is_watched() {
    let mut r = Renderer::new(3, 5, 90, 31);
    assert!(r.is_steady());
    assert!(r.can_resize());
    r.pull_latest_tasklist(tasks(3));
    assert!(r.is_steady());
    // the window still ends behind the three tasks: a screen on which they
    // do not all fit cannot be adapted to
    r.height = 16;
    assert!(!r.can_resize());
    r.height = 26;
    assert!(r.can_resize());
    r.resize_tasks_window();
    assert_eq!((r.taskwindow.window_start, r.taskwindow.window_end), (0, 3));
    r.height = 16;
    assert!(r.can_resize());
    r.taskinfo.current_task = 9;
    assert!(!r.is_steady());
    assert!(!r.can_resize());
    r.taskinfo.current_task = 0;
    r.highlightinfo.highlight_place = 1;
    assert!(!r.is_steady());
    r.highlightinfo.highlight_place = 0;
    r.taskwindow.window_start = -1;
    assert!(!r.is_steady());
}

#[test]
fn the_mark_and_the_cursor_are_placed() {
    let mut r = Renderer::new(3, 5, 90, 31);
    r.pull_latest_tasklist(tasks(8));
    r.update_task_window();
    assert!(r.has_scroll_bar());
    r.start_cursor();
    assert_eq!(r.cursorinfo, CursorInfo { cursor_x: 6, cursor_y: 4 });
    r.next_task_row();
    r.next_task_row();
    assert_eq!(r.cursorinfo, CursorInfo { cursor_x: 6, cursor_y: 14 });
    r.handle_direction(KeyCode::Down);
    r.handle_direction(KeyCode::Down);
    r.place_highlight();
    // one right of the box; below the padding, two tasks of five rows down
    assert_eq!(
        r.highlightinfo,
        HighlightInfo { highlight_place: 2, highlight_x: 4, highlight_y: 14 }
    );
    r.highlightinfo.highlight_place = 70_000;
    r.place_highlight();
    assert_eq!(r.highlightinfo.highlight_y, u16::MAX);
    r.highlightinfo.highlight_place = 20_000;
    r.place_highlight();
    assert_eq!(r.highlightinfo.highlight_y, u16::MAX);
    r.highlightinfo.highlight_place = 13_000;
    r.place_highlight();
    assert_eq!(r.highlightinfo.highlight_y, 65_004);
    r.cursorinfo.cursor_y = 65_533;
    r.next_task_row();
    assert_eq!(r.cursorinfo.cursor_y, u16::MAX);

    let mut few = Renderer::new(3, 5, 90, 31);
    few.pull_latest_tasklist(tasks(2));
    few.update_task_window();
    assert!(!few.has_scroll_bar());
}

#[test]
fn the_window_keeps_its_first_row_where_it_can() {
    let mut r = Renderer::new(3, 5, 90, 31);
    r.pull_latest_tasklist(tasks(8));
    r.handle_direction(KeyCode::Down);
    r.handle_direction(KeyCode::Down);
    assert_eq!((r.taskwindow.window_start, r.taskwindow.window_end), (0, 4));
    // two tasks fit after the first: the current task, the third, is the last in view
    r.height = 21;
    r.resize_tasks_window();
    assert_eq!(r.taskwindow, TaskWindow { window_start: 0, window_end: 2, tasks_that_can_fit: 2 });
    assert_eq!(r.highlightinfo.highlight_place, 2);
    // one task fits after the first: the window ends on the current task
    r.height = 16;
    r.resize_tasks_window();
    assert_eq!(r.taskwindow, TaskWindow { window_start: 1, window_end: 2, tasks_that_can_fit: 1 });
    assert_eq!(r.highlightinfo.highlight_place, 1);
}
