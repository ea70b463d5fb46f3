use checklist::backend::tags::TagSet;
use checklist::backend::task::{
    shown_above, Display, ListState, Status, Task, TaskList, Timestamp, Urgency, ID_KIND_MASK,
    ID_KIND_RANDOM,
};

fn at(secs: i64) -> Timestamp {
    Timestamp { secs, nanos: 0 }
}

fn stored(id: u128, urgency: Urgency, status: Status, tags: Option<TagSet>, secs: i64) -> Task {
    let completed = if status == Status::Completed { Some(at(secs)) } else { None };
    Task::from_sql(
        id,
        format!("task {id}"),
        None,
        None,
        urgency,
        status,
        tags,
        at(secs),
        completed,
    )
}

fn tags_of(names: &[&str]) -> TagSet {
    TagSet::from_vec(names.iter().map(|n| n.to_string()).collect())
}

fn ids(list: &TaskList) -> Vec<u128> {
    list.tasks.iter().map(|t| t.get_id()).collect()
}

#[test]
fn task_test_urgency_ordering() {
    assert!(Urgency::Low < Urgency::Medium);
    assert!(Urgency::Medium < Urgency::High);
    assert!(Urgency::High < Urgency::Critical);
    assert!(Urgency::Low < Urgency::Critical);
    assert!(Urgency::Low == Urgency::Low);
}

#[test]
fn task_test_sort_by_urgency() {
    let task1 = Task::new(
        String::from("Task1"),
        None,
        None,
        Some(Urgency::Low),
        None,
        None,
    );
    let task2 = Task::new(
        String::from("Task1"),
        None,
        None,
        Some(Urgency::High),
        None,
        None,
    );
    let task3 = Task::new(
        String::from("Task1"),
        None,
        None,
        Some(Urgency::Critical),
        None,
        None,
    );
    let task4 = Task::new(
        String::from("Task1"),
        None,
        None,
        Some(Urgency::Medium),
        None,
        None,
    );
    let task5 = Task::new(
        String::from("Task1"),
        None,
        None,
        Some(Urgency::Low),
        None,
        None,
    );

    let mut task_vec = TaskList::from(vec![task1, task2, task3, task4, task5]);

    // Descending sort
    task_vec.sort_by_urgency(true);
    assert_eq!(task_vec.tasks[0].urgency, Urgency::Critical);
    assert_eq!(task_vec.tasks[1].urgency, Urgency::High);
    assert_eq!(task_vec.tasks[2].urgency, Urgency::Medium);
    assert_eq!(task_vec.tasks[3].urgency, Urgency::Low);
    assert_eq!(task_vec.tasks[4].urgency, Urgency::Low);
    println!("{:?}", task_vec.tasks[3].date_added);
    println!("{:?}", task_vec.tasks[4].date_added);
    assert!(task_vec.tasks[3].date_added > task_vec.tasks[4].date_added);

    // Ascending sort
    task_vec.sort_by_urgency(false);
    assert_eq!(task_vec.tasks[0].urgency, Urgency::Low);
    assert_eq!(task_vec.tasks[1].urgency, Urgency::Low);
    assert_eq!(task_vec.tasks[2].urgency, Urgency::Medium);
    assert_eq!(task_vec.tasks[3].urgency, Urgency::High);
    assert_eq!(task_vec.tasks[4].urgency, Urgency::Critical);
    assert!(task_vec.tasks[0].date_added < task_vec.tasks[1].date_added);
}

#[test]
fn urgency_levels_follow_the_order() {
    assert_eq!(Urgency::Low.level(), 0);
    assert_eq!(Urgency::Medium.level(), 1);
    assert_eq!(Urgency::High.level(), 2);
    assert_eq!(Urgency::Critical.level(), 3);
    assert_eq!(Urgency::default(), Urgency::Low);
    assert_eq!(Status::default(), Status::Open);
}

#[test]
fn display_filter_rotates() {
    let mut d = Display::All;
    d.next();
    assert_eq!(d, Display::Completed);
    d.next();
    assert_eq!(d, Display::NotCompleted);
    d.next();
    assert_eq!(d, Display::All);
}

#[test]
fn display_filter_keeps_by_status() {
    assert!(Display::All.keeps(Status::Completed));
    assert!(Display::All.keeps(Status::Paused));
    assert!(Display::Completed.keeps(Status::Completed));
    assert!(!Display::Completed.keeps(Status::Open));
    assert!(Display::NotCompleted.keeps(Status::Working));
    assert!(!Display::NotCompleted.keeps(Status::Completed));
}

#[test]
fn timestamps_order_by_seconds_then_nanoseconds() {
    let a = Timestamp { secs: 10, nanos: 5 };
    let b = Timestamp { secs: 10, nanos: 6 };
    let c = Timestamp { secs: 11, nanos: 0 };
    assert!(b.is_after(&a));
    assert!(!a.is_after(&b));
    assert!(c.is_after(&b));
    assert!(!a.is_after(&a));
    assert!(a < b && b < c);
}

#[test]
fn new_task_takes_defaults_and_a_random_identifier() {
    let task = Task::new(String::from("Water the plants"), None, None, None, None, None);
    assert_eq!(task.name, "Water the plants");
    assert_eq!(task.description, None);
    assert_eq!(task.latest, None);
    assert_eq!(task.urgency, Urgency::Low);
    assert_eq!(task.status, Status::Open);
    assert_eq!(task.tags, None);
    assert_eq!(task.completed_on, None);
    assert_eq!(task.get_id() & ID_KIND_MASK, ID_KIND_RANDOM);
    assert_eq!(task.get_date_added(), task.date_added);
    // the clock is read: the task was not made before 2020
    assert!(task.date_added.secs > 1_577_836_800);

    let other = Task::new(String::from("Water the plants"), None, None, None, None, None);
    assert_ne!(task.get_id(), other.get_id());
}

#[test]
fn new_task_that_starts_completed_is_completed_at_creation() {
    let task = Task::new(
        String::from("Done already"),
        Some(String::from("d")),
        Some(String::from("l")),
        Some(Urgency::High),
        Some(Status::Completed),
        Some(tags_of(&["b", "a"])),
    );
    assert_eq!(task.description, Some(String::from("d")));
    assert_eq!(task.latest, Some(String::from("l")));
    assert_eq!(task.urgency, Urgency::High);
    assert_eq!(task.status, Status::Completed);
    assert_eq!(task.completed_on, Some(task.date_added));
    assert_eq!(task.tags.as_ref().map(|t| t.to_vec()), Some(vec!["a".to_string(), "b".to_string()]));
}

#[test]
fn stamped_task_holds_what_it_was_given() {
    let task = Task::stamped(
        7,
        at(100),
        String::from("n"),
        None,
        None,
        Some(Urgency::Medium),
        Some(Status::Paused),
        None,
    );
    assert_eq!(task.get_id(), 7);
    assert_eq!(task.date_added, at(100));
    assert_eq!(task.urgency, Urgency::Medium);
    assert_eq!(task.status, Status::Paused);
    assert_eq!(task.completed_on, None);
    let done = Task::stamped(8, at(5), String::from("n"), None, None, None, Some(Status::Completed), None);
    assert_eq!(done.completed_on, Some(at(5)));
    assert_eq!(done.urgency, Urgency::Low);
}

#[test]
fn completing_sets_the_completion_time_and_reopening_clears_it() {
    let mut task = Task::new(String::from("t"), None, None, None, None, None);
    assert_eq!(task.completed_on, None);
    task.set_status(Status::Completed);
    assert_eq!(task.status, Status::Completed);
    assert!(task.completed_on.is_some());
    task.set_status(Status::Open);
    assert_eq!(task.status, Status::Open);
    assert_eq!(task.completed_on, None);
}

#[test]
fn set_status_at_uses_the_given_instant() {
    let mut task = stored(1, Urgency::Low, Status::Open, None, 10);
    task.set_status_at(Status::Completed, at(99));
    assert_eq!(task.completed_on, Some(at(99)));
    assert_eq!(task.date_added, at(10));
    assert_eq!(task.get_id(), 1);
    task.set_status_at(Status::Paused, at(120));
    assert_eq!(task.status, Status::Paused);
    assert_eq!(task.completed_on, None);
}

#[test]
fn clone_of_a_task_is_equal_to_it() {
    let task = stored(3, Urgency::High, Status::Completed, Some(tags_of(&["x", "y"])), 4);
    let copy = task.clone();
    assert_eq!(copy, task);
}

#[test]
fn filter_scenario_not_completed_with_tag() {
    let first = stored(1, Urgency::Low, Status::Open, Some(tags_of(&["x"])), 1);
    let second = stored(2, Urgency::Low, Status::Completed, Some(TagSet::new()), 2);
    let mut list = TaskList::from(vec![first, second]);
    list.filter_tasks(Some(Display::NotCompleted), String::from("x"));
    assert_eq!(ids(&list), vec![1]);
}

#[test]
fn filter_by_display_alone() {
    let make = || {
        TaskList::from(vec![
            stored(1, Urgency::Low, Status::Open, None, 1),
            stored(2, Urgency::Low, Status::Completed, None, 2),
            stored(3, Urgency::Low, Status::Paused, None, 3),
        ])
    };
    let mut all = make();
    all.filter_tasks(Some(Display::All), String::new());
    assert_eq!(ids(&all), vec![1, 2, 3]);
    let mut completed = make();
    completed.filter_tasks(Some(Display::Completed), String::new());
    assert_eq!(ids(&completed), vec![2]);
    let mut open = make();
    open.filter_tasks(Some(Display::NotCompleted), String::new());
    assert_eq!(ids(&open), vec![1, 3]);
    let mut unset = make();
    unset.filter_tasks(None, String::new());
    assert_eq!(ids(&unset), vec![1, 3]);
}

#[test]
fn tag_filter_matches_substrings_with_case() {
    let make = || {
        TaskList::from(vec![
            stored(1, Urgency::Low, Status::Open, Some(tags_of(&["home", "garden"])), 1),
            stored(2, Urgency::Low, Status::Open, Some(tags_of(&["Home"])), 2),
            stored(3, Urgency::Low, Status::Open, None, 3),
            stored(4, Urgency::Low, Status::Open, Some(tags_of(&["work"])), 4),
        ])
    };
    let mut list = make();
    list.filter_tasks(Some(Display::All), String::from("ome"));
    assert_eq!(ids(&list), vec![1, 2]);
    let mut cased = make();
    cased.filter_tasks(Some(Display::All), String::from("Ho"));
    assert_eq!(ids(&cased), vec![2]);
    let mut none = make();
    none.filter_tasks(Some(Display::All), String::from("zzz"));
    assert_eq!(ids(&none), Vec::<u128>::new());
    let mut whole = make();
    whole.filter_tasks(Some(Display::All), String::from("garden"));
    assert_eq!(ids(&whole), vec![1]);
}

#[test]
fn filter_keeps_the_selection() {
    let mut list = TaskList::from(vec![stored(1, Urgency::Low, Status::Open, None, 1)]);
    list.select(Some(0));
    list.filter_tasks(Some(Display::Completed), String::new());
    assert_eq!(list.len(), 0);
    assert_eq!(list.state, ListState { selected: Some(0) });
}

#[test]
fn sort_scenario_same_urgency() {
    let a = stored(1, Urgency::Low, Status::Open, None, 100);
    let b = stored(2, Urgency::Low, Status::Open, None, 200);
    let mut list = TaskList::from(vec![a, b]);
    list.sort_by_urgency(true);
    assert_eq!(ids(&list), vec![2, 1]);
    list.sort_by_urgency(false);
    assert_eq!(ids(&list), vec![1, 2]);
}

#[test]
fn sort_orders_by_urgency_then_by_creation() {
    let make = || {
        TaskList::from(vec![
            stored(1, Urgency::Medium, Status::Open, None, 50),
            stored(2, Urgency::Critical, Status::Open, None, 10),
            stored(3, Urgency::Low, Status::Open, None, 70),
            stored(4, Urgency::Medium, Status::Open, None, 60),
            stored(5, Urgency::High, Status::Open, None, 5),
            stored(6, Urgency::Low, Status::Open, None, 80),
        ])
    };
    let mut desc = make();
    desc.sort_by_urgency(true);
    assert_eq!(ids(&desc), vec![2, 5, 4, 1, 6, 3]);
    let mut asc = make();
    asc.sort_by_urgency(false);
    assert_eq!(ids(&asc), vec![3, 6, 1, 4, 5, 2]);
}

#[test]
fn sort_keeps_the_order_of_tasks_that_tie() {
    let make = || {
        TaskList::from(vec![
            stored(1, Urgency::Low, Status::Open, None, 9),
            stored(2, Urgency::Low, Status::Open, None, 9),
            stored(3, Urgency::High, Status::Open, None, 9),
            stored(4, Urgency::Low, Status::Open, None, 9),
        ])
    };
    let mut desc = make();
    desc.sort_by_urgency(true);
    assert_eq!(ids(&desc), vec![3, 1, 2, 4]);
    let mut asc = make();
    asc.sort_by_urgency(false);
    assert_eq!(ids(&asc), vec![1, 2, 4, 3]);
}

#[test]
fn shown_above_is_strict() {
    let a = stored(1, Urgency::Low, Status::Open, None, 1);
    let b = stored(2, Urgency::Low, Status::Open, None, 2);
    let c = stored(3, Urgency::High, Status::Open, None, 0);
    assert!(shown_above(&b, &a, true));
    assert!(!shown_above(&a, &b, true));
    assert!(shown_above(&a, &b, false));
    assert!(shown_above(&c, &a, true));
    assert!(shown_above(&a, &c, false));
    assert!(!shown_above(&a, &a, true));
    assert!(!shown_above(&a, &a, false));
}

#[test]
fn selection_is_brought_into_the_list() {
    let mut list = TaskList::from(vec![
        stored(1, Urgency::Low, Status::Open, None, 1),
        stored(2, Urgency::Low, Status::Open, None, 2),
    ]);
    assert_eq!(list.state.selected(), None);
    assert!(list.selected_task().is_none());
    list.select(Some(1));
    assert_eq!(list.selected_task().map(|t| t.get_id()), Some(2));
    list.select(Some(7));
    assert_eq!(list.state.selected(), Some(1));
    list.select(None);
    assert_eq!(list.state.selected(), None);
    let mut empty = TaskList::new();
    empty.select(Some(0));
    assert_eq!(empty.state.selected(), None);
    let mut raw = ListState::default();
    raw.select(Some(4));
    assert_eq!(raw.selected(), Some(4));
}

#[test]
fn position_of_finds_the_first_task_with_the_identifier() {
    let list = TaskList::from(vec![
        stored(5, Urgency::Low, Status::Open, None, 1),
        stored(9, Urgency::Low, Status::Open, None, 2),
        stored(9, Urgency::High, Status::Open, None, 3),
    ]);
    assert_eq!(list.position_of(9), Some(1));
    assert_eq!(list.position_of(5), Some(0));
    assert_eq!(list.position_of(1), None);
}

#[test]
fn task_finds_the_filter_text_in_its_tags() {
    let task = stored(1, Urgency::Low, Status::Open, Some(tags_of(&["alpha", "beta"])), 1);
    assert!(task.has_tag_with("et"));
    assert!(task.has_tag_with(""));
    assert!(!task.has_tag_with("gamma"));
    assert!(task.is_shown(Some(Display::All), "alp"));
    assert!(!task.is_shown(Some(Display::Completed), "alp"));
    let bare = stored(2, Urgency::Low, Status::Open, None, 1);
    assert!(!bare.has_tag_with(""));
    assert!(bare.is_shown(Some(Display::All), ""));
    assert!(!bare.is_shown(Some(Display::All), "a"));
}
