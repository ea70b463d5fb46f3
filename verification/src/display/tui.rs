//! The state of a session and what each key does to it.
//!
//! The session itself does no input or output. A key goes in, the state
//! changes, and an `Action` comes out that says what the caller has to do
//! with the store; the caller then reports how that went.

use crate::backend::config::Config;
use crate::backend::task::{selection_within, sorted_by_urgency, ListState, Task, TaskList};
use crate::display::add::{entered, tags_or_none, text_or_empty, EntryMode, Inputs, Stage};
use crate::display::keys::{KeyCode, KeyEvent, KeyEventKind, KeyModifiers};
use crate::display::text::{field, HighLightInfo, TextInfo, TextState};
use crate::strings::{from_chars, push_char, to_chars};
use vstd::prelude::*;

verus! {

/// How the panes are laid out.
#[derive(Clone, Copy, Debug, PartialEq, Eq, Structural)]
pub enum LayoutView {
    Horizontal,
    Vertical,
    Smart,
}

impl LayoutView {
    /// The layout that follows this one when the user toggles it.
    pub open spec fn successor(self) -> LayoutView {
        match self {
            LayoutView::Smart => LayoutView::Horizontal,
            LayoutView::Horizontal => LayoutView::Vertical,
            LayoutView::Vertical => LayoutView::Smart,
        }
    }

    /// Rotates through the layouts: Smart, Horizontal, Vertical, and Smart
    /// again.
    pub fn next(&mut self)
        ensures
            *final(self) == old(self).successor(),
    {
        match self {
            LayoutView::Smart => *self = LayoutView::Horizontal,
            LayoutView::Horizontal => *self = LayoutView::Vertical,
            LayoutView::Vertical => *self = LayoutView::Smart,
        }
    }
}

impl Default for LayoutView {
    fn default() -> (view: Self)
        ensures
            view == LayoutView::Smart,
    {
        LayoutView::Smart
    }
}

/// How far each pane is scrolled.
#[derive(Clone, Copy, Debug, PartialEq, Eq, Structural)]
pub struct ScrollInfo {
    pub list_scroll: usize,
    pub task_info_scroll: usize,
    pub keys_scroll: usize,
}

impl Default for ScrollInfo {
    fn default() -> (info: Self)
        ensures
            info.list_scroll == 0,
            info.task_info_scroll == 0,
            info.keys_scroll == 0,
    {
        ScrollInfo { list_scroll: 0, task_info_scroll: 0, keys_scroll: 0 }
    }
}

/// The cell of the screen at which the cursor is shown.
#[derive(Clone, Copy, Debug, PartialEq, Eq, Structural)]
pub struct CursorInfo {
    pub x: u16,
    pub y: u16,
}

impl Default for CursorInfo {
    fn default() -> (info: Self)
        ensures
            info.x == 0,
            info.y == 0,
    {
        CursorInfo { x: 0, y: 0 }
    }
}

/// What the caller has to do with the store after a key.
#[derive(Debug)]
pub enum Action {
    /// Nothing.
    Nothing,
    /// Read all tasks and hand them to `update_tasklist`.
    Reload,
    /// Add the task to the store.
    Create(Task),
    /// Write the task over the stored task with the same identifier.
    Update(Task),
    /// Delete the task with this identifier.
    Delete(u128),
}

/// Which task is to be selected once the store has done what was asked.
#[derive(Clone, Copy, Debug, PartialEq, Eq, Structural)]
pub enum Reselect {
    Nothing,
    Row(usize),
    Id(u128),
}

/// The state of a session.
#[derive(Debug)]
pub struct App {
    /// Whether the session is over.
    pub should_exit: bool,
    /// The filter and the order of the list, kept between sessions.
    pub config: Config,
    pub layout_view: LayoutView,
    pub cursor_info: CursorInfo,
    /// The tasks that are shown, and the one that is selected.
    pub tasklist: TaskList,
    pub scroll_info: ScrollInfo,
    /// The share of the list pane, in percent.
    pub list_box_sizing: u16,
    /// Whether the question "delete the task?" is open.
    pub delete_popup: bool,
    pub entry_mode: EntryMode,
    /// Whether the wizard for a new task is open, and its stage.
    pub add_popup: bool,
    pub add_stage: Stage,
    /// What has been entered so far, and the cursor of the active field.
    pub inputs: Inputs,
    pub text_info: TextInfo,
    /// Whether the wizard for a change is open, and its stage.
    pub update_popup: bool,
    pub update_stage: Stage,
    /// Whether a tag is picked for removal, and which one.
    pub highlight_tags: bool,
    pub tags_highlight_value: usize,
    /// Whether the tag filter is being typed, and its text.
    pub enter_tags_filter: bool,
    pub tags_filter_value: String,
    /// Whether the next key is a quick action.
    pub quick_action: bool,
    pub show_help: bool,
    /// What went wrong with the store, if the last request failed.
    pub message: Option<String>,
    /// Which task to select when the store has done what was asked.
    pub pending: Reselect,
}

impl App {
    /// The stage of the wizard that is open: that of a change in `Update`
    /// mode, that of a new task otherwise.
    pub open spec fn stage(&self) -> Stage {
        match self.entry_mode {
            EntryMode::Update => self.update_stage,
            _ => self.add_stage,
        }
    }

    /// The text of the field that is edited at the stage of the wizard; the
    /// empty text at a stage without a text.
    pub open spec fn active_text(&self) -> Seq<char> {
        match self.stage() {
            Stage::Name => self.inputs.name@,
            Stage::Description => self.inputs.description@,
            Stage::Latest => self.inputs.latest@,
            Stage::Tags => self.inputs.tags_input@,
            _ => Seq::empty(),
        }
    }

    /// The field that is edited, with its cursor.
    pub open spec fn editor(&self) -> TextState {
        field(self.active_text(), self.text_info)
    }

    /// The cursor lies within the text of the field that is edited, if the
    /// wizard is at a stage with a text.
    pub open spec fn cursor_in_bounds(&self) -> bool {
        self.stage().takes_text() ==> self.text_info.character_index <= self.active_text().len()
    }

    /// Nothing but the text of the field that is edited, and its cursor,
    /// differs from `before`.
    pub open spec fn same_but_text(&self, before: &App) -> bool {
        &&& *self == App { inputs: self.inputs, text_info: self.text_info, ..*before }
        &&& self.inputs == Inputs {
            name: self.inputs.name,
            description: self.inputs.description,
            latest: self.inputs.latest,
            tags_input: self.inputs.tags_input,
            ..before.inputs
        }
        &&& before.stage() != Stage::Name ==> self.inputs.name == before.inputs.name
        &&& before.stage() != Stage::Description ==> self.inputs.description
            == before.inputs.description
        &&& before.stage() != Stage::Latest ==> self.inputs.latest == before.inputs.latest
        &&& before.stage() != Stage::Tags ==> self.inputs.tags_input == before.inputs.tags_input
    }

    /// A session that has just begun: no task is loaded or selected, nothing
    /// is open, and the list pane takes 30 percent. The layout is the given
    /// one, or `Smart`.
    pub fn new(config: Config, view: Option<LayoutView>) -> (app: Self)
        ensures
            app.config == config,
            app.layout_view == match view {
                Some(v) => v,
                None => LayoutView::Smart,
            },
            !app.should_exit,
            app.tasklist.tasks@.len() == 0,
            app.tasklist.state.selected is None,
            app.list_box_sizing == 30,
            !app.delete_popup && !app.add_popup && !app.update_popup,
            app.entry_mode == EntryMode::Add,
            app.add_stage == Stage::Name && app.update_stage == Stage::Name,
            app.inputs.is_blank(),
            app.text_info == (TextInfo {
                character_index: 0,
                is_text_highlighted: false,
                highlight_info: HighLightInfo { start: 0, distance: 0 },
            }),
            !app.highlight_tags && app.tags_highlight_value == 0,
            !app.enter_tags_filter && app.tags_filter_value@.len() == 0,
            !app.quick_action && !app.show_help,
            app.message is None,
            app.pending == Reselect::Nothing,
            app.scroll_info == (ScrollInfo { list_scroll: 0, task_info_scroll: 0, keys_scroll: 0 }),
            app.cursor_info == (CursorInfo { x: 0, y: 0 }),
            app.sound(),
    {
        let layout_view = match view {
            Some(v) => v,
            None => LayoutView::Smart,
        };
        Self {
            should_exit: false,
            config,
            layout_view,
            cursor_info: CursorInfo::default(),
            tasklist: TaskList::new(),
            scroll_info: ScrollInfo::default(),
            list_box_sizing: 30,
            delete_popup: false,
            entry_mode: EntryMode::Add,
            add_popup: false,
            add_stage: Stage::Name,
            inputs: Inputs::default(),
            text_info: TextInfo::new(),
            update_popup: false,
            update_stage: Stage::Name,
            highlight_tags: false,
            tags_highlight_value: 0,
            enter_tags_filter: false,
            tags_filter_value: String::new(),
            quick_action: false,
            show_help: false,
            message: None,
            pending: Reselect::Nothing,
        }
    }

    /// This state with the list scrolled to `row`.
    pub open spec fn list_scrolled_to(self, row: usize) -> App {
        App { scroll_info: ScrollInfo { list_scroll: row, ..self.scroll_info }, ..self }
    }

    /// This state with the details of the task scrolled to `row`.
    pub open spec fn task_info_scrolled_to(self, row: usize) -> App {
        App { scroll_info: ScrollInfo { task_info_scroll: row, ..self.scroll_info }, ..self }
    }

    /// This state with the help scrolled to `row`.
    pub open spec fn keys_scrolled_to(self, row: usize) -> App {
        App { scroll_info: ScrollInfo { keys_scroll: row, ..self.scroll_info }, ..self }
    }

    /// This state with the list pane at `percent` percent.
    pub open spec fn list_box_sized(self, percent: u16) -> App {
        App { list_box_sizing: percent, ..self }
    }

    /// Scrolls the list one row up, if it is not at the top.
    pub fn adjust_list_scrollbar_up(&mut self)
        ensures
            *final(self) == old(self).list_scrolled_to(one_less(old(self).scroll_info.list_scroll)),
    {
        self.scroll_info.list_scroll = self.scroll_info.list_scroll.saturating_sub(1);
    }

    /// Scrolls the list one row down.
    pub fn adjust_list_scrollbar_down(&mut self)
        ensures
            *final(self) == old(self).list_scrolled_to(one_more(old(self).scroll_info.list_scroll)),
    {
        self.scroll_info.list_scroll = self.scroll_info.list_scroll.saturating_add(1);
    }

    /// Scrolls the list to the top.
    pub fn adjust_list_scrollbar_first(&mut self)
        ensures
            *final(self) == old(self).list_scrolled_to(0),
    {
        self.scroll_info.list_scroll = 0;
    }

    /// Scrolls the list to the bottom: as many rows down as there are tasks.
    pub fn adjust_list_scrollbar_last(&mut self)
        ensures
            *final(self) == old(self).list_scrolled_to(old(self).tasklist.tasks@.len() as usize),
    {
        self.scroll_info.list_scroll = self.tasklist.tasks.len();
    }

    /// Scrolls the details of the task one row up, if they are not at the
    /// top.
    pub fn adjust_task_info_scrollbar_up(&mut self)
        ensures
            *final(self) == old(self).task_info_scrolled_to(
                one_less(old(self).scroll_info.task_info_scroll),
            ),
    {
        self.scroll_info.task_info_scroll = self.scroll_info.task_info_scroll.saturating_sub(1);
    }

    /// Scrolls the details of the task one row down.
    pub fn adjust_task_info_scrollbar_down(&mut self)
        ensures
            *final(self) == old(self).task_info_scrolled_to(
                one_more(old(self).scroll_info.task_info_scroll),
            ),
    {
        self.scroll_info.task_info_scroll = self.scroll_info.task_info_scroll.saturating_add(1);
    }

    /// Scrolls the help one row up, if it is not at the top.
    pub fn adjust_keys_scrollbar_up(&mut self)
        ensures
            *final(self) == old(self).keys_scrolled_to(one_less(old(self).scroll_info.keys_scroll)),
    {
        self.scroll_info.keys_scroll = self.scroll_info.keys_scroll.saturating_sub(1);
    }

    /// Scrolls the help one row down.
    pub fn adjust_keys_scrollbar_down(&mut self)
        ensures
            *final(self) == old(self).keys_scrolled_to(one_more(old(self).scroll_info.keys_scroll)),
    {
        self.scroll_info.keys_scroll = self.scroll_info.keys_scroll.saturating_add(1);
    }

    /// Gives the list pane five percent less, but no less than 20.
    pub fn adjust_listbox_sizing_left(&mut self)
        ensures
            *final(self) == old(self).list_box_sized(narrower(old(self).list_box_sizing)),
    {
        if self.list_box_sizing <= 25 {
            self.list_box_sizing = 20;
        } else {
            self.list_box_sizing = self.list_box_sizing - 5;
        }
    }

    /// Gives the list pane five percent more, but no more than 90.
    pub fn adjust_listbox_sizing_right(&mut self)
        ensures
            *final(self) == old(self).list_box_sized(wider(old(self).list_box_sizing)),
    {
        if self.list_box_sizing >= 85 {
            self.list_box_sizing = 90;
        } else {
            self.list_box_sizing = self.list_box_sizing + 5;
        }
    }
}

/// One less than `n`, and 0 for 0.
pub open spec fn one_less(n: usize) -> usize {
    if n == 0 {
        0
    } else {
        (n - 1) as usize
    }
}

/// One more than `n`, and the largest number for itself.
pub open spec fn one_more(n: usize) -> usize {
    if n == usize::MAX {
        n
    } else {
        (n + 1) as usize
    }
}

/// Five percent less than `percent`, but no less than 20.
pub open spec fn narrower(percent: u16) -> u16 {
    if percent <= 25 {
        20
    } else {
        (percent - 5) as u16
    }
}

/// Five percent more than `percent`, but no more than 90.
pub open spec fn wider(percent: u16) -> u16 {
    if percent >= 85 {
        90
    } else {
        (percent + 5) as u16
    }
}

impl App {
    /// This state with the given row selected, if the list has it: the last
    /// row stands for one behind the end, and nothing is selected in an empty
    /// list.
    pub open spec fn with_selection(self, row: Option<usize>) -> App {
        App {
            tasklist: TaskList {
                tasks: self.tasklist.tasks,
                state: ListState {
                    selected: selection_within(row, self.tasklist.tasks@.len()),
                },
            },
            ..self
        }
    }

    /// The row below the selected one; the first row if none is selected.
    pub open spec fn row_below(self) -> usize {
        match self.tasklist.state.selected {
            None => 0,
            Some(row) => one_more(row),
        }
    }

    /// The row above the selected one; the last row if none is selected.
    pub open spec fn row_above(self) -> usize {
        match self.tasklist.state.selected {
            None => usize::MAX,
            Some(row) => one_less(row),
        }
    }

    /// The tasks that the list shows when the store holds `tasks`: those that
    /// pass the display filter and the tag filter, sorted by urgency as the
    /// settings say.
    pub open spec fn visible(self, tasks: Seq<Task>) -> Seq<Task> {
        sorted_by_urgency(
            tasks.filter(
                |t: Task| t@.shown(Some(self.config.display_filter), self.tags_filter_value@),
            ),
            self.config.urgency_sort_desc,
        )
    }

    /// `row` is the first row of `tasks` at which a task with the identifier
    /// `id` stands, or nothing if there is no such task.
    pub open spec fn points_at(tasks: Seq<Task>, id: u128, row: Option<usize>) -> bool {
        match row {
            Some(r) => r < tasks.len() && tasks[r as int].id == id && forall|k: int|
                0 <= k < r ==> (#[trigger] tasks[k]).id != id,
            None => forall|k: int| 0 <= k < tasks.len() ==> (#[trigger] tasks[k]).id != id,
        }
    }

    /// Selects nothing.
    pub fn select_none(&mut self)
        ensures
            *final(self) == old(self).with_selection(None),
    {
        self.tasklist.select(None);
    }

    /// Selects the row below the selected one, if there is one; the first row
    /// if none is selected.
    pub fn select_next(&mut self)
        ensures
            *final(self) == old(self).with_selection(Some(old(self).row_below())),
    {
        let next = match self.tasklist.state.selected {
            None => 0,
            Some(row) => row.saturating_add(1),
        };
        self.tasklist.select(Some(next));
    }

    /// Selects the row above the selected one, if there is one; the last row
    /// if none is selected.
    pub fn select_previous(&mut self)
        ensures
            *final(self) == old(self).with_selection(Some(old(self).row_above())),
    {
        let previous = match self.tasklist.state.selected {
            None => usize::MAX,
            Some(row) => row.saturating_sub(1),
        };
        self.tasklist.select(Some(previous));
    }

    /// Selects the first row.
    pub fn select_first(&mut self)
        ensures
            *final(self) == old(self).with_selection(Some(0)),
    {
        self.tasklist.select(Some(0));
    }

    /// Selects the last row.
    pub fn select_last(&mut self)
        ensures
            *final(self) == old(self).with_selection(Some(usize::MAX)),
    {
        self.tasklist.select(Some(usize::MAX));
    }

    /// Takes `tasks`, all the tasks of the store, as the new content of the
    /// list: the tasks that pass the filters stay, they are sorted as the
    /// settings say, and nothing is selected.
    pub fn update_tasklist(&mut self, tasks: Vec<Task>)
        ensures
            final(self).tasklist.tasks@ == old(self).visible(tasks@),
            final(self).tasklist.state.selected is None,
            *final(self) == (App { tasklist: final(self).tasklist, ..*old(self) }),
            old(self).sound() ==> final(self).sound(),
    {
        let mut list = TaskList::from(tasks);
        list.filter_tasks(Some(self.config.display_filter), self.tags_filter_value.clone());
        list.sort_by_urgency(self.config.urgency_sort_desc);
        self.tasklist = list;
    }
}

impl App {
    /// Whether the wizard is open.
    pub open spec fn wizard_open(self) -> bool {
        if self.entry_mode == EntryMode::Update {
            self.update_popup
        } else {
            self.add_popup
        }
    }

    /// The selected task, if a task is selected.
    pub open spec fn selected_task(self) -> Option<Task> {
        match self.tasklist.state.selected {
            Some(row) if row < self.tasklist.tasks@.len() => Some(self.tasklist.tasks@[row as int]),
            _ => None,
        }
    }

    /// `after` is this state once the store has done what was asked and now
    /// holds `tasks`: the list is made anew from them, the task that was
    /// waiting to be selected is selected if the list shows it, every window
    /// is closed and no failure is left to report.
    pub open spec fn succeeds_to(self, tasks: Seq<Task>, after: App) -> bool {
        &&& after.tasklist.tasks@ == self.visible(tasks)
        &&& match self.pending {
            Reselect::Nothing => after.tasklist.state.selected is None,
            Reselect::Row(row) => after.tasklist.state.selected == selection_within(
                Some(row),
                after.tasklist.tasks@.len(),
            ),
            Reselect::Id(id) => App::points_at(
                after.tasklist.tasks@,
                id,
                after.tasklist.state.selected,
            ),
        }
        &&& after == (App {
            tasklist: after.tasklist,
            add_popup: false,
            update_popup: false,
            delete_popup: false,
            message: None,
            pending: Reselect::Nothing,
            ..self
        })
    }

    /// What a key does while the help is shown: Escape and `h` close it, Up
    /// and `k` scroll it up, Down and `j` scroll it down. No other key does
    /// anything.
    pub open spec fn help_key_outcome(self, key: KeyEvent, after: App) -> bool {
        let closed = App { show_help: false, ..self };
        let up = self.keys_scrolled_to(one_less(self.scroll_info.keys_scroll));
        let down = self.keys_scrolled_to(one_more(self.scroll_info.keys_scroll));
        match key.code {
            KeyCode::Esc => after == closed,
            KeyCode::Up => after == up,
            KeyCode::Down => after == down,
            KeyCode::Char(ch) => if ch == 'h' {
                after == closed
            } else if ch == 'k' {
                after == up
            } else if ch == 'j' {
                after == down
            } else {
                after == self
            },
            _ => after == self,
        }
    }

    /// What a key does while the tag filter is typed: Escape ends typing and
    /// empties the filter, Enter ends typing and keeps it, Backspace takes
    /// its last character off, a character is added to it, and Down and Up
    /// end typing and move the selection. No other key does anything. The
    /// list is to be read anew after each of these keys.
    pub open spec fn filter_key_outcome(self, key: KeyEvent, after: App) -> bool {
        let done = App { enter_tags_filter: false, ..self };
        match key.code {
            KeyCode::Esc => after.tags_filter_value@.len() == 0 && after == (App {
                tags_filter_value: after.tags_filter_value,
                ..done
            }),
            KeyCode::Enter => after == done,
            KeyCode::Backspace => after.tags_filter_value@ == (if self.tags_filter_value@.len()
                > 0 {
                self.tags_filter_value@.drop_last()
            } else {
                self.tags_filter_value@
            }) && after == (App { tags_filter_value: after.tags_filter_value, ..self }),
            KeyCode::Char(ch) => after.tags_filter_value@ == self.tags_filter_value@.push(ch)
                && after == (App { tags_filter_value: after.tags_filter_value, ..self }),
            KeyCode::Down => after == done.with_selection(Some(self.row_below())).list_scrolled_to(
                one_more(self.scroll_info.list_scroll),
            ),
            KeyCode::Up => after == done.with_selection(Some(self.row_above())).list_scrolled_to(
                one_less(self.scroll_info.list_scroll),
            ),
            _ => after == self,
        }
    }

    /// What the second key of a quick action does: `a` opens the wizard for
    /// a quick add, `c` toggles the status of the selected task. Any key
    /// ends the quick action.
    pub open spec fn quick_key_outcome(self, key: KeyEvent, after: App, action: Action) -> bool {
        let done = App { quick_action: false, ..self };
        match key.code {
            KeyCode::Char(ch) => if ch == 'a' {
                done.quick_adds_to(after) && action is Nothing
            } else if ch == 'c' {
                done.quick_status_outcome(after, action)
            } else {
                after == done && action is Nothing
            },
            _ => after == done && action is Nothing,
        }
    }

    /// Whether the key says yes to the question "delete the task?".
    pub open spec fn confirms(key: KeyEvent) -> bool {
        key.code == KeyCode::Char('y') || key.code == KeyCode::Char('Y') || key.code
            == KeyCode::Char('d')
    }

    /// Whether the key says no to the question "delete the task?".
    pub open spec fn dismisses(key: KeyEvent) -> bool {
        key.code == KeyCode::Char('n') || key.code == KeyCode::Char('N') || key.code
            == KeyCode::Char('x') || key.code == KeyCode::Esc || key.code == KeyCode::Backspace
    }

    /// What a key does while the question "delete the task?" is open. A yes
    /// asks the store to delete the selected task; once that is done the row
    /// above is to be selected, and the question closes. A no closes the
    /// question, as does a yes when no task is selected. No other key does
    /// anything.
    pub open spec fn delete_key_outcome(self, key: KeyEvent, after: App, action: Action) -> bool {
        let closed = App { delete_popup: false, ..self };
        if App::confirms(key) {
            match self.tasklist.state.selected {
                Some(row) if row < self.tasklist.tasks@.len() => {
                    &&& action == Action::Delete(self.tasklist.tasks@[row as int].id)
                    &&& after == (App { pending: Reselect::Row(one_less(row)), ..self })
                },
                _ => after == closed && action is Nothing,
            }
        } else if App::dismisses(key) {
            after == closed && action is Nothing
        } else {
            after == self && action is Nothing
        }
    }

    /// What the wizard does once it has reached `Finished`. A task without a
    /// name is not committed: the wizard goes to the stage of the name and
    /// stays open. Otherwise the task that was entered is handed out: a new
    /// task to be added to the store, or the selected task, changed, to be
    /// written over the stored one. The wizard stays as it is until the
    /// store has answered; the task is then to be selected.
    pub open spec fn commit_outcome(self, after: App, action: Action) -> bool {
        if self.entry_mode == EntryMode::Update {
            match action {
                Action::Update(task) => self.updates_to(after, Some(task)),
                Action::Nothing => self.updates_to(after, None),
                _ => false,
            }
        } else {
            match action {
                Action::Create(task) => self.creates_to(after, Some(task)),
                Action::Nothing => self.creates_to(after, None),
                _ => false,
            }
        }
    }

    /// What a key does at the stage that the wizard is at, before anything is
    /// committed.
    pub open spec fn stage_key_outcome(self, key: KeyEvent, after: App) -> bool {
        match self.stage() {
            Stage::Staging => self.staging_key_outcome(key, after),
            Stage::Name => self.text_key_outcome(key, after),
            Stage::Urgency => self.urgency_key_outcome(key, after),
            Stage::Status => self.status_key_outcome(key, after),
            Stage::Description => self.text_key_outcome(key, after),
            Stage::Latest => self.text_key_outcome(key, after),
            Stage::Tags => self.tags_key_outcome(key, after),
            Stage::Finished => after == self,
        }
    }

    /// What a key does while the wizard is open. The key is handled at the
    /// stage that the wizard is at; if that brings the wizard to `Finished`,
    /// the task is committed. A wizard that is at `Finished` already has
    /// failed to commit before: Enter tries again, Escape gives up, and no
    /// other key does anything.
    pub open spec fn wizard_key_outcome(self, key: KeyEvent, after: App, action: Action) -> bool {
        if self.stage() == Stage::Finished {
            match key.code {
                KeyCode::Esc => self.cancels_to(after) && action is Nothing,
                KeyCode::Enter => self.commit_outcome(after, action),
                _ => after == self && action is Nothing,
            }
        } else {
            exists|mid: App| #[trigger]
                self.stage_key_outcome(key, mid) && if mid.wizard_open() && mid.stage()
                    == Stage::Finished {
                    mid.commit_outcome(after, action)
                } else {
                    after == mid && action is Nothing
                }
        }
    }

    /// `after` is this state with the wizard open for a new task: at the
    /// stage of the name, with nothing entered.
    pub open spec fn opens_add_to(self, after: App) -> bool {
        &&& after.inputs.is_blank()
        &&& after == (App {
            add_popup: true,
            inputs: after.inputs,
            text_info: TextInfo {
                character_index: 0,
                is_text_highlighted: false,
                highlight_info: HighLightInfo { start: 0, distance: 0 },
            },
            add_stage: Stage::Name,
            entry_mode: EntryMode::Add,
            highlight_tags: false,
            tags_highlight_value: 0,
            ..self
        })
    }

    /// `after` is this state with the wizard open for a change to the
    /// selected task: at the menu, with the fields of that task as inputs.
    /// Without a selected task nothing happens.
    pub open spec fn opens_update_to(self, after: App) -> bool {
        match self.selected_task() {
            Some(task) => {
                &&& after.inputs.name@ == task@.name
                &&& after.inputs.urgency == task@.urgency
                &&& after.inputs.status == task@.status
                &&& after.inputs.description@ == text_or_empty(task@.description)
                &&& after.inputs.latest@ == text_or_empty(task@.latest)
                &&& after.inputs.tags@ == tags_or_none(task@.tags)
                &&& after.inputs.tags_input@.len() == 0
                &&& after == (App {
                    update_popup: true,
                    entry_mode: EntryMode::Update,
                    update_stage: Stage::Staging,
                    highlight_tags: false,
                    tags_highlight_value: 0,
                    inputs: after.inputs,
                    text_info: TextInfo {
                        character_index: 0,
                        is_text_highlighted: false,
                        highlight_info: HighLightInfo { start: 0, distance: 0 },
                    },
                    ..self
                })
            },
            None => after == self,
        }
    }

    /// What a key without a modifier does while nothing is open.
    pub open spec fn plain_key_outcome(self, key: KeyEvent, after: App, action: Action) -> bool {
        let down = self.with_selection(Some(self.row_below())).list_scrolled_to(
            one_more(self.scroll_info.list_scroll),
        );
        let up = self.with_selection(Some(self.row_above())).list_scrolled_to(
            one_less(self.scroll_info.list_scroll),
        );
        let top = self.with_selection(Some(0)).list_scrolled_to(0);
        match key.code {
            KeyCode::Esc => after == (App { should_exit: true, ..self }) && action is Nothing,
            KeyCode::Left => after == self.with_selection(None) && action is Nothing,
            KeyCode::Down => after == down && action is Nothing,
            KeyCode::Up => after == up && action is Nothing,
            KeyCode::Home => after == top && action is Nothing,
            KeyCode::End => after == self.with_selection(Some(usize::MAX)) && action is Nothing,
            KeyCode::Char(ch) => if ch == 'x' {
                after == (App { should_exit: true, ..self }) && action is Nothing
            } else if ch == 'v' {
                after == (App { layout_view: self.layout_view.successor(), ..self })
                    && action is Nothing
            } else if ch == 's' {
                after == (App {
                    config: Config {
                        urgency_sort_desc: !self.config.urgency_sort_desc,
                        ..self.config
                    },
                    ..self
                }) && action is Reload
            } else if ch == 'f' {
                after == (App {
                    config: Config {
                        display_filter: self.config.display_filter.successor(),
                        ..self.config
                    },
                    ..self
                }) && action is Reload
            } else if ch == 'h' {
                after == (App { show_help: true, ..self }) && action is Nothing
            } else if ch == 'j' {
                after == down && action is Nothing
            } else if ch == 'k' {
                after == up && action is Nothing
            } else if ch == 'g' {
                after == top && action is Nothing
            } else if ch == 'd' {
                after == (App { delete_popup: self.selected_task() is Some, ..self })
                    && action is Nothing
            } else if ch == 'a' {
                self.opens_add_to(after) && action is Nothing
            } else if ch == 'u' {
                self.opens_update_to(after) && action is Nothing
            } else if ch == 'q' {
                after == (App { quick_action: true, ..self }) && action is Nothing
            } else if ch == '/' {
                after.tags_filter_value@.len() == 0 && after == (App {
                    enter_tags_filter: true,
                    tags_filter_value: after.tags_filter_value,
                    ..self
                }) && action is Reload
            } else {
                after == self && action is Nothing
            },
            _ => after == self && action is Nothing,
        }
    }

    /// What a key does while nothing is open. With Control: Right and Left
    /// give the list pane more or less room, Up and `k` scroll the details of
    /// the task up, Down and `j` scroll them down. With Shift: `G` selects
    /// the last task. Without a modifier: see `plain_key_outcome`. With any
    /// other modifier no key does anything.
    pub open spec fn list_key_outcome(self, key: KeyEvent, after: App, action: Action) -> bool {
        let info_up = self.task_info_scrolled_to(one_less(self.scroll_info.task_info_scroll));
        let info_down = self.task_info_scrolled_to(one_more(self.scroll_info.task_info_scroll));
        match key.modifiers {
            KeyModifiers::Control => action is Nothing && match key.code {
                KeyCode::Right => after == self.list_box_sized(wider(self.list_box_sizing)),
                KeyCode::Left => after == self.list_box_sized(narrower(self.list_box_sizing)),
                KeyCode::Up => after == info_up,
                KeyCode::Down => after == info_down,
                KeyCode::Char(ch) => if ch == 'k' {
                    after == info_up
                } else if ch == 'j' {
                    after == info_down
                } else {
                    after == self
                },
                _ => after == self,
            },
            KeyModifiers::Shift => action is Nothing && if key.code == KeyCode::Char('G') {
                after == self.with_selection(Some(usize::MAX)).list_scrolled_to(
                    self.tasklist.tasks@.len() as usize,
                )
            } else {
                after == self
            },
            KeyModifiers::Plain => self.plain_key_outcome(key, after, action),
            KeyModifiers::Other => after == self && action is Nothing,
        }
    }

    /// Whether the wizard waits at `Finished` for the user to try the commit
    /// again or to give up.
    pub open spec fn awaits_retry(self) -> bool {
        (self.add_popup || self.update_popup) && self.stage() == Stage::Finished
    }

    /// This state with the report of a failure taken off the screen, unless
    /// the wizard waits for the user to try again or to give up: there the
    /// report stays.
    pub open spec fn acknowledged(self) -> App {
        if self.awaits_retry() {
            self
        } else {
            App { message: None, ..self }
        }
    }

    /// What a key does to the session, and what it asks of the store. Only a
    /// key that goes down counts. It takes the report of a failure off the
    /// screen, unless the wizard waits for a new try. Then the help, if it is
    /// shown, takes the key; else the tag filter, if it is typed; else a
    /// quick action that was begun; else the question "delete the task?";
    /// else the wizard; else the list.
    pub open spec fn key_outcome(self, key: KeyEvent, after: App, action: Action) -> bool {
        let start = self.acknowledged();
        if key.kind != KeyEventKind::Press {
            after == self && action is Nothing
        } else if start.show_help {
            start.help_key_outcome(key, after) && action is Nothing
        } else if start.enter_tags_filter {
            start.filter_key_outcome(key, after) && action is Reload
        } else if start.quick_action {
            start.quick_key_outcome(key, after, action)
        } else if start.delete_popup {
            start.delete_key_outcome(key, after, action)
        } else if start.add_popup || start.update_popup {
            start.wizard_key_outcome(key, after, action)
        } else {
            start.list_key_outcome(key, after, action)
        }
    }

    /// Takes what the store holds after it has done what was asked: the list
    /// is made anew, the task that was waiting to be selected is selected if
    /// the list shows it, and every window closes.
    pub fn store_succeeded(&mut self, tasks: Vec<Task>)
        ensures
            old(self).succeeds_to(tasks@, *final(self)),
            old(self).sound() ==> final(self).sound(),
    {
        let pending = self.pending;
        self.update_tasklist(tasks);
        let row = match pending {
            Reselect::Nothing => None,
            Reselect::Row(row) => Some(row),
            Reselect::Id(id) => self.tasklist.position_of(id),
        };
        self.tasklist.select(row);
        self.settle_windows();
    }

    /// Closes every window and forgets the failure and the selection that
    /// was waiting.
    fn settle_windows(&mut self)
        ensures
            *final(self) == (App {
                add_popup: false,
                update_popup: false,
                delete_popup: false,
                message: None,
                pending: Reselect::Nothing,
                ..*old(self)
            }),
    {
        self.add_popup = false;
        self.update_popup = false;
        self.delete_popup = false;
        self.message = None;
        self.pending = Reselect::Nothing;
    }

    /// Takes the report that the store could not do what was asked. The
    /// report is kept to be shown; nothing that was entered is lost, and the
    /// window that asked stays open, so that the user can try again or give
    /// up.
    pub fn store_failed(&mut self, message: String)
        ensures
            *final(self) == (App {
                message: Some(message),
                pending: Reselect::Nothing,
                ..*old(self)
            }),
            old(self).sound() ==> final(self).sound(),
    {
        self.message = Some(message);
        self.pending = Reselect::Nothing;
    }
}

impl App {
    fn set_show_help(&mut self, shown: bool)
        ensures
            *final(self) == (App { show_help: shown, ..*old(self) }),
    {
        self.show_help = shown;
    }

    fn set_delete_popup(&mut self, open: bool)
        ensures
            *final(self) == (App { delete_popup: open, ..*old(self) }),
    {
        self.delete_popup = open;
    }

    fn set_quick_action(&mut self, begun: bool)
        ensures
            *final(self) == (App { quick_action: begun, ..*old(self) }),
    {
        self.quick_action = begun;
    }

    fn set_filter_typing(&mut self, typing: bool)
        ensures
            *final(self) == (App { enter_tags_filter: typing, ..*old(self) }),
    {
        self.enter_tags_filter = typing;
    }

    fn set_pending(&mut self, pending: Reselect)
        ensures
            *final(self) == (App { pending, ..*old(self) }),
    {
        self.pending = pending;
    }

    fn request_exit(&mut self)
        ensures
            *final(self) == (App { should_exit: true, ..*old(self) }),
    {
        self.should_exit = true;
    }

    fn next_layout(&mut self)
        ensures
            *final(self) == (App {
                layout_view: old(self).layout_view.successor(),
                ..*old(self)
            }),
    {
        self.layout_view.next();
    }

    fn toggle_sort(&mut self)
        ensures
            *final(self) == (App {
                config: Config {
                    urgency_sort_desc: !old(self).config.urgency_sort_desc,
                    ..old(self).config
                },
                ..*old(self)
            }),
    {
        self.config.urgency_sort_desc = !self.config.urgency_sort_desc;
    }

    fn next_filter(&mut self)
        ensures
            *final(self) == (App {
                config: Config {
                    display_filter: old(self).config.display_filter.successor(),
                    ..old(self).config
                },
                ..*old(self)
            }),
    {
        self.config.display_filter.next();
    }

    fn clear_filter(&mut self)
        ensures
            final(self).tags_filter_value@.len() == 0,
            *final(self) == (App {
                tags_filter_value: final(self).tags_filter_value,
                ..*old(self)
            }),
    {
        self.tags_filter_value = String::new();
    }

    fn push_filter(&mut self, ch: char)
        ensures
            final(self).tags_filter_value@ == old(self).tags_filter_value@.push(ch),
            *final(self) == (App {
                tags_filter_value: final(self).tags_filter_value,
                ..*old(self)
            }),
    {
        push_char(&mut self.tags_filter_value, ch);
    }

    fn pop_filter(&mut self)
        ensures
            final(self).tags_filter_value@ == (if old(self).tags_filter_value@.len() > 0 {
                old(self).tags_filter_value@.drop_last()
            } else {
                old(self).tags_filter_value@
            }),
            *final(self) == (App {
                tags_filter_value: final(self).tags_filter_value,
                ..*old(self)
            }),
    {
        let mut chars = to_chars(self.tags_filter_value.as_str());
        chars.pop();
        self.tags_filter_value = from_chars(&chars);
    }

    /// Opens the wizard for a new task.
    pub fn open_add(&mut self)
        ensures
            old(self).opens_add_to(*final(self)),
    {
        self.add_popup = true;
        self.inputs = Inputs::default();
        self.text_info = TextInfo::new();
        self.add_stage = Stage::Name;
        self.entry_mode = EntryMode::Add;
        self.highlight_tags = false;
        self.tags_highlight_value = 0;
    }

    /// Opens the wizard for a change to the selected task, if a task is
    /// selected.
    pub fn open_update(&mut self)
        ensures
            old(self).opens_update_to(*final(self)),
    {
        let seeded = match self.tasklist.selected_task() {
            Some(task) => Some(Inputs::from_task(task)),
            None => None,
        };
        match seeded {
            Some(inputs) => {
                self.update_popup = true;
                self.entry_mode = EntryMode::Update;
                self.update_stage = Stage::Staging;
                self.highlight_tags = false;
                self.tags_highlight_value = 0;
                self.inputs = inputs;
                self.text_info = TextInfo::new();
            },
            None => {},
        }
    }

    /// Handles a key while the help is shown.
    pub fn handle_help_key(&mut self, key: KeyEvent)
        ensures
            old(self).help_key_outcome(key, *final(self)),
    {
        match key.code {
            KeyCode::Esc => self.set_show_help(false),
            KeyCode::Up => self.adjust_keys_scrollbar_up(),
            KeyCode::Down => self.adjust_keys_scrollbar_down(),
            KeyCode::Char(ch) => {
                if ch == 'h' {
                    self.set_show_help(false);
                } else if ch == 'k' {
                    self.adjust_keys_scrollbar_up();
                } else if ch == 'j' {
                    self.adjust_keys_scrollbar_down();
                }
            },
            _ => {},
        }
    }

    /// Handles a key while the tag filter is typed.
    pub fn handle_filter_key(&mut self, key: KeyEvent)
        ensures
            old(self).filter_key_outcome(key, *final(self)),
    {
        match key.code {
            KeyCode::Esc => {
                self.set_filter_typing(false);
                self.clear_filter();
            },
            KeyCode::Enter => self.set_filter_typing(false),
            KeyCode::Backspace => self.pop_filter(),
            KeyCode::Char(ch) => self.push_filter(ch),
            KeyCode::Down => {
                self.set_filter_typing(false);
                self.select_next();
                self.adjust_list_scrollbar_down();
            },
            KeyCode::Up => {
                self.set_filter_typing(false);
                self.select_previous();
                self.adjust_list_scrollbar_up();
            },
            _ => {},
        }
    }

    /// Handles the second key of a quick action.
    pub fn handle_quick_key(&mut self, key: KeyEvent) -> (action: Action)
        ensures
            old(self).quick_key_outcome(key, *final(self), action),
    {
        self.set_quick_action(false);
        match key.code {
            KeyCode::Char(ch) => {
                if ch == 'a' {
                    self.quick_add_setup();
                    Action::Nothing
                } else if ch == 'c' {
                    self.quick_status()
                } else {
                    Action::Nothing
                }
            },
            _ => Action::Nothing,
        }
    }

    /// Whether the key says yes to the question "delete the task?".
    fn is_confirm(key: KeyEvent) -> (yes: bool)
        ensures
            yes == App::confirms(key),
    {
        match key.code {
            KeyCode::Char(ch) => ch == 'y' || ch == 'Y' || ch == 'd',
            _ => false,
        }
    }

    /// Whether the key says no to the question "delete the task?".
    fn is_dismiss(key: KeyEvent) -> (no: bool)
        ensures
            no == App::dismisses(key),
    {
        match key.code {
            KeyCode::Char(ch) => ch == 'n' || ch == 'N' || ch == 'x',
            KeyCode::Esc => true,
            KeyCode::Backspace => true,
            _ => false,
        }
    }

    /// Handles a key while the question "delete the task?" is open.
    pub fn handle_delete_key(&mut self, key: KeyEvent) -> (action: Action)
        ensures
            old(self).delete_key_outcome(key, *final(self), action),
    {
        if App::is_confirm(key) {
            let target = match self.tasklist.selected_task() {
                Some(task) => Some(task.get_id()),
                None => None,
            };
            match target {
                Some(id) => {
                    let row = match self.tasklist.state.selected {
                        Some(row) => row,
                        None => 0,
                    };
                    self.set_pending(Reselect::Row(row.saturating_sub(1)));
                    Action::Delete(id)
                },
                None => {
                    self.set_delete_popup(false);
                    Action::Nothing
                },
            }
        } else if App::is_dismiss(key) {
            self.set_delete_popup(false);
            Action::Nothing
        } else {
            Action::Nothing
        }
    }

    /// Whether the wizard is open.
    pub fn is_wizard_open(&self) -> (open: bool)
        ensures
            open == self.wizard_open(),
    {
        match self.entry_mode {
            EntryMode::Update => self.update_popup,
            _ => self.add_popup,
        }
    }

    /// Commits what was entered: hands the task out to be stored. A task
    /// without a name is not committed; the wizard then asks for the name.
    pub fn commit(&mut self) -> (action: Action)
        ensures
            old(self).commit_outcome(*final(self), action),
    {
        match self.entry_mode {
            EntryMode::Update => {
                match self.update_selected_task() {
                    Some(task) => Action::Update(task),
                    None => Action::Nothing,
                }
            },
            _ => {
                match self.add_new_task_in() {
                    Some(task) => Action::Create(task),
                    None => Action::Nothing,
                }
            },
        }
    }

    /// Handles a key at the stage that the wizard is at.
    pub fn handle_stage_key(&mut self, key: KeyEvent)
        ensures
            old(self).stage_key_outcome(key, *final(self)),
    {
        match self.get_stage_off_entry_mode() {
            Stage::Staging => self.handle_update_staging(key),
            Stage::Name => self.handle_keys_for_text_inputs(key),
            Stage::Urgency => self.handle_keys_for_urgency(key),
            Stage::Status => self.handle_keys_for_status(key),
            Stage::Description => self.handle_keys_for_text_inputs(key),
            Stage::Latest => self.handle_keys_for_text_inputs(key),
            Stage::Tags => self.handle_keys_for_tags(key),
            Stage::Finished => {},
        }
    }

    /// Whether the wizard is at `Finished`.
    fn at_finished(&self) -> (yes: bool)
        ensures
            yes == (self.stage() == Stage::Finished),
    {
        match self.get_stage_off_entry_mode() {
            Stage::Finished => true,
            _ => false,
        }
    }

    /// Handles a key while the wizard is open.
    pub fn handle_wizard_key(&mut self, key: KeyEvent) -> (action: Action)
        ensures
            old(self).wizard_key_outcome(key, *final(self), action),
    {
        if self.at_finished() {
            match key.code {
                KeyCode::Esc => {
                    self.cancel();
                    Action::Nothing
                },
                KeyCode::Enter => self.commit(),
                _ => Action::Nothing,
            }
        } else {
            self.handle_stage_key(key);
            let ghost mid = *self;
            let open = self.is_wizard_open();
            if open && self.at_finished() {
                let action = self.commit();
                assert(old(self).stage_key_outcome(key, mid));
                action
            } else {
                assert(old(self).stage_key_outcome(key, mid));
                Action::Nothing
            }
        }
    }

    /// Handles a key without a modifier while nothing is open.
    pub fn handle_plain_key(&mut self, key: KeyEvent) -> (action: Action)
        ensures
            old(self).plain_key_outcome(key, *final(self), action),
    {
        match key.code {
            KeyCode::Esc => {
                self.request_exit();
                Action::Nothing
            },
            KeyCode::Left => {
                self.select_none();
                Action::Nothing
            },
            KeyCode::Down => {
                self.select_next();
                self.adjust_list_scrollbar_down();
                Action::Nothing
            },
            KeyCode::Up => {
                self.select_previous();
                self.adjust_list_scrollbar_up();
                Action::Nothing
            },
            KeyCode::Home => {
                self.select_first();
                self.adjust_list_scrollbar_first();
                Action::Nothing
            },
            KeyCode::End => {
                self.select_last();
                Action::Nothing
            },
            KeyCode::Char(ch) => self.handle_plain_char(ch),
            _ => Action::Nothing,
        }
    }

    /// Handles a character key without a modifier while nothing is open.
    fn handle_plain_char(&mut self, ch: char) -> (action: Action)
        ensures
            old(self).plain_key_outcome(
                KeyEvent {
                    code: KeyCode::Char(ch),
                    modifiers: KeyModifiers::Plain,
                    kind: KeyEventKind::Press,
                },
                *final(self),
                action,
            ),
    {
        if ch == 'x' {
            self.request_exit();
            Action::Nothing
        } else if ch == 'v' {
            self.next_layout();
            Action::Nothing
        } else if ch == 's' {
            self.toggle_sort();
            Action::Reload
        } else if ch == 'f' {
            self.next_filter();
            Action::Reload
        } else if ch == 'h' {
            self.set_show_help(true);
            Action::Nothing
        } else if ch == 'j' {
            self.select_next();
            self.adjust_list_scrollbar_down();
            Action::Nothing
        } else if ch == 'k' {
            self.select_previous();
            self.adjust_list_scrollbar_up();
            Action::Nothing
        } else if ch == 'g' {
            self.select_first();
            self.adjust_list_scrollbar_first();
            Action::Nothing
        } else if ch == 'd' {
            let selected = self.tasklist.selected_task().is_some();
            self.set_delete_popup(selected);
            Action::Nothing
        } else if ch == 'a' {
            self.open_add();
            Action::Nothing
        } else if ch == 'u' {
            self.open_update();
            Action::Nothing
        } else if ch == 'q' {
            self.set_quick_action(true);
            Action::Nothing
        } else if ch == '/' {
            self.set_filter_typing(true);
            self.clear_filter();
            Action::Reload
        } else {
            Action::Nothing
        }
    }

    /// Handles a key while nothing is open.
    pub fn handle_list_key(&mut self, key: KeyEvent) -> (action: Action)
        ensures
            old(self).list_key_outcome(key, *final(self), action),
    {
        match key.modifiers {
            KeyModifiers::Control => {
                match key.code {
                    KeyCode::Right => self.adjust_listbox_sizing_right(),
                    KeyCode::Left => self.adjust_listbox_sizing_left(),
                    KeyCode::Up => self.adjust_task_info_scrollbar_up(),
                    KeyCode::Down => self.adjust_task_info_scrollbar_down(),
                    KeyCode::Char(ch) => {
                        if ch == 'k' {
                            self.adjust_task_info_scrollbar_up();
                        } else if ch == 'j' {
                            self.adjust_task_info_scrollbar_down();
                        }
                    },
                    _ => {},
                }
                Action::Nothing
            },
            KeyModifiers::Shift => {
                match key.code {
                    KeyCode::Char(ch) => {
                        if ch == 'G' {
                            self.select_last();
                            self.adjust_list_scrollbar_last();
                        }
                    },
                    _ => {},
                }
                Action::Nothing
            },
            KeyModifiers::Plain => self.handle_plain_key(key),
            KeyModifiers::Other => Action::Nothing,
        }
    }

    /// Takes the report of a failure off the screen, unless the wizard waits
    /// for the user to try again or to give up.
    pub fn acknowledge(&mut self)
        ensures
            *final(self) == old(self).acknowledged(),
    {
        let waits = (self.add_popup || self.update_popup) && self.at_finished();
        if !waits {
            self.message = None;
        }
    }

    /// Handles a key: changes the state of the session as the key asks, and
    /// says what is to be done with the store. The caller does that, and
    /// reports how it went with `update_tasklist` after a `Reload`, and with
    /// `store_succeeded` or `store_failed` after any other request.
    pub fn handle_key(&mut self, key: KeyEvent) -> (action: Action)
        ensures
            old(self).key_outcome(key, *final(self), action),
            old(self).sound() ==> final(self).sound(),
    {
        match key.kind {
            KeyEventKind::Press => {},
            _ => {
                return Action::Nothing;
            },
        }
        self.acknowledge();
        let action = if self.show_help {
            self.handle_help_key(key);
            Action::Nothing
        } else if self.enter_tags_filter {
            self.handle_filter_key(key);
            Action::Reload
        } else if self.quick_action {
            self.handle_quick_key(key)
        } else if self.delete_popup {
            self.handle_delete_key(key)
        } else if self.add_popup || self.update_popup {
            self.handle_wizard_key(key)
        } else {
            self.handle_list_key(key)
        };
        proof {
            if old(self).sound() {
                crate::display::laws::lemma_key_keeps_sound(*old(self), key, *self, action);
            }
        }
        action
    }
}

} // verus!
