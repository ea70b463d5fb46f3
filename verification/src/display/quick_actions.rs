//! The actions that take two keys: a quick add and a quick change of status.

use crate::backend::task::{Status, Task, TaskModel, Timestamp};
use crate::display::add::{EntryMode, Inputs, Stage};
use crate::display::text::{HighLightInfo, TextInfo};
use crate::display::tui::{Action, App, Reselect};
use vstd::prelude::*;

verus! {

/// The status that a quick change gives a task: Open if it is completed,
/// Completed if it is not.
pub open spec fn toggled(status: Status) -> Status {
    if status == Status::Completed {
        Status::Open
    } else {
        Status::Completed
    }
}

impl App {
    /// `after` is this state with the wizard open for a quick add: at the
    /// stage of the name, with nothing entered.
    pub open spec fn quick_adds_to(self, after: App) -> bool {
        &&& after.inputs.is_blank()
        &&& after == (App {
            add_stage: Stage::Name,
            entry_mode: EntryMode::QuickAdd,
            add_popup: true,
            inputs: after.inputs,
            text_info: TextInfo {
                character_index: 0,
                is_text_highlighted: false,
                highlight_info: HighLightInfo { start: 0, distance: 0 },
            },
            highlight_tags: false,
            tags_highlight_value: 0,
            ..self
        })
    }

    /// The selected task with its status toggled at the instant `now`, if a
    /// task is selected: it is completed at `now` if it becomes completed,
    /// and has no time of completion if it becomes open. Nothing else of it
    /// changes.
    pub open spec fn toggled_at(self, now: Timestamp) -> Option<TaskModel> {
        match self.selected_task() {
            Some(current) => Some(
                TaskModel {
                    status: toggled(current@.status),
                    completed_on: if toggled(current@.status) == Status::Completed {
                        Some(now)
                    } else {
                        None
                    },
                    ..current@
                },
            ),
            None => None,
        }
    }

    /// What a quick change of status asks of the store, and the state after
    /// it: the selected task with its status toggled, as `toggled_at` says
    /// for the instant of the change, to be written to the store and
    /// selected again; or nothing if no task is selected.
    pub open spec fn quick_status_outcome(self, after: App, action: Action) -> bool {
        match self.tasklist.state.selected {
            Some(row) if row < self.tasklist.tasks@.len() => {
                &&& action matches Action::Update(task)
                &&& exists|now: Timestamp| #[trigger] self.toggled_at(now) == Some(task@)
                &&& after == (App { pending: Reselect::Row(row), ..self })
            },
            _ => action is Nothing && after == self,
        }
    }

    /// Opens the wizard for a quick add: only the name is asked.
    pub fn quick_add_setup(&mut self)
        ensures
            old(self).quick_adds_to(*final(self)),
    {
        self.add_stage = Stage::Name;
        self.entry_mode = EntryMode::QuickAdd;
        self.add_popup = true;
        self.text_info = TextInfo::new();
        self.inputs = Inputs::default();
        self.highlight_tags = false;
        self.tags_highlight_value = 0;
    }

    /// Makes the selected task with its status toggled at the instant `now`;
    /// nothing where no task is selected. The session does not change.
    pub fn toggled_task_at(&self, now: Timestamp) -> (task: Option<Task>)
        ensures
            match self.toggled_at(now) {
                Some(model) => task matches Some(made) && made@ == model,
                None => task is None,
            },
    {
        match self.tasklist.selected_task() {
            None => None,
            Some(current) => {
                let mut task = current.clone();
                let status = if task.status == Status::Completed {
                    Status::Open
                } else {
                    Status::Completed
                };
                task.set_status_at(status, now);
                Some(task)
            },
        }
    }

    /// Toggles the status of the selected task between Completed and Open.
    /// The changed task is handed out to be written to the store; the list
    /// changes when the store has answered.
    pub fn quick_status(&mut self) -> (action: Action)
        ensures
            old(self).quick_status_outcome(*final(self), action),
    {
        let now = Timestamp::now();
        match self.toggled_task_at(now) {
            None => Action::Nothing,
            Some(task) => {
                assert(self.toggled_at(now) == Some(task@));
                self.pending = match self.tasklist.state.selected {
                    Some(row) => Reselect::Row(row),
                    None => Reselect::Nothing,
                };
                Action::Update(task)
            },
        }
    }
}

} // verus!
