//! The wizard that takes the fields of a task, one stage at a time.

use crate::backend::tags::{insert_sorted, TagSet};
use crate::backend::task::{
    Status, Task, TaskModel, Timestamp, Urgency, ID_KIND_MASK, ID_KIND_RANDOM,
};
use crate::display::keys::{KeyCode, KeyEvent, KeyModifiers};
use crate::display::text::{HighlightDirection, TextInfo};
use crate::display::tui::{App, Reselect};
use crate::strings::{byte_index, char_count};
use vstd::prelude::*;

verus! {

/// What the wizard is for: a new task with all its fields, a change to a
/// task that exists, or a new task of which only the name is asked.
#[derive(Clone, Copy, Debug, PartialEq, Eq, Structural)]
pub enum EntryMode {
    Add,
    Update,
    QuickAdd,
}

/// The stage that the wizard is at. `Staging` is the menu from which a change
/// to a task picks its field; a new task goes from `Name` through each stage
/// to `Finished`.
#[derive(Clone, Copy, Debug, PartialEq, Eq, PartialOrd, Ord, Structural)]
pub enum Stage {
    Staging,
    Name,
    Urgency,
    Status,
    Description,
    Latest,
    Tags,
    Finished,
}

impl Stage {
    /// The stage after this one. `Finished` has none, and `Staging` lies
    /// outside the order: both stay.
    pub open spec fn successor(self) -> Stage {
        match self {
            Stage::Name => Stage::Urgency,
            Stage::Urgency => Stage::Status,
            Stage::Status => Stage::Description,
            Stage::Description => Stage::Latest,
            Stage::Latest => Stage::Tags,
            Stage::Tags => Stage::Finished,
            Stage::Finished => Stage::Finished,
            Stage::Staging => Stage::Staging,
        }
    }

    /// The stage before this one. `Name` has none, and `Staging` lies outside
    /// the order: both stay.
    pub open spec fn predecessor(self) -> Stage {
        match self {
            Stage::Finished => Stage::Tags,
            Stage::Tags => Stage::Latest,
            Stage::Latest => Stage::Description,
            Stage::Description => Stage::Status,
            Stage::Status => Stage::Urgency,
            Stage::Urgency => Stage::Name,
            Stage::Name => Stage::Name,
            Stage::Staging => Stage::Staging,
        }
    }

    /// The place of the stage in the order of the wizard, `Name` being 1 and
    /// `Finished` 7; `Staging`, which is outside the order, is 0.
    pub open spec fn place(self) -> int {
        match self {
            Stage::Staging => 0,
            Stage::Name => 1,
            Stage::Urgency => 2,
            Stage::Status => 3,
            Stage::Description => 4,
            Stage::Latest => 5,
            Stage::Tags => 6,
            Stage::Finished => 7,
        }
    }

    /// Whether text is typed at this stage.
    pub open spec fn takes_text(self) -> bool {
        self == Stage::Name || self == Stage::Description || self == Stage::Latest || self
            == Stage::Tags
    }

    /// Goes one stage forward; stays at `Finished`.
    pub fn next(&mut self)
        ensures
            *final(self) == old(self).successor(),
    {
        match self {
            Stage::Name => *self = Stage::Urgency,
            Stage::Urgency => *self = Stage::Status,
            Stage::Status => *self = Stage::Description,
            Stage::Description => *self = Stage::Latest,
            Stage::Latest => *self = Stage::Tags,
            Stage::Tags => *self = Stage::Finished,
            _ => {},
        }
    }

    /// Goes one stage back; stays at `Name`.
    pub fn back(&mut self)
        ensures
            *final(self) == old(self).predecessor(),
    {
        match self {
            Stage::Finished => *self = Stage::Tags,
            Stage::Tags => *self = Stage::Latest,
            Stage::Latest => *self = Stage::Description,
            Stage::Description => *self = Stage::Status,
            Stage::Status => *self = Stage::Urgency,
            Stage::Urgency => *self = Stage::Name,
            _ => {},
        }
    }
}

impl Default for Stage {
    fn default() -> (stage: Self)
        ensures
            stage == Stage::Name,
    {
        Stage::Name
    }
}

/// The stages from `Name` to `Finished` are a strict order that `next` and
/// `back` walk one step at a time: a step forward goes one place up until
/// `Finished`, a step back one place down until `Name`, and each undoes the
/// other wherever the other moved.
pub proof fn lemma_stage_order(stage: Stage)
    ensures
        stage.successor().place() == if stage == Stage::Staging || stage == Stage::Finished {
            stage.place()
        } else {
            stage.place() + 1
        },
        stage.predecessor().place() == if stage == Stage::Staging || stage == Stage::Name {
            stage.place()
        } else {
            stage.place() - 1
        },
        stage.successor() != stage ==> stage.successor().predecessor() == stage,
        stage.predecessor() != stage ==> stage.predecessor().successor() == stage,
{
}

/// What the user has entered for a task so far.
#[derive(Debug)]
pub struct Inputs {
    pub name: String,
    pub urgency: Urgency,
    pub status: Status,
    pub description: String,
    pub latest: String,
    pub tags: TagSet,
    pub tags_input: String,
}

/// The text that may be missing, or the empty text.
pub open spec fn text_or_empty(text: Option<Seq<char>>) -> Seq<char> {
    match text {
        Some(t) => t,
        None => Seq::empty(),
    }
}

/// The tags that may be missing, or no tags.
pub open spec fn tags_or_none(tags: Option<Seq<Seq<char>>>) -> Seq<Seq<char>> {
    match tags {
        Some(t) => t,
        None => Seq::empty(),
    }
}

impl Inputs {
    /// Nothing has been entered: the texts are empty, there are no tags, the
    /// urgency is Low and the status Open.
    pub open spec fn is_blank(&self) -> bool {
        &&& self.name@.len() == 0
        &&& self.urgency == Urgency::Low
        &&& self.status == Status::Open
        &&& self.description@.len() == 0
        &&& self.latest@.len() == 0
        &&& self.tags@.len() == 0
        &&& self.tags_input@.len() == 0
    }

    /// The fields of `task`, to be edited: a copy that leaves the task as it
    /// is. A text or a tag set that the task lacks is empty here.
    pub fn from_task(task: &Task) -> (inputs: Self)
        ensures
            inputs.name@ == task@.name,
            inputs.urgency == task@.urgency,
            inputs.status == task@.status,
            inputs.description@ == text_or_empty(task@.description),
            inputs.latest@ == text_or_empty(task@.latest),
            inputs.tags@ == tags_or_none(task@.tags),
            inputs.tags_input@.len() == 0,
    {
        Inputs {
            name: task.name.clone(),
            urgency: task.urgency,
            status: task.status,
            description: match &task.description {
                Some(text) => text.clone(),
                None => String::new(),
            },
            latest: match &task.latest {
                Some(text) => text.clone(),
                None => String::new(),
            },
            tags: match &task.tags {
                Some(tags) => tags.clone(),
                None => TagSet::new(),
            },
            tags_input: String::new(),
        }
    }
}

impl Default for Inputs {
    fn default() -> (inputs: Self)
        ensures
            inputs.is_blank(),
    {
        Inputs {
            name: String::new(),
            urgency: Urgency::Low,
            status: Status::Open,
            description: String::new(),
            latest: String::new(),
            tags: TagSet::new(),
            tags_input: String::new(),
        }
    }
}

impl App {
    /// The stage of the wizard that is open.
    pub fn get_stage_off_entry_mode(&self) -> (stage: &Stage)
        ensures
            *stage == self.stage(),
    {
        match self.entry_mode {
            EntryMode::Add => &self.add_stage,
            EntryMode::QuickAdd => &self.add_stage,
            EntryMode::Update => &self.update_stage,
        }
    }

    /// Puts the wizard at `stage`.
    pub fn set_stage(&mut self, stage: Stage)
        ensures
            final(self).stage() == stage,
            *final(self) == (match old(self).entry_mode {
                EntryMode::Update => App { update_stage: stage, ..*old(self) },
                _ => App { add_stage: stage, ..*old(self) },
            }),
    {
        match self.entry_mode {
            EntryMode::Update => self.update_stage = stage,
            _ => self.add_stage = stage,
        }
    }

    /// Takes the text of the field that is edited out of the inputs and
    /// leaves the empty text there.
    fn take_text(&mut self) -> (text: String)
        ensures
            text@ == old(self).active_text(),
            final(self).same_but_text(old(self)),
            final(self).text_info == old(self).text_info,
            final(self).stage() == old(self).stage(),
            !old(self).stage().takes_text() ==> *final(self) == *old(self),
    {
        let mut text = String::new();
        match self.get_stage_off_entry_mode() {
            Stage::Name => core::mem::swap(&mut self.inputs.name, &mut text),
            Stage::Description => core::mem::swap(&mut self.inputs.description, &mut text),
            Stage::Latest => core::mem::swap(&mut self.inputs.latest, &mut text),
            Stage::Tags => core::mem::swap(&mut self.inputs.tags_input, &mut text),
            _ => {},
        }
        text
    }

    /// Makes `text` the text of the field that is edited.
    fn put_text(&mut self, text: String)
        ensures
            final(self).same_but_text(old(self)),
            final(self).text_info == old(self).text_info,
            final(self).stage() == old(self).stage(),
            old(self).stage().takes_text() ==> final(self).active_text() == text@,
            !old(self).stage().takes_text() ==> *final(self) == *old(self),
    {
        match self.get_stage_off_entry_mode() {
            Stage::Name => self.inputs.name = text,
            Stage::Description => self.inputs.description = text,
            Stage::Latest => self.inputs.latest = text,
            Stage::Tags => self.inputs.tags_input = text,
            _ => {},
        }
    }

    /// Whether text is typed at the stage of the wizard.
    pub fn at_text_stage(&self) -> (yes: bool)
        ensures
            yes == self.stage().takes_text(),
    {
        match self.get_stage_off_entry_mode() {
            Stage::Name => true,
            Stage::Description => true,
            Stage::Latest => true,
            Stage::Tags => true,
            _ => false,
        }
    }

    /// The number of characters of the field that is edited; 0 at a stage
    /// without a text.
    pub fn get_text_length(&self) -> (len: usize)
        ensures
            len == self.active_text().len(),
    {
        match self.get_stage_off_entry_mode() {
            Stage::Name => char_count(self.inputs.name.as_str()),
            Stage::Description => char_count(self.inputs.description.as_str()),
            Stage::Latest => char_count(self.inputs.latest.as_str()),
            Stage::Tags => char_count(self.inputs.tags_input.as_str()),
            _ => 0,
        }
    }

    /// The cursor position `new_cursor_pos`, or the end of the field that is
    /// edited if the position lies behind it.
    pub fn clamp_cursor(&self, new_cursor_pos: usize) -> (pos: usize)
        ensures
            pos == if new_cursor_pos > self.active_text().len() {
                self.active_text().len()
            } else {
                new_cursor_pos as nat
            },
    {
        let len = self.get_text_length();
        if new_cursor_pos > len {
            len
        } else {
            new_cursor_pos
        }
    }

    /// The offset in bytes of the cursor in the UTF-8 form of the field that
    /// is edited: the number of bytes that the characters before the cursor
    /// take. It is 0 at a stage without a text.
    pub fn byte_index(&self) -> (offset: usize)
        ensures
            offset == vstd::utf8::encode_utf8(
                self.active_text().take(self.editor().cursor()),
            ).len() as usize,
    {
        let at = self.text_info.character_index;
        match self.get_stage_off_entry_mode() {
            Stage::Name => byte_index(self.inputs.name.as_str(), at),
            Stage::Description => byte_index(self.inputs.description.as_str(), at),
            Stage::Latest => byte_index(self.inputs.latest.as_str(), at),
            Stage::Tags => byte_index(self.inputs.tags_input.as_str(), at),
            _ => {
                proof {
                    assert(self.active_text().take(self.editor().cursor()) =~= Seq::<char>::empty());
                    reveal_with_fuel(vstd::utf8::encode_utf8, 1);
                }
                0
            },
        }
    }

    /// The two ends of the highlighted range in the field that is edited, the
    /// smaller first.
    pub fn get_highlight_start_and_end(&self) -> (ends: (usize, usize))
        ensures
            (ends.0 as int, ends.1 as int) == self.editor().selection(),
            ends.0 <= ends.1 <= self.active_text().len(),
    {
        let len = self.get_text_length();
        self.text_info.selection_bounds(len)
    }

    /// Moves the cursor of the field that is edited to the left.
    pub fn move_cursor_left(&mut self)
        ensures
            final(self).same_but_text(old(self)),
            final(self).active_text() == old(self).active_text(),
            final(self).editor() == old(self).editor().move_left(),
            final(self).cursor_in_bounds(),
    {
        let text = self.take_text();
        self.text_info.move_left(text.as_str());
        self.put_text(text);
    }

    /// Moves the cursor of the field that is edited to the right.
    pub fn move_cursor_right(&mut self)
        ensures
            final(self).same_but_text(old(self)),
            final(self).active_text() == old(self).active_text(),
            final(self).editor() == old(self).editor().move_right(),
            final(self).cursor_in_bounds(),
    {
        let text = self.take_text();
        self.text_info.move_right(text.as_str());
        self.put_text(text);
    }

    /// Types a character into the field that is edited. At a stage without a
    /// text nothing happens.
    pub fn enter_char(&mut self, new_char: char)
        ensures
            final(self).same_but_text(old(self)),
            old(self).stage().takes_text() ==> final(self).editor()
                == old(self).editor().insert_char(new_char),
            !old(self).stage().takes_text() ==> *final(self) == *old(self),
            old(self).cursor_in_bounds() ==> final(self).cursor_in_bounds(),
    {
        if self.at_text_stage() {
            let mut text = self.take_text();
            self.text_info.insert_char(&mut text, new_char);
            self.put_text(text);
        }
    }

    /// Backspace in the field that is edited. At a stage without a text
    /// nothing happens.
    pub fn delete_char(&mut self)
        ensures
            final(self).same_but_text(old(self)),
            old(self).stage().takes_text() ==> final(self).editor()
                == old(self).editor().delete_backward(),
            !old(self).stage().takes_text() ==> *final(self) == *old(self),
            old(self).cursor_in_bounds() ==> final(self).cursor_in_bounds(),
    {
        if self.at_text_stage() {
            let mut text = self.take_text();
            self.text_info.delete_backward(&mut text);
            self.put_text(text);
        }
    }

    /// Extends the highlighted range of the field that is edited by one
    /// character in the given direction.
    pub fn highlight_single_char(&mut self, direction: HighlightDirection)
        ensures
            final(self).same_but_text(old(self)),
            final(self).active_text() == old(self).active_text(),
            final(self).editor() == old(self).editor().extend_selection(direction),
            final(self).cursor_in_bounds(),
    {
        let text = self.take_text();
        self.text_info.extend_selection(text.as_str(), direction);
        self.put_text(text);
    }

    /// Highlights the whole of the field that is edited.
    pub fn highlight_all(&mut self)
        ensures
            final(self).same_but_text(old(self)),
            final(self).active_text() == old(self).active_text(),
            final(self).editor() == old(self).editor().select_all(),
            final(self).cursor_in_bounds(),
    {
        let text = self.take_text();
        self.text_info.select_all(text.as_str());
        self.put_text(text);
    }
}

/// The stage that follows `stage` when its field is confirmed: the next one
/// for a new task; `Finished` for a change, which has one field, and for a
/// quick add, which asks for the name alone.
pub open spec fn advanced(mode: EntryMode, stage: Stage) -> Stage {
    match mode {
        EntryMode::Add => stage.successor(),
        _ => Stage::Finished,
    }
}

/// The stage to which the wizard goes back from `stage`: the one before for
/// a new task, the menu for a change; a quick add stays.
pub open spec fn retreated(mode: EntryMode, stage: Stage) -> Stage {
    match mode {
        EntryMode::Add => stage.predecessor(),
        EntryMode::Update => Stage::Staging,
        EntryMode::QuickAdd => stage,
    }
}

/// The urgency that a key selects.
pub open spec fn urgency_for(ch: char) -> Option<Urgency> {
    if ch == '1' {
        Some(Urgency::Low)
    } else if ch == '2' {
        Some(Urgency::Medium)
    } else if ch == '3' {
        Some(Urgency::High)
    } else if ch == '4' {
        Some(Urgency::Critical)
    } else {
        None
    }
}

/// The status that a key selects.
pub open spec fn status_for(ch: char) -> Option<Status> {
    if ch == '1' {
        Some(Status::Open)
    } else if ch == '2' {
        Some(Status::Working)
    } else if ch == '3' {
        Some(Status::Paused)
    } else if ch == '4' {
        Some(Status::Completed)
    } else {
        None
    }
}

/// A text as a field of a task: missing if it is empty.
pub open spec fn filled(text: Seq<char>) -> Option<Seq<char>> {
    if text.len() == 0 {
        None
    } else {
        Some(text)
    }
}

/// A tag set as a field of a task: missing if it is empty.
pub open spec fn filled_tags(tags: Seq<Seq<char>>) -> Option<Seq<Seq<char>>> {
    if tags.len() == 0 {
        None
    } else {
        Some(tags)
    }
}

/// The fields of `task` that the user enters are those of `inputs`, and the
/// task has a completion time exactly if it is completed.
pub open spec fn entered(inputs: Inputs, task: TaskModel) -> bool {
    &&& task.name == inputs.name@
    &&& task.description == filled(inputs.description@)
    &&& task.latest == filled(inputs.latest@)
    &&& task.urgency == inputs.urgency
    &&& task.status == inputs.status
    &&& task.tags == filled_tags(inputs.tags@)
    &&& task.consistent()
}

/// The stage that follows `stage` when its field is confirmed.
pub fn stage_after(mode: EntryMode, stage: Stage) -> (next: Stage)
    ensures
        next == advanced(mode, stage),
{
    match mode {
        EntryMode::Add => {
            let mut next = stage;
            next.next();
            next
        },
        _ => Stage::Finished,
    }
}

/// The stage to which the wizard goes back from `stage`.
pub fn stage_before(mode: EntryMode, stage: Stage) -> (before: Stage)
    ensures
        before == retreated(mode, stage),
{
    match mode {
        EntryMode::Add => {
            let mut before = stage;
            before.back();
            before
        },
        EntryMode::Update => Stage::Staging,
        EntryMode::QuickAdd => stage,
    }
}

impl App {
    /// This state with the wizard at `stage`.
    pub open spec fn at_stage(self, stage: Stage) -> App {
        match self.entry_mode {
            EntryMode::Update => App { update_stage: stage, ..self },
            _ => App { add_stage: stage, ..self },
        }
    }

    /// This state with the cursor at `index` and nothing highlighted.
    pub open spec fn with_cursor(self, index: usize) -> App {
        App {
            text_info: TextInfo {
                character_index: index,
                is_text_highlighted: false,
                highlight_info: self.text_info.highlight_info,
            },
            ..self
        }
    }

    /// This state with nothing highlighted.
    pub open spec fn unhighlighted(self) -> App {
        self.with_cursor(self.text_info.character_index)
    }

    /// This state after the field of the stage was confirmed: the wizard is
    /// at the stage that follows, with the cursor at the start.
    pub open spec fn after_advance(self) -> App {
        self.at_stage(advanced(self.entry_mode, self.stage())).with_cursor(0)
    }

    /// This state with the cursor brought back to the end of the text that
    /// is edited where it lies behind it. At a stage without a text the
    /// cursor stays where it is.
    pub open spec fn settled(self) -> App {
        if self.stage().takes_text() && self.text_info.character_index
            > self.active_text().len() {
            App {
                text_info: TextInfo {
                    character_index: self.active_text().len() as usize,
                    ..self.text_info
                },
                ..self
            }
        } else {
            self
        }
    }

    /// This state after a step back: the wizard is at the stage before. The
    /// cursor stays where it is, but where it would lie behind the text of
    /// that stage it goes to the end of that text.
    pub open spec fn after_retreat(self) -> App {
        self.at_stage(retreated(self.entry_mode, self.stage())).settled()
    }

    /// This state after one of the choices of the stage was taken: the
    /// wizard is at the stage that follows. The cursor stays where it is,
    /// but where it would lie behind the text of that stage it goes to the
    /// end of that text.
    pub open spec fn after_choice(self) -> App {
        self.at_stage(advanced(self.entry_mode, self.stage())).settled()
    }

    /// This state after the wizard was left without a commit: its window is
    /// closed and what was entered is gone, `blank` standing in its place.
    pub open spec fn cancelled(self, blank: Inputs) -> App {
        App {
            add_popup: if self.entry_mode == EntryMode::Update {
                self.add_popup
            } else {
                false
            },
            update_popup: if self.entry_mode == EntryMode::Update {
                false
            } else {
                self.update_popup
            },
            inputs: blank,
            text_info: TextInfo {
                character_index: 0,
                is_text_highlighted: false,
                highlight_info: crate::display::text::HighLightInfo { start: 0, distance: 0 },
            },
            highlight_tags: false,
            tags_highlight_value: 0,
            message: None,
            ..self
        }
    }

    /// `after` is this state with the wizard left without a commit.
    pub open spec fn cancels_to(self, after: App) -> bool {
        after.inputs.is_blank() && after == self.cancelled(after.inputs)
    }

    /// `after` is this state with `ch` typed into the field that is edited.
    /// Where no text is edited, only the highlight goes.
    pub open spec fn types_to(self, ch: char, after: App) -> bool {
        if self.stage().takes_text() {
            after.same_but_text(&self) && after.editor() == self.editor().insert_char(ch)
        } else {
            after == self.unhighlighted()
        }
    }

    /// `after` is this state with the character before the cursor, or the
    /// highlighted range, removed from the field that is edited.
    pub open spec fn erases_to(self, after: App) -> bool {
        if self.stage().takes_text() {
            after.same_but_text(&self) && after.editor() == self.editor().delete_backward()
        } else {
            after == self.unhighlighted()
        }
    }

    /// What a key does at a stage at which text is typed.
    ///
    /// With Control: Left goes a stage back, and `a` highlights the whole
    /// text. With Shift: Left and Right extend the highlighted range, and a
    /// character is typed. Otherwise: Escape leaves the wizard, Enter
    /// confirms the field, Left and Right move the cursor, Backspace erases,
    /// and a character is typed. Whatever else the key does, nothing is
    /// highlighted afterwards, unless the key itself highlights.
    pub open spec fn text_key_outcome(self, key: KeyEvent, after: App) -> bool {
        match key.modifiers {
            KeyModifiers::Control => match key.code {
                KeyCode::Left => after == self.after_retreat().unhighlighted(),
                KeyCode::Char(ch) => if ch == 'a' {
                    after.same_but_text(&self) && after.active_text() == self.active_text()
                        && after.editor() == self.editor().select_all()
                } else {
                    after == self.unhighlighted()
                },
                _ => after == self.unhighlighted(),
            },
            KeyModifiers::Shift => match key.code {
                KeyCode::Right => after.same_but_text(&self) && after.active_text()
                    == self.active_text() && after.editor() == self.editor().extend_selection(
                    HighlightDirection::Right,
                ),
                KeyCode::Left => after.same_but_text(&self) && after.active_text()
                    == self.active_text() && after.editor() == self.editor().extend_selection(
                    HighlightDirection::Left,
                ),
                KeyCode::Char(ch) => self.types_to(ch, after),
                _ => after == self.unhighlighted(),
            },
            _ => match key.code {
                KeyCode::Esc => self.cancels_to(after),
                KeyCode::Enter => after == self.after_advance(),
                KeyCode::Right => after.same_but_text(&self) && after.active_text()
                    == self.active_text() && after.editor() == self.editor().move_right(),
                KeyCode::Left => after.same_but_text(&self) && after.active_text()
                    == self.active_text() && after.editor() == self.editor().move_left(),
                KeyCode::Backspace => self.erases_to(after),
                KeyCode::Char(ch) => self.types_to(ch, after),
                _ => after == self.unhighlighted(),
            },
        }
    }

    /// What a key does at the stage of the urgency: Escape leaves the wizard,
    /// Left goes a stage back, and one of the keys 1 to 4 sets the urgency
    /// and goes on to the stage that follows. No other key does anything.
    pub open spec fn urgency_key_outcome(self, key: KeyEvent, after: App) -> bool {
        match key.code {
            KeyCode::Esc => self.cancels_to(after),
            KeyCode::Left => after == self.after_retreat(),
            KeyCode::Char(ch) => match urgency_for(ch) {
                Some(urgency) => after == (App {
                    inputs: Inputs { urgency, ..self.inputs },
                    ..self
                }).after_choice(),
                None => after == self,
            },
            _ => after == self,
        }
    }

    /// What a key does at the stage of the status: Escape leaves the wizard,
    /// Left goes a stage back, and one of the keys 1 to 4 sets the status
    /// and goes on to the stage that follows. No other key does anything.
    pub open spec fn status_key_outcome(self, key: KeyEvent, after: App) -> bool {
        match key.code {
            KeyCode::Esc => self.cancels_to(after),
            KeyCode::Left => after == self.after_retreat(),
            KeyCode::Char(ch) => match status_for(ch) {
                Some(status) => after == (App {
                    inputs: Inputs { status, ..self.inputs },
                    ..self
                }).after_choice(),
                None => after == self,
            },
            _ => after == self,
        }
    }

    /// The text that is entered for the field of `stage`; the empty text for
    /// a stage without a text.
    pub open spec fn entered_text(self, stage: Stage) -> Seq<char> {
        match stage {
            Stage::Name => self.inputs.name@,
            Stage::Description => self.inputs.description@,
            Stage::Latest => self.inputs.latest@,
            Stage::Tags => self.inputs.tags_input@,
            _ => Seq::empty(),
        }
    }

    /// The text that the selected task holds for the field of `stage`, if a
    /// task is selected. A text that the task lacks is the empty text.
    pub open spec fn stored_text(self, stage: Stage) -> Option<Seq<char>> {
        match self.selected_task() {
            Some(task) => Some(
                match stage {
                    Stage::Name => task@.name,
                    Stage::Description => text_or_empty(task@.description),
                    Stage::Latest => text_or_empty(task@.latest),
                    _ => Seq::empty(),
                },
            ),
            None => None,
        }
    }

    /// Where the cursor goes when the field of `stage` is picked from the
    /// menu of a change: behind as many characters as the selected task
    /// holds for that field, but no further than the end of the text that is
    /// entered for it. That is the end of the text while the field is as the
    /// task holds it. Without a selected task the cursor goes to the end of
    /// the text that is entered.
    pub open spec fn picked_cursor(self, stage: Stage) -> nat {
        let entered = self.entered_text(stage).len();
        match self.stored_text(stage) {
            Some(stored) => if stored.len() < entered {
                stored.len()
            } else {
                entered
            },
            None => entered,
        }
    }

    /// This state with the field of `stage` picked from the menu of a change:
    /// the change is at that stage, and the cursor where `picked_cursor`
    /// says.
    pub open spec fn with_field_picked(self, stage: Stage) -> App {
        (App { update_stage: stage, ..self }).with_cursor(self.picked_cursor(stage) as usize)
    }

    /// What a key does at the menu of a change: Escape leaves the wizard, and
    /// one of the keys 1 to 6 picks the field to change: the name, the
    /// status, the urgency, the description, the latest update or the tags.
    /// With a text the cursor goes where `picked_cursor` says; with the
    /// tags, to the start of the tag that is typed. No other key does
    /// anything.
    pub open spec fn staging_key_outcome(self, key: KeyEvent, after: App) -> bool {
        match key.code {
            KeyCode::Esc => self.cancels_to(after),
            KeyCode::Char(ch) => if ch == '1' {
                self.inputs.name@.len() <= usize::MAX && after == self.with_field_picked(
                    Stage::Name,
                )
            } else if ch == '2' {
                after == (App { update_stage: Stage::Status, ..self })
            } else if ch == '3' {
                after == (App { update_stage: Stage::Urgency, ..self })
            } else if ch == '4' {
                self.inputs.description@.len() <= usize::MAX && after == self.with_field_picked(
                    Stage::Description,
                )
            } else if ch == '5' {
                self.inputs.latest@.len() <= usize::MAX && after == self.with_field_picked(
                    Stage::Latest,
                )
            } else if ch == '6' {
                after == (App { update_stage: Stage::Tags, ..self }).with_cursor(0)
            } else {
                after == self
            },
            _ => after == self,
        }
    }

    /// `after` is this state with the tag that is typed put into the tag set
    /// and the field for it emptied, the cursor at its start.
    pub open spec fn commits_tag_to(self, after: App) -> bool {
        &&& after.inputs.tags@ == insert_sorted(self.inputs.tags@, self.inputs.tags_input@)
        &&& after.inputs.tags_input@.len() == 0
        &&& after == (App {
            inputs: Inputs {
                tags: after.inputs.tags,
                tags_input: after.inputs.tags_input,
                ..self.inputs
            },
            ..self
        }).with_cursor(0)
    }

    /// `after` is this state with the picked tag removed, the pick moved one
    /// tag to the left if there is one, and picking ended if no tag is left.
    pub open spec fn removes_tag_to(self, after: App) -> bool {
        let at = self.tags_highlight_value;
        &&& after.inputs.tags@ == if at < self.inputs.tags@.len() {
            self.inputs.tags@.remove(at as int)
        } else {
            self.inputs.tags@
        }
        &&& after == (App {
            inputs: Inputs { tags: after.inputs.tags, ..self.inputs },
            tags_highlight_value: if at > 0 {
                (at - 1) as usize
            } else {
                0
            },
            highlight_tags: self.highlight_tags && after.inputs.tags@.len() > 0,
            ..self
        })
    }

    /// What a key does at the stage of the tags.
    ///
    /// Escape leaves the wizard. Enter confirms the stage if no tag is typed,
    /// and else makes the typed text a tag. While a tag is picked, Left and
    /// Right move the pick within the tags, Up ends picking and `d` removes
    /// the picked tag. While none is picked, the keys edit the typed text,
    /// and Down starts picking if there is a tag. Control with Left goes a
    /// stage back either way.
    pub open spec fn tags_key_outcome(self, key: KeyEvent, after: App) -> bool {
        match key.code {
            KeyCode::Esc => self.cancels_to(after),
            KeyCode::Enter => if self.inputs.tags_input@.len() == 0 {
                after == self.after_advance()
            } else {
                self.commits_tag_to(after)
            },
            KeyCode::Left => if key.modifiers == KeyModifiers::Control {
                after == self.after_retreat()
            } else if self.highlight_tags {
                after == (App {
                    tags_highlight_value: if self.tags_highlight_value > 0 {
                        (self.tags_highlight_value - 1) as usize
                    } else {
                        0
                    },
                    ..self
                })
            } else {
                after.same_but_text(&self) && after.active_text() == self.active_text()
                    && after.editor() == self.editor().move_left()
            },
            KeyCode::Right => if self.highlight_tags {
                after == (App {
                    tags_highlight_value: if self.tags_highlight_value + 1
                        < self.inputs.tags@.len() {
                        (self.tags_highlight_value + 1) as usize
                    } else {
                        self.tags_highlight_value
                    },
                    ..self
                })
            } else {
                after.same_but_text(&self) && after.active_text() == self.active_text()
                    && after.editor() == self.editor().move_right()
            },
            KeyCode::Up => if self.highlight_tags {
                after == (App { highlight_tags: false, ..self })
            } else {
                after == self
            },
            KeyCode::Down => if !self.highlight_tags && self.inputs.tags@.len() > 0 {
                after == (App { highlight_tags: true, ..self })
            } else {
                after == self
            },
            KeyCode::Char(ch) => if self.highlight_tags {
                if ch == 'd' {
                    self.removes_tag_to(after)
                } else {
                    after == self
                }
            } else if self.stage().takes_text() {
                after.same_but_text(&self) && after.editor() == self.editor().insert_char(ch)
            } else {
                after == self
            },
            KeyCode::Backspace => if self.highlight_tags {
                after == self
            } else if self.stage().takes_text() {
                after.same_but_text(&self) && after.editor() == self.editor().delete_backward()
            } else {
                after == self
            },
            _ => after == self,
        }
    }

    /// Puts the cursor at `index` and ends highlighting.
    pub fn place_cursor(&mut self, index: usize)
        ensures
            *final(self) == old(self).with_cursor(index),
    {
        self.text_info.character_index = index;
        self.text_info.is_text_highlighted = false;
    }

    /// Confirms the field of the stage: the wizard goes to the stage that
    /// follows, with the cursor at the start.
    pub fn advance(&mut self)
        ensures
            *final(self) == old(self).after_advance(),
    {
        let stage = stage_after(self.entry_mode, *self.get_stage_off_entry_mode());
        self.set_stage(stage);
        self.place_cursor(0);
    }

    /// Brings the cursor back to the end of the text that is edited where
    /// it lies behind it.
    pub fn settle(&mut self)
        ensures
            *final(self) == old(self).settled(),
    {
        if self.at_text_stage() {
            let len = self.get_text_length();
            if self.text_info.character_index > len {
                self.text_info.character_index = len;
            }
        }
    }

    /// Goes a stage back: to the stage before for a new task, to the menu
    /// for a change. The cursor stays where it is if the text of that stage
    /// reaches so far, and goes to its end if not.
    pub fn retreat(&mut self)
        ensures
            *final(self) == old(self).after_retreat(),
    {
        let stage = stage_before(self.entry_mode, *self.get_stage_off_entry_mode());
        self.set_stage(stage);
        self.settle();
    }

    /// Goes on to the stage that follows once a choice was taken. The cursor
    /// stays where it is if the text of that stage reaches so far, and goes
    /// to its end if not.
    pub fn take_choice(&mut self)
        ensures
            *final(self) == old(self).after_choice(),
    {
        let stage = stage_after(self.entry_mode, *self.get_stage_off_entry_mode());
        self.set_stage(stage);
        self.settle();
    }

    /// Puts a change at the stage of the field that was picked.
    fn pick_field(&mut self, stage: Stage)
        ensures
            *final(self) == (App { update_stage: stage, ..*old(self) }),
    {
        self.update_stage = stage;
    }

    /// Leaves the wizard without a commit: its window closes and what was
    /// entered is thrown away.
    pub fn cancel(&mut self)
        ensures
            old(self).cancels_to(*final(self)),
    {
        match self.entry_mode {
            EntryMode::Update => self.update_popup = false,
            _ => self.add_popup = false,
        }
        self.inputs = Inputs::default();
        self.text_info = TextInfo::new();
        self.highlight_tags = false;
        self.tags_highlight_value = 0;
        self.message = None;
    }

    /// How many characters the selected task holds for the field of
    /// `stage`, if a task is selected.
    fn stored_length(&self, stage: Stage) -> (len: Option<usize>)
        ensures
            match self.stored_text(stage) {
                Some(stored) => len == Some(stored.len() as usize) && stored.len() <= usize::MAX,
                None => len is None,
            },
    {
        match self.tasklist.selected_task() {
            None => None,
            Some(task) => Some(
                match stage {
                    Stage::Name => char_count(task.name.as_str()),
                    Stage::Description => match &task.description {
                        Some(text) => char_count(text.as_str()),
                        None => 0,
                    },
                    Stage::Latest => match &task.latest {
                        Some(text) => char_count(text.as_str()),
                        None => 0,
                    },
                    _ => 0,
                },
            ),
        }
    }

    /// How many characters are entered for the field of `stage`.
    fn entered_length(&self, stage: Stage) -> (len: usize)
        ensures
            len == self.entered_text(stage).len(),
    {
        match stage {
            Stage::Name => char_count(self.inputs.name.as_str()),
            Stage::Description => char_count(self.inputs.description.as_str()),
            Stage::Latest => char_count(self.inputs.latest.as_str()),
            Stage::Tags => char_count(self.inputs.tags_input.as_str()),
            _ => 0,
        }
    }

    /// Picks the field of `stage` from the menu of a change: the change goes
    /// to that stage, and the cursor behind as many characters as the
    /// selected task holds for the field, but no further than the end of
    /// the text that is entered.
    pub fn pick_text_field(&mut self, stage: Stage)
        ensures
            old(self).entered_text(stage).len() <= usize::MAX,
            *final(self) == old(self).with_field_picked(stage),
    {
        let entered = self.entered_length(stage);
        let at = match self.stored_length(stage) {
            Some(stored) => if stored < entered {
                stored
            } else {
                entered
            },
            None => entered,
        };
        self.pick_field(stage);
        self.place_cursor(at);
    }

    /// Handles a key at the menu from which a change picks its field.
    pub fn handle_update_staging(&mut self, key: KeyEvent)
        ensures
            old(self).staging_key_outcome(key, *final(self)),
    {
        match key.code {
            KeyCode::Esc => self.cancel(),
            KeyCode::Char(ch) => {
                if ch == '1' {
                    self.pick_text_field(Stage::Name);
                } else if ch == '2' {
                    self.pick_field(Stage::Status);
                } else if ch == '3' {
                    self.pick_field(Stage::Urgency);
                } else if ch == '4' {
                    self.pick_text_field(Stage::Description);
                } else if ch == '5' {
                    self.pick_text_field(Stage::Latest);
                } else if ch == '6' {
                    self.pick_field(Stage::Tags);
                    self.place_cursor(0);
                }
            },
            _ => {},
        }
    }

    /// Handles a key at a stage at which text is typed.
    pub fn handle_keys_for_text_inputs(&mut self, key: KeyEvent)
        ensures
            old(self).text_key_outcome(key, *final(self)),
    {
        match key.modifiers {
            KeyModifiers::Control => match key.code {
                KeyCode::Left => {
                    self.retreat();
                },
                KeyCode::Char(ch) => {
                    if ch == 'a' {
                        self.highlight_all();
                        return ;
                    }
                },
                _ => {},
            },
            KeyModifiers::Shift => match key.code {
                KeyCode::Right => {
                    self.highlight_single_char(HighlightDirection::Right);
                    return ;
                },
                KeyCode::Left => {
                    self.highlight_single_char(HighlightDirection::Left);
                    return ;
                },
                KeyCode::Char(ch) => {
                    self.enter_char(ch);
                },
                _ => {},
            },
            _ => match key.code {
                KeyCode::Esc => {
                    self.cancel();
                    return ;
                },
                KeyCode::Enter => {
                    self.advance();
                    return ;
                },
                KeyCode::Right => {
                    self.move_cursor_right();
                    return ;
                },
                KeyCode::Left => {
                    self.move_cursor_left();
                    return ;
                },
                KeyCode::Backspace => {
                    self.delete_char();
                },
                KeyCode::Char(ch) => {
                    self.enter_char(ch);
                },
                _ => {},
            },
        }
        self.text_info.is_text_highlighted = false;
    }

    /// Makes the text that is typed at the stage of the tags a tag: it goes
    /// into the set, which holds it once however often it is put in, and the
    /// field for it is emptied.
    pub fn commit_typed(&mut self)
        ensures
            old(self).commits_tag_to(*final(self)),
            final(self).inputs.tags@.to_set() == old(self).inputs.tags@.to_set().insert(
                old(self).inputs.tags_input@,
            ),
    {
        let mut typed = String::new();
        core::mem::swap(&mut self.inputs.tags_input, &mut typed);
        self.inputs.tags.insert(typed);
        self.text_info.character_index = 0;
        self.text_info.is_text_highlighted = false;
    }

    /// Moves the pick one tag to the left, if there is one.
    pub fn move_tags_highlight_left(&mut self)
        ensures
            *final(self) == (App {
                tags_highlight_value: if old(self).tags_highlight_value > 0 {
                    (old(self).tags_highlight_value - 1) as usize
                } else {
                    0
                },
                ..*old(self)
            }),
    {
        if self.tags_highlight_value > 0 {
            self.tags_highlight_value -= 1;
        }
    }

    /// Moves the pick one tag to the right, if there is one.
    pub fn move_tags_highlight_right(&mut self)
        ensures
            *final(self) == (App {
                tags_highlight_value: if old(self).tags_highlight_value + 1 < old(self).inputs.tags@.len() {
                    (old(self).tags_highlight_value + 1) as usize
                } else {
                    old(self).tags_highlight_value
                },
                ..*old(self)
            }),
    {
        let len = self.inputs.tags.len();
        if self.tags_highlight_value < len && self.tags_highlight_value + 1 < len {
            self.tags_highlight_value += 1;
        }
    }

    /// Removes the picked tag from the set, moves the pick one tag to the
    /// left if there is one, and ends picking if no tag is left.
    pub fn remove_tag(&mut self)
        ensures
            old(self).removes_tag_to(*final(self)),
    {
        self.inputs.tags.remove_at(self.tags_highlight_value);
        self.move_tags_highlight_left();
        if self.inputs.tags.is_empty() {
            self.highlight_tags = false;
        }
    }

    /// Handles a key at the stage of the tags.
    pub fn handle_keys_for_tags(&mut self, key: KeyEvent)
        ensures
            old(self).tags_key_outcome(key, *final(self)),
    {
        match key.code {
            KeyCode::Esc => self.cancel(),
            KeyCode::Enter => {
                if char_count(self.inputs.tags_input.as_str()) == 0 {
                    self.advance();
                } else {
                    self.commit_typed();
                }
            },
            KeyCode::Left => {
                if key.modifiers == KeyModifiers::Control {
                    self.retreat();
                } else if self.highlight_tags {
                    self.move_tags_highlight_left();
                } else {
                    self.move_cursor_left();
                }
            },
            KeyCode::Right => {
                if self.highlight_tags {
                    self.move_tags_highlight_right();
                } else {
                    self.move_cursor_right();
                }
            },
            KeyCode::Up => {
                if self.highlight_tags {
                    self.highlight_tags = false;
                }
            },
            KeyCode::Down => {
                if !self.highlight_tags && !self.inputs.tags.is_empty() {
                    self.highlight_tags = true;
                }
            },
            KeyCode::Char(ch) => {
                if self.highlight_tags {
                    if ch == 'd' {
                        self.remove_tag();
                    }
                } else {
                    self.enter_char(ch);
                }
            },
            KeyCode::Backspace => {
                if !self.highlight_tags {
                    self.delete_char();
                }
            },
            _ => {},
        }
    }

    /// Handles a key at the stage of the urgency.
    pub fn handle_keys_for_urgency(&mut self, key: KeyEvent)
        ensures
            old(self).urgency_key_outcome(key, *final(self)),
    {
        match key.code {
            KeyCode::Esc => self.cancel(),
            KeyCode::Left => self.retreat(),
            KeyCode::Char(ch) => {
                if ch == '1' {
                    self.inputs.urgency = Urgency::Low;
                } else if ch == '2' {
                    self.inputs.urgency = Urgency::Medium;
                } else if ch == '3' {
                    self.inputs.urgency = Urgency::High;
                } else if ch == '4' {
                    self.inputs.urgency = Urgency::Critical;
                } else {
                    return ;
                }
                self.take_choice();
            },
            _ => {},
        }
    }

    /// Handles a key at the stage of the status.
    pub fn handle_keys_for_status(&mut self, key: KeyEvent)
        ensures
            old(self).status_key_outcome(key, *final(self)),
    {
        match key.code {
            KeyCode::Esc => self.cancel(),
            KeyCode::Left => self.retreat(),
            KeyCode::Char(ch) => {
                if ch == '1' {
                    self.inputs.status = Status::Open;
                } else if ch == '2' {
                    self.inputs.status = Status::Working;
                } else if ch == '3' {
                    self.inputs.status = Status::Paused;
                } else if ch == '4' {
                    self.inputs.status = Status::Completed;
                } else {
                    return ;
                }
                self.take_choice();
            },
            _ => {},
        }
    }

    /// The description that was entered, as a field of a task.
    fn entered_description(&self) -> (text: Option<String>)
        ensures
            crate::backend::task::text_of(text) == filled(self.inputs.description@),
    {
        if char_count(self.inputs.description.as_str()) == 0 {
            None
        } else {
            Some(self.inputs.description.clone())
        }
    }

    /// The latest update that was entered, as a field of a task.
    fn entered_latest(&self) -> (text: Option<String>)
        ensures
            crate::backend::task::text_of(text) == filled(self.inputs.latest@),
    {
        if char_count(self.inputs.latest.as_str()) == 0 {
            None
        } else {
            Some(self.inputs.latest.clone())
        }
    }

    /// The tags that were entered, as a field of a task.
    fn entered_tags(&self) -> (tags: Option<TagSet>)
        ensures
            crate::backend::task::tags_of(tags) == filled_tags(self.inputs.tags@),
    {
        if self.inputs.tags.is_empty() {
            None
        } else {
            Some(self.inputs.tags.clone())
        }
    }

    /// Puts the wizard at the stage of the name, with the cursor at the
    /// start: a task without a name is not committed.
    pub fn ask_for_name(&mut self)
        ensures
            *final(self) == old(self).at_stage(Stage::Name).with_cursor(0),
    {
        self.set_stage(Stage::Name);
        self.place_cursor(0);
    }

    /// Keeps `id` as the identifier of the task that is to be selected once
    /// the store has answered.
    fn await_task(&mut self, id: u128)
        ensures
            *final(self) == (App { pending: Reselect::Id(id), ..*old(self) }),
    {
        self.pending = Reselect::Id(id);
    }

    /// What committing a new task does. Without a name no task is made: the
    /// wizard goes to the stage of the name and stays open, and what was
    /// entered stays. With a name the task that was entered is made, with an
    /// identifier made at random and the time of its making as its time of
    /// creation, and as its time of completion if it is entered as
    /// completed; the session keeps its identifier, to select the task once
    /// the store has answered, and is unchanged otherwise.
    pub open spec fn creates_to(self, after: App, task: Option<Task>) -> bool {
        if self.inputs.name@.len() == 0 {
            task is None && after == self.at_stage(Stage::Name).with_cursor(0)
        } else {
            &&& task matches Some(made)
            &&& entered(self.inputs, made@)
            &&& made@.id & ID_KIND_MASK == ID_KIND_RANDOM
            &&& made@.completed_on == if self.inputs.status == Status::Completed {
                Some(made@.date_added)
            } else {
                None
            }
            &&& after == (App { pending: Reselect::Id(made@.id), ..self })
        }
    }

    /// The selected task as the inputs change it at the instant `now`, if a
    /// task is selected: it keeps its identifier and its time of creation,
    /// its other fields are those that were entered, a text or a tag set
    /// that was left empty is missing, and it is completed at `now` if it is
    /// entered as completed, and has no time of completion otherwise.
    pub open spec fn changed_at(self, now: Timestamp) -> Option<TaskModel> {
        match self.selected_task() {
            Some(current) => Some(
                TaskModel {
                    id: current@.id,
                    name: self.inputs.name@,
                    description: filled(self.inputs.description@),
                    latest: filled(self.inputs.latest@),
                    urgency: self.inputs.urgency,
                    status: self.inputs.status,
                    tags: filled_tags(self.inputs.tags@),
                    date_added: current@.date_added,
                    completed_on: if self.inputs.status == Status::Completed {
                        Some(now)
                    } else {
                        None
                    },
                },
            ),
            None => None,
        }
    }

    /// What committing a change does. Without a name no task is made: the
    /// wizard goes to the stage of the name and stays open, and what was
    /// entered stays. With a name the selected task is made anew from what
    /// was entered, as `changed_at` says for the instant at which it is
    /// made; the session keeps its identifier, to select the task once the
    /// store has answered. Where no task is selected there is nothing to
    /// change, and the wizard is left.
    pub open spec fn updates_to(self, after: App, task: Option<Task>) -> bool {
        if self.inputs.name@.len() == 0 {
            task is None && after == self.at_stage(Stage::Name).with_cursor(0)
        } else {
            match self.selected_task() {
                Some(current) => {
                    &&& task matches Some(made)
                    &&& exists|now: Timestamp| #[trigger] self.changed_at(now) == Some(made@)
                    &&& after == (App { pending: Reselect::Id(current@.id), ..self })
                },
                None => task is None && self.cancels_to(after),
            }
        }
    }

    /// Makes the new task that the inputs describe, to be added to the
    /// store. It gets a fresh identifier and the current time as its time of
    /// creation; a text or a tag set that was left empty is missing in the
    /// task. Without a name no task is made, and the wizard asks for the
    /// name.
    pub fn add_new_task_in(&mut self) -> (task: Option<Task>)
        ensures
            old(self).creates_to(*final(self), task),
    {
        if char_count(self.inputs.name.as_str()) == 0 {
            self.ask_for_name();
            return None;
        }
        let task = Task::new(
            self.inputs.name.clone(),
            self.entered_description(),
            self.entered_latest(),
            Some(self.inputs.urgency),
            Some(self.inputs.status),
            self.entered_tags(),
        );
        self.await_task(task.get_id());
        Some(task)
    }

    /// Makes the selected task as the inputs change it at the instant `now`;
    /// nothing where no task is selected. The session does not change.
    pub fn changed_task_at(&self, now: Timestamp) -> (task: Option<Task>)
        ensures
            match self.changed_at(now) {
                Some(model) => task matches Some(made) && made@ == model,
                None => task is None,
            },
    {
        match self.tasklist.selected_task() {
            None => None,
            Some(current) => {
                let mut task = Task::from_sql(
                    current.get_id(),
                    self.inputs.name.clone(),
                    self.entered_description(),
                    self.entered_latest(),
                    self.inputs.urgency,
                    current.status,
                    self.entered_tags(),
                    current.get_date_added(),
                    None,
                );
                task.set_status_at(self.inputs.status, now);
                Some(task)
            },
        }
    }

    /// Makes the selected task as the inputs change it, to be written to the
    /// store: it keeps its identifier and its time of creation, and is
    /// completed now if its new status is Completed. Without a name no task
    /// is made, and the wizard asks for the name. Where no task is selected
    /// nothing is made either, and the wizard is left.
    pub fn update_selected_task(&mut self) -> (task: Option<Task>)
        ensures
            old(self).updates_to(*final(self), task),
    {
        if char_count(self.inputs.name.as_str()) == 0 {
            self.ask_for_name();
            return None;
        }
        let now = Timestamp::now();
        match self.changed_task_at(now) {
            Some(task) => {
                assert(self.changed_at(now) == Some(task@));
                self.await_task(task.get_id());
                Some(task)
            },
            None => {
                self.cancel();
                None
            },
        }
    }
}

} // verus!
