//! What holds of the wizard whatever keys it is given.

use crate::backend::tags::lemma_insert_sorted_len;
use crate::backend::task::{in_order, lemma_sorted_by_urgency, Task};
use crate::display::add::{EntryMode, Stage};
use crate::display::keys::{KeyCode, KeyEvent, KeyModifiers};
use crate::display::text::{
    lemma_edit_keeps_cursor_in_bounds, lemma_select_all_then_insert, EditOp, HighlightDirection,
};
use crate::display::tui::{Action, App};
use vstd::prelude::*;

verus! {

impl App {
    /// A tag is picked only while there is a tag, and the pick points at one
    /// of the tags or, where there is none, at the start.
    pub open spec fn pick_in_bounds(self) -> bool {
        &&& self.highlight_tags ==> self.inputs.tags@.len() > 0
        &&& self.tags_highlight_value == 0 || self.tags_highlight_value < self.inputs.tags@.len()
    }

    /// The menu from which a change picks its field is shown for a change
    /// only.
    pub open spec fn menu_for_change_only(self) -> bool {
        self.stage() == Stage::Staging ==> self.entry_mode == EntryMode::Update
    }
}

/// Whatever key the stage of the tags is given, a tag stays picked only while
/// there is a tag, and the pick stays within the tags: picking begins only
/// if there is a tag, the pick moves within the tags, and picking ends when
/// the last tag is removed.
pub proof fn lemma_tag_pick_stays_in_bounds(before: App, key: KeyEvent, after: App)
    requires
        before.pick_in_bounds(),
        before.tags_key_outcome(key, after),
    ensures
        after.pick_in_bounds(),
{
    lemma_insert_sorted_len(before.inputs.tags@, before.inputs.tags_input@);
}

/// What an editing operation does to the field that is edited keeps the
/// cursor within its text.
proof fn lemma_edit_in_bounds(before: App, op: EditOp, after: App)
    requires
        after.same_but_text(&before),
        after.editor() == before.editor().apply(op),
    ensures
        after.cursor_in_bounds(),
{
    lemma_edit_keeps_cursor_in_bounds(before.editor(), op);
}

/// Highlighting the whole of the field that is edited and then typing a
/// character leaves that character as the whole text of the field, with the
/// cursor behind it and nothing highlighted, whatever the text was: this is
/// what `highlight_all` followed by `enter_char` does at a stage with a
/// text.
pub proof fn lemma_highlight_all_then_type(before: App, highlighted: App, after: App, c: char)
    requires
        before.stage().takes_text(),
        highlighted.same_but_text(&before),
        highlighted.editor() == before.editor().select_all(),
        after.same_but_text(&highlighted),
        after.editor() == highlighted.editor().insert_char(c),
    ensures
        after.active_text() == seq![c],
        after.text_info.character_index == 1,
        !after.text_info.is_text_highlighted,
{
    lemma_select_all_then_insert(before.editor(), c);
}

/// Whatever key a stage with a text is given, the cursor lies within the
/// text afterwards, if it did before.
pub proof fn lemma_text_key_keeps_cursor_in_bounds(before: App, key: KeyEvent, after: App)
    requires
        before.cursor_in_bounds(),
        before.text_key_outcome(key, after),
    ensures
        after.cursor_in_bounds(),
{
    let moves = after.same_but_text(&before) && after.active_text() == before.active_text();
    match key.modifiers {
        KeyModifiers::Control => match key.code {
            KeyCode::Char(ch) => {
                if ch == 'a' {
                    assert(after.text_info.character_index == 0);
                }
            },
            _ => {},
        },
        KeyModifiers::Shift => match key.code {
            KeyCode::Right => {
                assert(after.editor() == before.editor().apply(
                    EditOp::ExtendSelection(HighlightDirection::Right),
                ));
            },
            KeyCode::Left => {
                assert(after.editor() == before.editor().apply(
                    EditOp::ExtendSelection(HighlightDirection::Left),
                ));
            },
            KeyCode::Char(ch) => {
                if before.stage().takes_text() {
                    lemma_edit_in_bounds(before, EditOp::InsertChar(ch), after);
                }
            },
            _ => {},
        },
        _ => match key.code {
            KeyCode::Right => {
                assert(after.editor() == before.editor().apply(EditOp::MoveRight));
            },
            KeyCode::Left => {
                assert(after.editor() == before.editor().apply(EditOp::MoveLeft));
            },
            KeyCode::Backspace => {
                if before.stage().takes_text() {
                    assert(after.editor() == before.editor().apply(EditOp::DeleteBackward));
                }
            },
            KeyCode::Char(ch) => {
                if before.stage().takes_text() {
                    lemma_edit_in_bounds(before, EditOp::InsertChar(ch), after);
                }
            },
            _ => {},
        },
    }
}

/// Whatever key the stage of the tags is given, the cursor lies within the
/// text that is typed afterwards, if it did before.
pub proof fn lemma_tags_key_keeps_cursor_in_bounds(before: App, key: KeyEvent, after: App)
    requires
        before.cursor_in_bounds(),
        before.tags_key_outcome(key, after),
    ensures
        after.cursor_in_bounds(),
{
    match key.code {
        KeyCode::Char(ch) => {
            if !before.highlight_tags && before.stage().takes_text() {
                lemma_edit_in_bounds(before, EditOp::InsertChar(ch), after);
            }
        },
        KeyCode::Backspace => {
            if !before.highlight_tags && before.stage().takes_text() {
                assert(after.editor() == before.editor().apply(EditOp::DeleteBackward));
            }
        },
        KeyCode::Left => {
            if key.modifiers != KeyModifiers::Control && !before.highlight_tags {
                assert(after.editor() == before.editor().apply(EditOp::MoveLeft));
            }
        },
        KeyCode::Right => {
            if !before.highlight_tags {
                assert(after.editor() == before.editor().apply(EditOp::MoveRight));
            }
        },
        _ => {},
    }
}

/// Whatever key the stage of the urgency or that of the status is given, the
/// cursor lies within the text of the stage that the wizard is at
/// afterwards, if it did before.
pub proof fn lemma_choice_key_keeps_cursor_in_bounds(before: App, key: KeyEvent, after: App)
    requires
        before.cursor_in_bounds(),
        before.urgency_key_outcome(key, after) || before.status_key_outcome(key, after),
    ensures
        after.cursor_in_bounds(),
{
}

/// Whatever key the menu of a change is given, the cursor lies within the
/// text of the field that was picked afterwards.
pub proof fn lemma_menu_key_keeps_cursor_in_bounds(before: App, key: KeyEvent, after: App)
    requires
        before.cursor_in_bounds(),
        before.entry_mode == EntryMode::Update,
        before.stage() == Stage::Staging,
        before.staging_key_outcome(key, after),
    ensures
        after.cursor_in_bounds(),
{
}

/// Whatever key a stage of the wizard is given, the cursor lies within the
/// text of the field that is edited afterwards, if it did before.
pub proof fn lemma_stage_key_keeps_cursor_in_bounds(before: App, key: KeyEvent, after: App)
    requires
        before.cursor_in_bounds(),
        before.menu_for_change_only(),
        before.stage_key_outcome(key, after),
    ensures
        after.cursor_in_bounds(),
{
    match before.stage() {
        Stage::Staging => lemma_menu_key_keeps_cursor_in_bounds(before, key, after),
        Stage::Name => lemma_text_key_keeps_cursor_in_bounds(before, key, after),
        Stage::Urgency => lemma_choice_key_keeps_cursor_in_bounds(before, key, after),
        Stage::Status => lemma_choice_key_keeps_cursor_in_bounds(before, key, after),
        Stage::Description => lemma_text_key_keeps_cursor_in_bounds(before, key, after),
        Stage::Latest => lemma_text_key_keeps_cursor_in_bounds(before, key, after),
        Stage::Tags => lemma_tags_key_keeps_cursor_in_bounds(before, key, after),
        Stage::Finished => {},
    }
}

/// Whatever key the open wizard is given, and whether or not the key commits
/// the task, the cursor lies within the text of the field that is edited
/// afterwards, if it did before.
pub proof fn lemma_wizard_key_keeps_cursor_in_bounds(
    before: App,
    key: KeyEvent,
    after: App,
    action: Action,
)
    requires
        before.cursor_in_bounds(),
        before.menu_for_change_only(),
        before.wizard_key_outcome(key, after, action),
    ensures
        after.cursor_in_bounds(),
{
    if before.stage() != Stage::Finished {
        let mid = choose|mid: App| #[trigger]
            before.stage_key_outcome(key, mid) && if mid.wizard_open() && mid.stage()
                == Stage::Finished {
                mid.commit_outcome(after, action)
            } else {
                after == mid && action is Nothing
            };
        lemma_stage_key_keeps_cursor_in_bounds(before, key, mid);
    }
}

/// The list shows exactly the tasks of the store that pass the filters, each
/// as often as the store holds it, and shows them in the order of the
/// settings: no task stands below one that it goes before.
pub proof fn lemma_visible_tasks(app: App, tasks: Seq<Task>)
    ensures
        in_order(app.visible(tasks), app.config.urgency_sort_desc),
        forall|t: Task|
            app.visible(tasks).contains(t) <==> tasks.contains(t) && t@.shown(
                Some(app.config.display_filter),
                app.tags_filter_value@,
            ),
        forall|t: Task|
            t@.shown(Some(app.config.display_filter), app.tags_filter_value@) ==> app.visible(
                tasks,
            ).to_multiset().count(t) == tasks.to_multiset().count(t),
        app.visible(tasks).len() <= tasks.len(),
{
    let keep = |t: Task| t@.shown(Some(app.config.display_filter), app.tags_filter_value@);
    let kept = tasks.filter(keep);
    let shown = app.visible(tasks);
    lemma_sorted_by_urgency(kept, app.config.urgency_sort_desc);
    tasks.lemma_filter_len(keep);
    lemma_filter_counts(tasks, keep);
    assert forall|t: Task| shown.contains(t) <==> tasks.contains(t) && keep(t) by {
        vstd::seq_lib::to_multiset_contains(shown, t);
        vstd::seq_lib::to_multiset_contains(kept, t);
        vstd::seq_lib::to_multiset_contains(tasks, t);
    }
}

/// What passes a filter is held as often after filtering as before, and what
/// does not pass is not held at all.
proof fn lemma_filter_counts(tasks: Seq<Task>, keep: spec_fn(Task) -> bool)
    ensures
        forall|t: Task|
            #[trigger] tasks.filter(keep).to_multiset().count(t) == if keep(t) {
                tasks.to_multiset().count(t)
            } else {
                0
            },
    decreases tasks.len(),
{
    broadcast use vstd::multiset::group_multiset_axioms;

    reveal(Seq::filter);
    if tasks.len() == 0 {
        assert forall|t: Task| #[trigger] tasks.filter(keep).to_multiset().count(t) == 0 by {
            vstd::seq_lib::to_multiset_contains(tasks.filter(keep), t);
        }
        assert forall|t: Task| #[trigger] tasks.to_multiset().count(t) == 0 by {
            vstd::seq_lib::to_multiset_contains(tasks, t);
        }
    } else {
        let front = tasks.drop_last();
        let last = tasks.last();
        lemma_filter_counts(front, keep);
        assert(front.push(last) =~= tasks);
        vstd::seq_lib::to_multiset_build(front, last);
        vstd::seq_lib::to_multiset_build(front.filter(keep), last);
        assert forall|t: Task|
            #[trigger] tasks.filter(keep).to_multiset().count(t) == if keep(t) {
                tasks.to_multiset().count(t)
            } else {
                0
            } by {
            assert(tasks.to_multiset().count(t) == front.to_multiset().insert(last).count(t));
            if keep(last) {
                assert(tasks.filter(keep) == front.filter(keep).push(last));
                assert(tasks.filter(keep).to_multiset().count(t) == front.filter(
                    keep,
                ).to_multiset().insert(last).count(t));
            } else {
                assert(tasks.filter(keep) == front.filter(keep));
            }
        }
    }
}

impl App {
    /// What holds of a session at all times: at a stage with a text the
    /// cursor lies within the text of the field that is edited, the pick
    /// lies within the tags, the selection lies within the list, and the
    /// menu of a change is shown for a change only.
    pub open spec fn sound(self) -> bool {
        &&& self.cursor_in_bounds()
        &&& self.pick_in_bounds()
        &&& self.menu_for_change_only()
        &&& self.tasklist.selection_valid()
    }
}

/// Whatever key a stage of the wizard is given, the session stays sound.
pub proof fn lemma_stage_key_keeps_sound(before: App, key: KeyEvent, after: App)
    requires
        before.sound(),
        before.stage_key_outcome(key, after),
    ensures
        after.sound(),
{
    lemma_stage_key_keeps_cursor_in_bounds(before, key, after);
    lemma_stage_key_keeps_the_rest(before, key, after);
}

/// Whatever key a stage with a text is given, the pick stays within the
/// tags, the selection within the list, and the menu of a change is shown
/// for a change only.
proof fn lemma_text_key_keeps_the_rest(before: App, key: KeyEvent, after: App)
    requires
        before.pick_in_bounds(),
        before.menu_for_change_only(),
        before.tasklist.selection_valid(),
        before.stage() != Stage::Staging,
        before.text_key_outcome(key, after),
    ensures
        after.pick_in_bounds(),
        after.menu_for_change_only(),
        after.tasklist.selection_valid(),
{
}

/// The same of the stage of the urgency and that of the status.
proof fn lemma_choice_key_keeps_the_rest(before: App, key: KeyEvent, after: App)
    requires
        before.pick_in_bounds(),
        before.menu_for_change_only(),
        before.tasklist.selection_valid(),
        before.stage() != Stage::Staging,
        before.urgency_key_outcome(key, after) || before.status_key_outcome(key, after),
    ensures
        after.pick_in_bounds(),
        after.menu_for_change_only(),
        after.tasklist.selection_valid(),
{
}

/// The same of the menu of a change.
proof fn lemma_menu_key_keeps_the_rest(before: App, key: KeyEvent, after: App)
    requires
        before.pick_in_bounds(),
        before.entry_mode == EntryMode::Update,
        before.tasklist.selection_valid(),
        before.staging_key_outcome(key, after),
    ensures
        after.pick_in_bounds(),
        after.menu_for_change_only(),
        after.tasklist.selection_valid(),
{
}

/// The same of the stage of the tags.
proof fn lemma_tags_key_keeps_the_rest(before: App, key: KeyEvent, after: App)
    requires
        before.pick_in_bounds(),
        before.menu_for_change_only(),
        before.tasklist.selection_valid(),
        before.stage() != Stage::Staging,
        before.tags_key_outcome(key, after),
    ensures
        after.pick_in_bounds(),
        after.menu_for_change_only(),
        after.tasklist.selection_valid(),
{
    lemma_tag_pick_stays_in_bounds(before, key, after);
}

/// Whatever key a stage of the wizard is given, the pick stays within the
/// tags, the selection within the list, and the menu of a change is shown
/// for a change only.
proof fn lemma_stage_key_keeps_the_rest(before: App, key: KeyEvent, after: App)
    requires
        before.pick_in_bounds(),
        before.menu_for_change_only(),
        before.tasklist.selection_valid(),
        before.stage_key_outcome(key, after),
    ensures
        after.pick_in_bounds(),
        after.menu_for_change_only(),
        after.tasklist.selection_valid(),
{
    match before.stage() {
        Stage::Staging => lemma_menu_key_keeps_the_rest(before, key, after),
        Stage::Name => lemma_text_key_keeps_the_rest(before, key, after),
        Stage::Urgency => lemma_choice_key_keeps_the_rest(before, key, after),
        Stage::Status => lemma_choice_key_keeps_the_rest(before, key, after),
        Stage::Description => lemma_text_key_keeps_the_rest(before, key, after),
        Stage::Latest => lemma_text_key_keeps_the_rest(before, key, after),
        Stage::Tags => lemma_tags_key_keeps_the_rest(before, key, after),
        Stage::Finished => {},
    }
}

/// Whatever key the open wizard is given, the session stays sound.
pub proof fn lemma_wizard_key_keeps_sound(before: App, key: KeyEvent, after: App, action: Action)
    requires
        before.sound(),
        before.wizard_key_outcome(key, after, action),
    ensures
        after.sound(),
{
    if before.stage() != Stage::Finished {
        let mid = choose|mid: App| #[trigger]
            before.stage_key_outcome(key, mid) && if mid.wizard_open() && mid.stage()
                == Stage::Finished {
                mid.commit_outcome(after, action)
            } else {
                after == mid && action is Nothing
            };
        lemma_stage_key_keeps_sound(before, key, mid);
    }
}

/// Whatever key the list is given while nothing is open, the session stays
/// sound.
pub proof fn lemma_list_key_keeps_sound(before: App, key: KeyEvent, after: App, action: Action)
    requires
        before.sound(),
        before.list_key_outcome(key, after, action),
    ensures
        after.sound(),
{
}

/// Whatever key is given while the help is shown, the tag filter is typed, a
/// quick action was begun or the question is open, the session stays sound.
pub proof fn lemma_side_key_keeps_sound(before: App, key: KeyEvent, after: App, action: Action)
    requires
        before.sound(),
        before.help_key_outcome(key, after) || before.filter_key_outcome(key, after)
            || before.quick_key_outcome(key, after, action) || before.delete_key_outcome(
            key,
            after,
            action,
        ),
    ensures
        after.sound(),
{
}

/// A session that is sound stays sound whatever key it is given: through any
/// sequence of keys the cursor lies within the text that is edited, the pick
/// within the tags and the selection within the list.
pub proof fn lemma_key_keeps_sound(before: App, key: KeyEvent, after: App, action: Action)
    requires
        before.sound(),
        before.key_outcome(key, after, action),
    ensures
        after.sound(),
{
    let start = before.acknowledged();
    if key.kind != crate::display::keys::KeyEventKind::Press {
    } else if start.show_help || start.enter_tags_filter || start.quick_action
        || start.delete_popup {
        lemma_side_key_keeps_sound(start, key, after, action);
    } else if start.add_popup || start.update_popup {
        lemma_wizard_key_keeps_sound(start, key, after, action);
    } else {
        lemma_list_key_keeps_sound(start, key, after, action);
    }
}

/// A session that is sound stays sound when the store answers, whatever it
/// answers.
pub proof fn lemma_reply_keeps_sound(before: App, tasks: Seq<Task>, after: App)
    requires
        before.sound(),
        before.succeeds_to(tasks, after),
    ensures
        after.sound(),
{
}

} // verus!
