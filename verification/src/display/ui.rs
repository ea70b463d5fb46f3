//! The plain interface: a box with as many tasks as fit, a second box with
//! the details of the current task, and a window that follows the current
//! task through the list.

use crate::backend::task::{Display, Task, TaskList};
use crate::display::keys::KeyCode;
use crate::display::render::saturate_u16;
use vstd::prelude::*;

verus! {

/// The symbols of which a box is drawn.
#[derive(Debug, PartialEq, Eq)]
pub struct Graphics {
    pub vertical: String,
    pub horizontal: String,
    pub top_left: String,
    pub top_right: String,
    pub bottom_left: String,
    pub bottom_right: String,
}

/// Which symbol a cell of a box takes.
#[derive(Clone, Copy, Debug, PartialEq, Eq, Structural)]
pub enum BoxPart {
    TopLeft,
    BottomLeft,
    TopRight,
    BottomRight,
    /// A cell of the left or of the right edge.
    Side,
    /// A cell of the top or of the bottom edge.
    Level,
    /// A cell inside the box.
    Inside,
}

/// The part of the box from (`start_x`, `start_y`) to (`end_x`, `end_y`) that
/// the cell in column `i` and row `j` is.
pub open spec fn box_part(i: u16, j: u16, start_x: u16, start_y: u16, end_x: u16, end_y: u16)
    -> BoxPart {
    if i == start_x && j == start_y {
        BoxPart::TopLeft
    } else if i == start_x && j == end_y {
        BoxPart::BottomLeft
    } else if i == end_x && j == start_y {
        BoxPart::TopRight
    } else if i == end_x && j == end_y {
        BoxPart::BottomRight
    } else if i == start_x || i == end_x {
        BoxPart::Side
    } else if j == start_y || j == end_y {
        BoxPart::Level
    } else {
        BoxPart::Inside
    }
}

impl Graphics {
    /// These are the symbols of a box with thin lines.
    pub open spec fn thin(&self) -> bool {
        &&& self.vertical@ == "─"@
        &&& self.horizontal@ == "│"@
        &&& self.top_left@ == "┌"@
        &&& self.top_right@ == "┐"@
        &&& self.bottom_left@ == "└"@
        &&& self.bottom_right@ == "┘"@
    }

    /// The symbols of a box with thin lines.
    pub fn new() -> (graphics: Self)
        ensures
            graphics.thin(),
    {
        Self {
            vertical: String::from_str("─"),
            horizontal: String::from_str("│"),
            top_left: String::from_str("┌"),
            top_right: String::from_str("┐"),
            bottom_left: String::from_str("└"),
            bottom_right: String::from_str("┘"),
        }
    }

    /// The part of the box that a cell is.
    pub fn part_at(i: u16, j: u16, start_x: u16, start_y: u16, end_x: u16, end_y: u16) -> (part:
        BoxPart)
        ensures
            part == box_part(i, j, start_x, start_y, end_x, end_y),
    {
        if i == start_x && j == start_y {
            BoxPart::TopLeft
        } else if i == start_x && j == end_y {
            BoxPart::BottomLeft
        } else if i == end_x && j == start_y {
            BoxPart::TopRight
        } else if i == end_x && j == end_y {
            BoxPart::BottomRight
        } else if i == start_x || i == end_x {
            BoxPart::Side
        } else if j == start_y || j == end_y {
            BoxPart::Level
        } else {
            BoxPart::Inside
        }
    }

    /// The symbol that is drawn for a part of a box; none for its inside.
    pub fn symbol(&self, part: BoxPart) -> (symbol: Option<&String>)
        ensures
            symbol == match part {
                BoxPart::TopLeft => Some(&self.top_left),
                BoxPart::BottomLeft => Some(&self.bottom_left),
                BoxPart::TopRight => Some(&self.top_right),
                BoxPart::BottomRight => Some(&self.bottom_right),
                BoxPart::Side => Some(&self.horizontal),
                BoxPart::Level => Some(&self.vertical),
                BoxPart::Inside => None,
            },
    {
        match part {
            BoxPart::TopLeft => Some(&self.top_left),
            BoxPart::BottomLeft => Some(&self.bottom_left),
            BoxPart::TopRight => Some(&self.top_right),
            BoxPart::BottomRight => Some(&self.bottom_right),
            BoxPart::Side => Some(&self.horizontal),
            BoxPart::Level => Some(&self.vertical),
            BoxPart::Inside => None,
        }
    }
}

/// The tasks of the plain interface and the settings under which they are
/// shown.
#[derive(Debug)]
pub struct TaskInfo {
    pub total_tasklist: TaskList,
    pub display_filter: Display,
    pub urgency_sort_desc: bool,
    pub tags_filter: String,
    pub current_task: u64,
    pub current_task_details_len: u64,
    pub display_tasklist: TaskList,
}

impl TaskInfo {
    /// No task is held, shown or selected; all tasks are to be shown, the
    /// most urgent first, whatever their tags; and the first task is the
    /// current one.
    pub open spec fn fresh(&self) -> bool {
        &&& self.total_tasklist.tasks@.len() == 0
        &&& self.total_tasklist.state.selected is None
        &&& self.display_tasklist.tasks@.len() == 0
        &&& self.display_tasklist.state.selected is None
        &&& self.display_filter == Display::All
        &&& self.urgency_sort_desc
        &&& self.tags_filter@.len() == 0
        &&& self.current_task == 0
        &&& self.current_task_details_len == 0
    }

    /// No tasks yet; all tasks are to be shown, the most urgent first.
    pub fn new() -> (info: Self)
        ensures
            info.fresh(),
    {
        Self {
            total_tasklist: TaskList::new(),
            display_filter: Display::All,
            urgency_sort_desc: true,
            tags_filter: String::new(),
            current_task: 0,
            current_task_details_len: 0,
            display_tasklist: TaskList::new(),
        }
    }
}

/// Where the cursor is put next.
#[derive(Clone, Copy, Debug, PartialEq, Eq, Structural)]
pub struct CursorInfo {
    pub cursor_x: u16,
    pub cursor_y: u16,
}

/// Which of the tasks in the window is marked, and where the mark is drawn.
#[derive(Clone, Copy, Debug, PartialEq, Eq, Structural)]
pub struct HighlightInfo {
    pub highlight_place: u64,
    pub highlight_x: u16,
    pub highlight_y: u16,
}

/// The rows of the list that are in view, and how many tasks fit.
#[derive(Clone, Copy, Debug, PartialEq, Eq, Structural)]
pub struct TaskWindow {
    pub window_start: i64,
    pub window_end: i64,
    pub tasks_that_can_fit: u16,
}

/// The state of the plain interface.
#[derive(Debug)]
pub struct Renderer {
    pub width: u16,
    pub height: u16,
    pub box_padding: u16,
    pub main_box_start: (u16, u16),
    pub detail_box_start: (u16, u16),
    pub graphics: Graphics,
    pub task_height: u16,
    pub taskinfo: TaskInfo,
    pub taskwindow: TaskWindow,
    pub cursorinfo: CursorInfo,
    pub highlightinfo: HighlightInfo,
}

/// How many tasks of the given height fit a screen of the given height with
/// the given padding above and below, less one. The padding must leave room
/// for at least one task.
pub open spec fn fitting(height: u16, box_padding: u16, task_height: u16) -> int {
    (height - box_padding * 2) / (task_height as int) - 1
}

/// The screen has room for a task: the padding leaves space, and at least
/// one task fits into it.
pub open spec fn has_room(height: u16, box_padding: u16, task_height: u16) -> bool {
    &&& task_height > 0
    &&& box_padding * 2 <= height
    &&& fitting(height, box_padding, task_height) >= 0
}

/// Whether the screen has room for a task.
pub fn room_for(height: u16, box_padding: u16, task_height: u16) -> (room: bool)
    ensures
        room == has_room(height, box_padding, task_height),
{
    if task_height == 0 || box_padding > height / 2 {
        return false;
    }
    (height - box_padding * 2) / task_height >= 1
}

impl Renderer {
    /// How many tasks the list has.
    pub open spec fn total(&self) -> int {
        self.taskinfo.total_tasklist.tasks@.len() as int
    }

    /// The window follows the current task: the current task lies in the
    /// window, the mark is as far from the start of the window as the
    /// current task is, and the window ends within the list unless the whole
    /// list fits. The list is short enough for its rows to be counted in 64
    /// bits with a sign.
    pub open spec fn steady(&self) -> bool {
        &&& 0 <= self.taskwindow.window_start <= self.taskinfo.current_task
        &&& self.taskinfo.current_task <= self.taskwindow.window_end
        &&& self.total() <= 0x7fff_ffff_fffe_ffff
        &&& self.taskwindow.window_end <= self.total() || self.taskwindow.window_end <= 0xffff
        &&& self.highlightinfo.highlight_place == self.taskinfo.current_task
            - self.taskwindow.window_start
        &&& self.total() <= self.taskwindow.tasks_that_can_fit || self.taskwindow.window_end
            < self.total()
        &&& self.taskinfo.current_task < self.total() || (self.total() == 0
            && self.taskinfo.current_task == 0)
    }

    /// Whether the window follows the current task.
    pub fn is_steady(&self) -> (steady: bool)
        ensures
            steady == self.steady(),
    {
        let total = self.taskinfo.total_tasklist.tasks.len();
        let current = self.taskinfo.current_task;
        let start = self.taskwindow.window_start;
        let end = self.taskwindow.window_end;
        if total as u64 > 0x7fff_ffff_fffe_ffff || start < 0 || end < 0 {
            return false;
        }
        let first = start as u64;
        let last = end as u64;
        first <= current && current <= last && (last <= total as u64 || last <= 0xffff)
            && self.highlightinfo.highlight_place == current - first && (total
            <= self.taskwindow.tasks_that_can_fit as usize || last < total as u64) && (current
            < total as u64 || (total == 0 && current == 0))
    }

    /// Whether the window can be adapted to the height of the screen: it
    /// follows the current task, the screen has room for a task, and the
    /// window ends within the list unless all tasks will fit.
    pub fn can_resize(&self) -> (ready: bool)
        ensures
            ready == (self.steady() && has_room(self.height, self.box_padding, self.task_height)
                && (self.taskwindow.window_end <= self.total() || self.total() <= fitting(
                self.height,
                self.box_padding,
                self.task_height,
            ))),
    {
        if !self.is_steady() || !room_for(self.height, self.box_padding, self.task_height) {
            return false;
        }
        let fit = (self.height - self.box_padding * 2) / self.task_height - 1;
        let total = self.taskinfo.total_tasklist.tasks.len();
        self.taskwindow.window_end as u64 <= total as u64 || total <= fit as usize
    }

    /// The state of the plain interface on a screen of the given size, before
    /// any task is read: the first task is the current one, and the window
    /// begins at the top.
    pub fn new(box_padding: u16, task_height: u16, width: u16, height: u16) -> (renderer: Self)
        requires
            has_room(height, box_padding, task_height),
            box_padding < u16::MAX,
        ensures
            renderer.width == width && renderer.height == height,
            renderer.box_padding == box_padding && renderer.task_height == task_height,
            renderer.main_box_start == (box_padding, box_padding),
            renderer.detail_box_start == ((width / 3) as u16, (box_padding + 1) as u16),
            renderer.taskwindow == (TaskWindow {
                window_start: 0,
                window_end: fitting(height, box_padding, task_height) as i64,
                tasks_that_can_fit: fitting(height, box_padding, task_height) as u16,
            }),
            renderer.taskinfo.fresh(),
            renderer.graphics.thin(),
            renderer.cursorinfo == (CursorInfo { cursor_x: 0, cursor_y: 0 }),
            renderer.highlightinfo == (HighlightInfo {
                highlight_place: 0,
                highlight_x: 0,
                highlight_y: 0,
            }),
            renderer.steady(),
    {
        let main_window_height = (height - (box_padding * 2)) / task_height;
        Self {
            width,
            height,
            box_padding,
            task_height,
            main_box_start: (box_padding, box_padding),
            detail_box_start: (width / 3, box_padding + 1),
            graphics: Graphics::new(),
            taskinfo: TaskInfo::new(),
            taskwindow: TaskWindow {
                window_start: 0,
                window_end: main_window_height as i64 - 1,
                tasks_that_can_fit: main_window_height - 1,
            },
            cursorinfo: CursorInfo { cursor_x: 0, cursor_y: 0 },
            highlightinfo: HighlightInfo { highlight_place: 0, highlight_x: 0, highlight_y: 0 },
        }
    }

    /// Takes `tasks`, all the tasks of the store, as the list: the tasks that
    /// pass the filters, sorted by urgency as the settings say.
    pub fn pull_latest_tasklist(&mut self, tasks: Vec<Task>)
        ensures
            final(self).taskinfo.total_tasklist.tasks@
                == crate::backend::task::sorted_by_urgency(
                tasks@.filter(
                    |t: Task|
                        t@.shown(
                            Some(old(self).taskinfo.display_filter),
                            old(self).taskinfo.tags_filter@,
                        ),
                ),
                old(self).taskinfo.urgency_sort_desc,
            ),
            final(self).taskinfo.total_tasklist.state.selected is None,
            *final(self) == (Renderer {
                taskinfo: TaskInfo {
                    total_tasklist: final(self).taskinfo.total_tasklist,
                    ..old(self).taskinfo
                },
                ..*old(self)
            }),
    {
        let mut list = TaskList::from(tasks);
        list.filter_tasks(Some(self.taskinfo.display_filter), self.taskinfo.tags_filter.clone());
        list.sort_by_urgency(self.taskinfo.urgency_sort_desc);
        self.taskinfo.total_tasklist = list;
    }

    /// The rows of the list that are shown: all of them if they fit, else
    /// those of the window, its last row included.
    pub open spec fn in_view(&self) -> (int, int) {
        if self.total() <= self.taskwindow.tasks_that_can_fit {
            (0, self.total())
        } else {
            (self.taskwindow.window_start as int, self.taskwindow.window_end + 1)
        }
    }

    /// Makes the tasks in view the tasks that are shown.
    pub fn update_task_window(&mut self)
        requires
            old(self).steady(),
        ensures
            final(self).taskinfo.display_tasklist.tasks@.len() == old(self).in_view().1
                - old(self).in_view().0,
            forall|k: int|
                0 <= k < final(self).taskinfo.display_tasklist.tasks@.len() ==> (
                #[trigger] final(self).taskinfo.display_tasklist.tasks@[k])@
                    == old(self).taskinfo.total_tasklist.tasks@[old(self).in_view().0 + k]@,
            final(self).taskinfo.display_tasklist.state.selected is None,
            *final(self) == (Renderer {
                taskinfo: TaskInfo {
                    display_tasklist: final(self).taskinfo.display_tasklist,
                    ..old(self).taskinfo
                },
                ..*old(self)
            }),
    {
        let total = self.taskinfo.total_tasklist.tasks.len();
        let (from, to) = if total <= self.taskwindow.tasks_that_can_fit as usize {
            (0, total)
        } else {
            (self.taskwindow.window_start as usize, self.taskwindow.window_end as usize + 1)
        };
        let mut shown: Vec<Task> = Vec::new();
        let mut i: usize = from;
        while i < to
            invariant
                from <= i <= to <= self.taskinfo.total_tasklist.tasks@.len(),
                shown@.len() == i - from,
                forall|k: int|
                    0 <= k < shown@.len() ==> (#[trigger] shown@[k])@
                        == self.taskinfo.total_tasklist.tasks@[from + k]@,
            decreases to - i,
        {
            shown.push(self.taskinfo.total_tasklist.tasks[i].clone());
            i = i + 1;
        }
        self.taskinfo.display_tasklist = TaskList::from(shown);
    }

    /// Where the mark of the current task is drawn: one column right of the
    /// box, and as many task heights below its top as the mark is down the
    /// window. A place that a 16-bit number cannot hold is the largest such
    /// number.
    pub open spec fn mark_place(&self) -> (u16, u16) {
        (
            saturate_u16(self.main_box_start.0 + 1),
            saturate_u16(
                self.box_padding + 1 + self.task_height * self.highlightinfo.highlight_place,
            ),
        )
    }

    /// Puts the mark of the current task where it is to be drawn.
    pub fn place_highlight(&mut self)
        ensures
            *final(self) == (Renderer {
                highlightinfo: HighlightInfo {
                    highlight_x: old(self).mark_place().0,
                    highlight_y: old(self).mark_place().1,
                    ..old(self).highlightinfo
                },
                ..*old(self)
            }),
    {
        let place = self.highlightinfo.highlight_place;
        let down: u16 = if place > 0xffff {
            u16::MAX
        } else {
            assert(self.task_height * place <= 0xffff * 0xffff) by (nonlinear_arith)
                requires
                    0 <= self.task_height <= 0xffff,
                    0 <= place <= 0xffff,
            ;
            let rows: u64 = self.task_height as u64 * place;
            if rows > 0xffff {
                u16::MAX
            } else {
                rows as u16
            }
        };
        proof {
            let exact = self.task_height * self.highlightinfo.highlight_place;
            if place > 0xffff && self.task_height > 0 {
                assert(exact >= place) by (nonlinear_arith)
                    requires
                        exact == self.task_height * place,
                        self.task_height >= 1,
                        place >= 0,
                ;
            }
            if self.task_height == 0 {
                assert(exact == 0) by (nonlinear_arith)
                    requires
                        exact == self.task_height * place,
                        self.task_height == 0,
                ;
            }
        }
        self.highlightinfo.highlight_x = self.main_box_start.0.saturating_add(1);
        self.highlightinfo.highlight_y = if self.task_height == 0 {
            self.box_padding.saturating_add(1)
        } else {
            self.box_padding.saturating_add(1).saturating_add(down)
        };
    }

    /// Puts the cursor where the first task is written: three columns right
    /// of the box and one row below its top.
    pub fn start_cursor(&mut self)
        ensures
            *final(self) == (Renderer {
                cursorinfo: CursorInfo {
                    cursor_x: saturate_u16(old(self).main_box_start.0 + 3),
                    cursor_y: saturate_u16(old(self).main_box_start.1 + 1),
                },
                ..*old(self)
            }),
    {
        self.cursorinfo.cursor_x = self.main_box_start.0.saturating_add(3);
        self.cursorinfo.cursor_y = self.main_box_start.1.saturating_add(1);
    }

    /// Moves the cursor down by the height of a task, to where the next task
    /// is written.
    pub fn next_task_row(&mut self)
        ensures
            *final(self) == (Renderer {
                cursorinfo: CursorInfo {
                    cursor_y: saturate_u16(old(self).cursorinfo.cursor_y + old(self).task_height),
                    ..old(self).cursorinfo
                },
                ..*old(self)
            }),
    {
        self.cursorinfo.cursor_y = self.cursorinfo.cursor_y.saturating_add(self.task_height);
    }

    /// Whether the bar beside the list is drawn: it is unless fewer tasks are
    /// shown than fit.
    pub fn has_scroll_bar(&self) -> (drawn: bool)
        ensures
            drawn == (self.taskinfo.display_tasklist.tasks@.len()
                >= self.taskwindow.tasks_that_can_fit),
    {
        self.taskinfo.display_tasklist.tasks.len() >= self.taskwindow.tasks_that_can_fit as usize
    }

    /// Where the window stands once it is adapted to the height of the
    /// screen, as its first and its last row, `fit` being the number of tasks
    /// that fit now. If all tasks fit, the window runs from the top over as
    /// many rows as there are tasks. Else it takes `fit` rows more than its
    /// first: if the current task lies below what would be in view from the
    /// old first row, the window ends on the current task; if it lies above
    /// what would be in view up to the old last row, the window begins on
    /// it; else the window keeps its first row, unless it would then reach
    /// beyond the list, in which case it ends on the last task.
    pub open spec fn resized_window(&self) -> (int, int) {
        let fit = fitting(self.height, self.box_padding, self.task_height);
        let current = self.taskinfo.current_task as int;
        let start = self.taskwindow.window_start as int;
        let end = self.taskwindow.window_end as int;
        if self.total() <= fit {
            (0, self.total())
        } else if current > start + fit {
            (current - fit, current)
        } else if current < end - fit {
            (current, current + fit)
        } else if start + fit >= self.total() {
            (self.total() - 1 - fit, self.total() - 1)
        } else {
            (start, start + fit)
        }
    }

    /// Adapts the window to the height of the screen: works out anew how
    /// many tasks fit, moves the window to where `resized_window` says, so
    /// that the current task stays in view, and puts the mark on the current
    /// task. Where not all tasks fit any more, the window must have ended
    /// within the list before.
    pub fn resize_tasks_window(&mut self)
        requires
            old(self).steady(),
            has_room(old(self).height, old(self).box_padding, old(self).task_height),
            old(self).taskwindow.window_end <= old(self).total() || old(self).total() <= fitting(
                old(self).height,
                old(self).box_padding,
                old(self).task_height,
            ),
        ensures
            final(self).steady(),
            final(self).taskwindow.tasks_that_can_fit == fitting(
                old(self).height,
                old(self).box_padding,
                old(self).task_height,
            ),
            final(self).taskwindow.window_start == old(self).resized_window().0,
            final(self).taskwindow.window_end == old(self).resized_window().1,
            final(self).highlightinfo.highlight_place == old(self).taskinfo.current_task
                - old(self).resized_window().0,
            *final(self) == (Renderer {
                taskwindow: final(self).taskwindow,
                highlightinfo: HighlightInfo {
                    highlight_place: final(self).highlightinfo.highlight_place,
                    ..old(self).highlightinfo
                },
                ..*old(self)
            }),
    {
        let fit: u16 = ((self.height - (self.box_padding * 2)) / self.task_height) - 1;
        self.taskwindow.tasks_that_can_fit = fit;
        let total = self.taskinfo.total_tasklist.tasks.len();
        let current = self.taskinfo.current_task;
        if fit as usize >= total {
            self.taskwindow.window_start = 0;
            self.taskwindow.window_end = total as i64;
            self.highlightinfo.highlight_place = current;
        } else {
            if current > self.taskwindow.window_start as u64 + fit as u64 {
                self.taskwindow.window_end = current as i64;
                self.taskwindow.window_start = self.taskwindow.window_end - fit as i64;
            } else if (current as i64) < self.taskwindow.window_end - fit as i64 {
                self.taskwindow.window_start = current as i64;
                self.taskwindow.window_end = self.taskwindow.window_start + fit as i64;
            } else {
                let potential_end = self.taskwindow.window_start + fit as i64;
                if potential_end >= total as i64 {
                    self.taskwindow.window_end = total as i64 - 1;
                    self.taskwindow.window_start = self.taskwindow.window_end - fit as i64;
                } else {
                    self.taskwindow.window_end = potential_end;
                }
            }
            self.highlightinfo.highlight_place = current - self.taskwindow.window_start as u64;
        }
    }

    /// Moves the current task one up or one down, if there is a task there.
    /// The window moves along where the current task would leave it; else
    /// the mark moves.
    pub fn handle_direction(&mut self, direction: KeyCode)
        requires
            old(self).steady(),
            direction == KeyCode::Up || direction == KeyCode::Down,
        ensures
            final(self).steady(),
            final(self).taskinfo.current_task == (if direction == KeyCode::Up {
                if old(self).taskinfo.current_task == 0 {
                    0
                } else {
                    old(self).taskinfo.current_task - 1
                }
            } else {
                if old(self).taskinfo.current_task + 1 < old(self).total() {
                    old(self).taskinfo.current_task + 1
                } else {
                    old(self).taskinfo.current_task as int
                }
            }),
            final(self).taskwindow.window_end - final(self).taskwindow.window_start
                == old(self).taskwindow.window_end - old(self).taskwindow.window_start,
            final(self).taskwindow.window_start == (if final(self).taskinfo.current_task
                < old(self).taskwindow.window_start {
                old(self).taskwindow.window_start - 1
            } else if final(self).taskinfo.current_task > old(self).taskwindow.window_end {
                old(self).taskwindow.window_start + 1
            } else {
                old(self).taskwindow.window_start as int
            }),
            *final(self) == (Renderer {
                taskinfo: TaskInfo {
                    current_task: final(self).taskinfo.current_task,
                    ..old(self).taskinfo
                },
                taskwindow: final(self).taskwindow,
                highlightinfo: HighlightInfo {
                    highlight_place: final(self).highlightinfo.highlight_place,
                    ..old(self).highlightinfo
                },
                ..*old(self)
            }),
    {
        let total = self.taskinfo.total_tasklist.tasks.len();
        match direction {
            KeyCode::Up => {
                if self.taskinfo.current_task != 0 {
                    self.taskinfo.current_task -= 1;
                    if (self.taskinfo.current_task as i64) < self.taskwindow.window_start {
                        self.taskwindow.window_start -= 1;
                        self.taskwindow.window_end -= 1;
                    } else {
                        self.highlightinfo.highlight_place -= 1;
                    }
                }
            },
            _ => {
                if total != 0 && self.taskinfo.current_task as usize + 1 != total {
                    self.taskinfo.current_task += 1;
                    if self.taskinfo.current_task as i64 > self.taskwindow.window_end {
                        self.taskwindow.window_start += 1;
                        self.taskwindow.window_end += 1;
                    } else {
                        self.highlightinfo.highlight_place += 1;
                    }
                }
            },
        }
    }
}

/// Whether a word of `len` characters begins a new line when `usage` columns
/// of the line are left: it does if it would come within three columns of
/// the edge. A line that has fewer than three columns left takes every
/// word.
pub open spec fn breaks_before(len: int, usage: int) -> bool {
    usage >= 3 && len >= usage - 3
}

/// The columns that are left of the line after a word of `len` characters
/// and the space behind it; a word that begins a new line has the whole
/// width before it.
pub open spec fn usage_after(len: int, usage: int, width: int) -> int {
    (if breaks_before(len, usage) {
        width
    } else {
        usage
    }) - (len + 1)
}

/// For each word, by its length, whether it begins a new line, when
/// `usage` columns of the line are left before the first word.
pub open spec fn line_breaks(lens: Seq<usize>, usage: int, width: int) -> Seq<bool>
    decreases lens.len(),
{
    if lens.len() == 0 {
        Seq::empty()
    } else {
        seq![breaks_before(lens[0] as int, usage)] + line_breaks(
            lens.drop_first(),
            usage_after(lens[0] as int, usage, width),
            width,
        )
    }
}

/// Whether a text of `text_len` characters is wrapped at all in a box that
/// is `width` columns wide: it is if it is as long as the box is wide, less
/// three columns.
pub open spec fn needs_wrapping(text_len: int, width: int) -> bool {
    text_len / (width - 3) != 0
}

/// Plans the lines of a text in a box that is `width` columns wide. Returns
/// nothing if the text is not wrapped; else, for each of its words, whether
/// the word begins a new line. `word_lens` are the lengths of the words and
/// `text_len` is the length of the text.
pub fn wrap_plan(text_len: usize, word_lens: &Vec<usize>, width: u16) -> (plan: Option<Vec<bool>>)
    requires
        width > 3,
    ensures
        !needs_wrapping(text_len as int, width as int) ==> plan is None,
        needs_wrapping(text_len as int, width as int) ==> plan is Some && plan->0@ == line_breaks(
            word_lens@,
            width as int,
            width as int,
        ),
{
    if text_len / (width as usize - 3) == 0 {
        return None;
    }
    let mut plan: Vec<bool> = Vec::new();
    // the columns that are left, while they are three at least
    let mut left: Option<u16> = Some(width);
    let ghost mut usage: int = width as int;
    let mut i: usize = 0;
    proof {
        assert(word_lens@.skip(0) =~= word_lens@);
    }
    while i < word_lens.len()
        invariant
            i <= word_lens.len(),
            width > 3,
            left matches Some(u) ==> u == usage && 3 <= u <= width,
            left is None ==> usage < 3,
            line_breaks(word_lens@, width as int, width as int) == plan@ + line_breaks(
                word_lens@.skip(i as int),
                usage,
                width as int,
            ),
        decreases word_lens.len() - i,
    {
        let len = word_lens[i];
        let ghost rest = word_lens@.skip(i as int);
        proof {
            assert(rest[0] == len);
            assert(rest.drop_first() =~= word_lens@.skip(i + 1));
        }
        let ghost so_far = plan@;
        match left {
            None => {
                plan.push(false);
            },
            Some(u) => {
                let breaks = len >= (u - 3) as usize;
                plan.push(breaks);
                let base = if breaks {
                    width
                } else {
                    u
                };
                left = if len >= (base - 3) as usize {
                    None
                } else {
                    Some(base - (len as u16) - 1)
                };
            },
        }
        proof {
            let step = breaks_before(len as int, usage);
            let next = usage_after(len as int, usage, width as int);
            assert(plan@ =~= so_far.push(step));
            assert(so_far + (seq![step] + line_breaks(rest.drop_first(), next, width as int))
                =~= plan@ + line_breaks(rest.drop_first(), next, width as int));
            usage = next;
        }
        i = i + 1;
    }
    proof {
        assert(word_lens@.skip(word_lens@.len() as int) =~= Seq::<usize>::empty());
        assert(plan@ + Seq::<bool>::empty() =~= plan@);
    }
    Some(plan)
}

} // verus!
