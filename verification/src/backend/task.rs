//! Tasks, and the list of tasks that is shown: which tasks are visible and in
//! what order.

use crate::backend::tags::TagSet;
use crate::strings::{is_substring, str_contains};
use vstd::prelude::*;

verus! {

/// Which tasks the list shows.
#[derive(Clone, Copy, Debug, PartialEq, Eq, Structural)]
pub enum Display {
    All,
    Completed,
    NotCompleted,
}

impl Display {
    /// The filter that follows this one when the user toggles it.
    pub open spec fn successor(self) -> Display {
        match self {
            Display::All => Display::Completed,
            Display::Completed => Display::NotCompleted,
            Display::NotCompleted => Display::All,
        }
    }

    /// Whether a task with the given status passes this filter.
    pub open spec fn admits(self, status: Status) -> bool {
        match self {
            Display::All => true,
            Display::Completed => status == Status::Completed,
            Display::NotCompleted => status != Status::Completed,
        }
    }

    /// Rotates through the filters: All, Completed, NotCompleted, and All
    /// again.
    pub fn next(&mut self)
        ensures
            *final(self) == old(self).successor(),
    {
        match self {
            Display::All => *self = Display::Completed,
            Display::Completed => *self = Display::NotCompleted,
            Display::NotCompleted => *self = Display::All,
        }
    }

    /// Whether a task with the given status passes this filter.
    pub fn keeps(&self, status: Status) -> (kept: bool)
        ensures
            kept == self.admits(status),
    {
        match self {
            Display::All => true,
            Display::Completed => status == Status::Completed,
            Display::NotCompleted => status != Status::Completed,
        }
    }
}

/// How urgent a task is. The variants are declared from least to most urgent.
#[derive(Clone, Copy, Debug, PartialEq, Eq, PartialOrd, Ord, Structural)]
pub enum Urgency {
    Low,
    Medium,
    High,
    Critical,
}

impl Urgency {
    /// The place of this urgency in the order Low < Medium < High < Critical.
    pub open spec fn rank(self) -> int {
        match self {
            Urgency::Low => 0,
            Urgency::Medium => 1,
            Urgency::High => 2,
            Urgency::Critical => 3,
        }
    }

    /// The place of this urgency in the order, as a number from 0 to 3.
    pub fn level(&self) -> (n: u8)
        ensures
            n == self.rank(),
    {
        match self {
            Urgency::Low => 0,
            Urgency::Medium => 1,
            Urgency::High => 2,
            Urgency::Critical => 3,
        }
    }
}

impl Default for Urgency {
    fn default() -> (urgency: Self)
        ensures
            urgency == Urgency::Low,
    {
        Urgency::Low
    }
}

/// Where a task stands.
#[derive(Clone, Copy, Debug, PartialEq, Eq, Structural)]
pub enum Status {
    Open,
    Working,
    Paused,
    Completed,
}

impl Default for Status {
    fn default() -> (status: Self)
        ensures
            status == Status::Open,
    {
        Status::Open
    }
}

/// An instant: whole seconds since the Unix epoch and the nanoseconds past
/// them. Instants are ordered by the seconds first, then by the nanoseconds.
#[derive(Clone, Copy, Debug, PartialEq, Eq, PartialOrd, Ord, Structural)]
pub struct Timestamp {
    pub secs: i64,
    pub nanos: u32,
}

impl Timestamp {
    /// This instant is later than `other`.
    pub open spec fn later_than(self, other: Timestamp) -> bool {
        self.secs > other.secs || (self.secs == other.secs && self.nanos > other.nanos)
    }

    /// Whether this instant is later than `other`.
    pub fn is_after(&self, other: &Timestamp) -> (later: bool)
        ensures
            later == self.later_than(*other),
    {
        self.secs > other.secs || (self.secs == other.secs && self.nanos > other.nanos)
    }

    /// The current instant.
    ///
    /// Calls `chrono::Local::now` and takes from the result, through
    /// `DateTime::timestamp` and `DateTime::timestamp_subsec_nanos`, the
    /// seconds since the epoch and the nanoseconds past them. Nothing is
    /// claimed of the instant that comes back: it depends on the clock.
    /// `Local::now` panics where the clock of the system stands before the
    /// epoch or the time zone of the system cannot be found.
    #[verifier::external_body]
    pub(crate) fn now() -> (now: Timestamp) {
        let now = chrono::Local::now();
        Timestamp { secs: now.timestamp(), nanos: now.timestamp_subsec_nanos() }
    }
}

/// The bits of an identifier that tell its version and variant.
pub const ID_KIND_MASK: u128 = 0x0000_0000_0000_f000_c000_0000_0000_0000;

/// What those bits hold in an identifier made at random.
pub const ID_KIND_RANDOM: u128 = 0x0000_0000_0000_4000_8000_0000_0000_0000;

/// A new identifier for a task.
///
/// Calls `uuid::Uuid::new_v4` and hands the result out as the 128-bit number
/// that `Uuid::as_u128` gives. `new_v4` takes 128 random bits and overwrites
/// six of them: the version becomes 4 and the variant `10`. That is all the
/// contract claims; the other bits are random. `new_v4` panics where the
/// operating system gives it no random bytes.
#[verifier::external_body]
pub(crate) fn fresh_id() -> (id: u128)
    ensures
        id & ID_KIND_MASK == ID_KIND_RANDOM,
{
    uuid::Uuid::new_v4().as_u128()
}

/// What a text that may be missing holds.
pub open spec fn text_of(text: Option<String>) -> Option<Seq<char>> {
    match text {
        Some(s) => Some(s@),
        None => None,
    }
}

/// What a tag set that may be missing holds.
pub open spec fn tags_of(tags: Option<TagSet>) -> Option<Seq<Seq<char>>> {
    match tags {
        Some(t) => Some(t@),
        None => None,
    }
}

/// What a task holds, with its texts as sequences of characters.
pub struct TaskModel {
    pub id: u128,
    pub name: Seq<char>,
    pub description: Option<Seq<char>>,
    pub latest: Option<Seq<char>>,
    pub urgency: Urgency,
    pub status: Status,
    pub tags: Option<Seq<Seq<char>>>,
    pub date_added: Timestamp,
    pub completed_on: Option<Timestamp>,
}

/// A task. The identifier and the time of creation are set when the task is
/// made and stay as they are: nothing in this crate changes them afterwards.
#[derive(Debug, PartialEq, Eq)]
pub struct Task {
    pub id: u128,
    pub name: String,
    pub description: Option<String>,
    pub latest: Option<String>,
    pub urgency: Urgency,
    pub status: Status,
    pub tags: Option<TagSet>,
    pub date_added: Timestamp,
    pub completed_on: Option<Timestamp>,
}

impl View for Task {
    type V = TaskModel;

    open spec fn view(&self) -> TaskModel {
        TaskModel {
            id: self.id,
            name: self.name@,
            description: text_of(self.description),
            latest: text_of(self.latest),
            urgency: self.urgency,
            status: self.status,
            tags: tags_of(self.tags),
            date_added: self.date_added,
            completed_on: self.completed_on,
        }
    }
}

/// Some tag of `tags` has `filter` in it.
pub open spec fn tag_hit(tags: Seq<Seq<char>>, filter: Seq<char>) -> bool {
    exists|i: int| 0 <= i < tags.len() && is_substring(filter, #[trigger] tags[i])
}

/// Whether a task with this status passes the display filter. Without a filter
/// the completed tasks are left out.
pub open spec fn status_shown(display: Option<Display>, status: Status) -> bool {
    match display {
        Some(d) => d.admits(status),
        None => status != Status::Completed,
    }
}

impl TaskModel {
    /// The completion time is there exactly when the task is completed.
    pub open spec fn consistent(self) -> bool {
        self.completed_on is Some <==> self.status == Status::Completed
    }

    /// Whether the list shows the task: its status passes the display filter
    /// and, where a tag filter is set, one of its tags has the filter text in
    /// it. A task without tags passes no tag filter but the empty one.
    pub open spec fn shown(self, display: Option<Display>, filter: Seq<char>) -> bool {
        &&& status_shown(display, self.status)
        &&& (filter.len() == 0 || (self.tags is Some && tag_hit(self.tags->0, filter)))
    }
}

impl Task {
    /// The task with the given identifier and creation time. A task that
    /// starts out completed is completed at the moment of its creation; any
    /// other has no completion time. The urgency defaults to Low and the
    /// status to Open.
    pub fn stamped(
        id: u128,
        now: Timestamp,
        name: String,
        description: Option<String>,
        latest: Option<String>,
        urgency: Option<Urgency>,
        status: Option<Status>,
        tags: Option<TagSet>,
    ) -> (task: Task)
        ensures
            task@ == (TaskModel {
                id,
                name: name@,
                description: text_of(description),
                latest: text_of(latest),
                urgency: match urgency {
                    Some(u) => u,
                    None => Urgency::Low,
                },
                status: match status {
                    Some(s) => s,
                    None => Status::Open,
                },
                tags: tags_of(tags),
                date_added: now,
                completed_on: if status == Some(Status::Completed) {
                    Some(now)
                } else {
                    None
                },
            }),
            task@.consistent(),
    {
        let status_value = match status {
            Some(s) => s,
            None => Status::Open,
        };
        let urgency_value = match urgency {
            Some(u) => u,
            None => Urgency::Low,
        };
        Task {
            id,
            name,
            description,
            latest,
            urgency: urgency_value,
            status: status_value,
            tags,
            date_added: now,
            completed_on: if status_value == Status::Completed {
                Some(now)
            } else {
                None
            },
        }
    }

    /// A new task, with a fresh identifier and the current time as its time of
    /// creation. Only the name is required; the urgency defaults to Low and
    /// the status to Open. The identifier and the time come from outside; all
    /// else is as `stamped` builds it.
    pub fn new(
        name: String,
        description: Option<String>,
        latest: Option<String>,
        urgency: Option<Urgency>,
        status: Option<Status>,
        tags: Option<TagSet>,
    ) -> (task: Task)
        ensures
            task@.name == name@,
            task@.description == text_of(description),
            task@.latest == text_of(latest),
            task@.urgency == match urgency {
                Some(u) => u,
                None => Urgency::Low,
            },
            task@.status == match status {
                Some(s) => s,
                None => Status::Open,
            },
            task@.tags == tags_of(tags),
            task@.completed_on == if status == Some(Status::Completed) {
                Some(task@.date_added)
            } else {
                None
            },
            task@.consistent(),
            task@.id & ID_KIND_MASK == ID_KIND_RANDOM,
    {
        let id = fresh_id();
        let now = Timestamp::now();
        Task::stamped(id, now, name, description, latest, urgency, status, tags)
    }

    /// The identifier of the task.
    pub fn get_id(&self) -> (id: u128)
        ensures
            id == self@.id,
    {
        self.id
    }

    /// When the task was created.
    pub fn get_date_added(&self) -> (date: Timestamp)
        ensures
            date == self@.date_added,
    {
        self.date_added
    }

    /// The task that holds exactly the given values, as they were read from
    /// the store.
    pub fn from_sql(
        id: u128,
        name: String,
        description: Option<String>,
        latest: Option<String>,
        urgency: Urgency,
        status: Status,
        tags: Option<TagSet>,
        date_added: Timestamp,
        completed_on: Option<Timestamp>,
    ) -> (task: Task)
        ensures
            task@ == (TaskModel {
                id,
                name: name@,
                description: text_of(description),
                latest: text_of(latest),
                urgency,
                status,
                tags: tags_of(tags),
                date_added,
                completed_on,
            }),
    {
        Task { id, name, description, latest, urgency, status, tags, date_added, completed_on }
    }

    /// Sets the status at the instant `now`: a task that becomes or stays
    /// completed is completed at `now`, any other loses its completion time.
    pub fn set_status_at(&mut self, status: Status, now: Timestamp)
        ensures
            final(self)@ == (TaskModel {
                status,
                completed_on: if status == Status::Completed {
                    Some(now)
                } else {
                    None
                },
                ..old(self)@
            }),
            final(self)@.consistent(),
    {
        self.status = status;
        if status == Status::Completed {
            self.completed_on = Some(now);
        } else {
            self.completed_on = None;
        }
    }

    /// Sets the status now. A task that becomes or stays completed gets the
    /// current time as its completion time; any other loses its completion
    /// time. Nothing else changes.
    pub fn set_status(&mut self, status: Status)
        ensures
            final(self)@.status == status,
            final(self)@.completed_on is Some <==> status == Status::Completed,
            final(self)@ == (TaskModel {
                status,
                completed_on: final(self)@.completed_on,
                ..old(self)@
            }),
    {
        let now = Timestamp::now();
        self.set_status_at(status, now);
    }

    /// Whether one of the tags of the task has `filter` in it.
    pub fn has_tag_with(&self, filter: &str) -> (hit: bool)
        ensures
            hit == (self@.tags is Some && tag_hit(self@.tags->0, filter@)),
    {
        match &self.tags {
            None => false,
            Some(tags) => {
                let n = tags.len();
                let mut i: usize = 0;
                while i < n
                    invariant
                        i <= n,
                        n == tags@.len(),
                        self@.tags == Some(tags@),
                        forall|j: int| 0 <= j < i ==> !is_substring(filter@, #[trigger] tags@[j]),
                    decreases n - i,
                {
                    match tags.get(i) {
                        Some(tag) => {
                            if str_contains(tag.as_str(), filter) {
                                assert(is_substring(filter@, tags@[i as int]));
                                return true;
                            }
                        },
                        None => {},
                    }
                    i += 1;
                }
                false
            },
        }
    }

    /// Whether the list shows the task under the given filters.
    pub fn is_shown(&self, display: Option<Display>, filter: &str) -> (shown: bool)
        ensures
            shown == self@.shown(display, filter@),
    {
        let status_ok = match display {
            Some(d) => d.keeps(self.status),
            None => self.status != Status::Completed,
        };
        if !status_ok {
            return false;
        }
        if filter.unicode_len() == 0 {
            return true;
        }
        self.has_tag_with(filter)
    }
}

impl Clone for Task {
    fn clone(&self) -> (copy: Self)
        ensures
            copy@ == self@,
    {
        Task {
            id: self.id,
            name: self.name.clone(),
            description: match &self.description {
                Some(s) => Some(s.clone()),
                None => None,
            },
            latest: match &self.latest {
                Some(s) => Some(s.clone()),
                None => None,
            },
            urgency: self.urgency,
            status: self.status,
            tags: match &self.tags {
                Some(t) => Some(t.clone()),
                None => None,
            },
            date_added: self.date_added,
            completed_on: self.completed_on,
        }
    }
}

/// Which row of a list is selected, if any.
#[derive(Clone, Copy, Debug, PartialEq, Eq, Structural)]
pub struct ListState {
    pub selected: Option<usize>,
}

impl ListState {
    /// The selected row, if any.
    pub fn selected(&self) -> (row: Option<usize>)
        ensures
            row == self.selected,
    {
        self.selected
    }

    /// Selects `index`, or nothing.
    pub fn select(&mut self, index: Option<usize>)
        ensures
            final(self).selected == index,
    {
        self.selected = index;
    }
}

impl Default for ListState {
    fn default() -> (state: Self)
        ensures
            state.selected is None,
    {
        ListState { selected: None }
    }
}

/// A selection brought into a list of `len` rows: nothing is selected in an
/// empty list, and a row past the end becomes the last row.
pub open spec fn selection_within(selected: Option<usize>, len: nat) -> Option<usize> {
    match selected {
        None => None,
        Some(row) => if len == 0 {
            None
        } else if row >= len {
            Some((len - 1) as usize)
        } else {
            Some(row)
        },
    }
}

/// `a` is shown above `b`. With the most urgent first, a task goes before the
/// less urgent ones and, among those of its own urgency, before the ones
/// created earlier. With the least urgent first, it goes before the more
/// urgent ones and, among those of its own urgency, before the ones created
/// later. Two tasks of one urgency that were created at the same instant go
/// neither way.
pub open spec fn goes_before(a: Task, b: Task, descending: bool) -> bool {
    if descending {
        a.urgency.rank() > b.urgency.rank() || (a.urgency == b.urgency
            && a.date_added.later_than(b.date_added))
    } else {
        a.urgency.rank() < b.urgency.rank() || (a.urgency == b.urgency
            && b.date_added.later_than(a.date_added))
    }
}

/// No task of `s` is shown below one that it goes before.
pub open spec fn in_order(s: Seq<Task>, descending: bool) -> bool {
    forall|i: int, j: int|
        0 <= i < j < s.len() ==> !goes_before(#[trigger] s[j], #[trigger] s[i], descending)
}

/// The ordered sequence `s` with `t` put in: before the first task that `t`
/// goes before, and so after every task that it ties with.
pub open spec fn insert_task(s: Seq<Task>, t: Task, descending: bool) -> Seq<Task>
    decreases s.len(),
{
    if s.len() == 0 {
        seq![t]
    } else if goes_before(t, s[0], descending) {
        seq![t] + s
    } else {
        seq![s[0]] + insert_task(s.drop_first(), t, descending)
    }
}

/// The tasks of `s` in the order in which they are shown. Tasks that tie keep
/// the order that they have in `s`.
pub open spec fn sorted_by_urgency(s: Seq<Task>, descending: bool) -> Seq<Task>
    decreases s.len(),
{
    if s.len() == 0 {
        s
    } else {
        insert_task(sorted_by_urgency(s.drop_last(), descending), s.last(), descending)
    }
}

/// Where `insert_task` puts a task: behind every task that it does not go
/// before, and in front of the first that it does go before.
pub proof fn lemma_insert_task_place(s: Seq<Task>, t: Task, descending: bool) -> (p: int)
    ensures
        0 <= p <= s.len(),
        insert_task(s, t, descending) == s.insert(p, t),
        forall|k: int| 0 <= k < p ==> !goes_before(t, #[trigger] s[k], descending),
        p < s.len() ==> goes_before(t, s[p], descending),
    decreases s.len(),
{
    if s.len() == 0 {
        assert(seq![t] =~= s.insert(0, t));
        0
    } else if goes_before(t, s[0], descending) {
        assert(seq![t] + s =~= s.insert(0, t));
        0
    } else {
        let rest = s.drop_first();
        let q = lemma_insert_task_place(rest, t, descending);
        assert(seq![s[0]] + rest.insert(q, t) =~= s.insert(q + 1, t));
        assert forall|k: int| 0 <= k < q + 1 implies !goes_before(
            t,
            #[trigger] s[k],
            descending,
        ) by {
            if k > 0 {
                assert(s[k] == rest[k - 1]);
            }
        }
        q + 1
    }
}

/// A task that is put into an ordered sequence leaves it ordered, and the
/// sequence then holds that task and what it held before.
pub proof fn lemma_insert_task(s: Seq<Task>, t: Task, descending: bool)
    requires
        in_order(s, descending),
    ensures
        in_order(insert_task(s, t, descending), descending),
        insert_task(s, t, descending).to_multiset() == s.to_multiset().insert(t),
        insert_task(s, t, descending).len() == s.len() + 1,
{
    let p = lemma_insert_task_place(s, t, descending);
    let r = s.insert(p, t);
    vstd::seq_lib::to_multiset_insert(s, p, t);
    assert forall|i: int, j: int| 0 <= i < j < r.len() implies !goes_before(
        #[trigger] r[j],
        #[trigger] r[i],
        descending,
    ) by {
        if j < p {
            assert(r[i] == s[i] && r[j] == s[j]);
        } else if j == p {
            assert(r[i] == s[i]);
        } else if i == p {
            assert(r[j] == s[j - 1]);
            if j - 1 > p {
                assert(!goes_before(s[j - 1], s[p], descending));
            }
        } else if i < p {
            assert(r[i] == s[i] && r[j] == s[j - 1]);
        } else {
            assert(r[i] == s[i - 1] && r[j] == s[j - 1]);
        }
    }
}

/// Sorting rearranges: the result is in order and holds the same tasks, each
/// as often as before.
pub proof fn lemma_sorted_by_urgency(s: Seq<Task>, descending: bool)
    ensures
        in_order(sorted_by_urgency(s, descending), descending),
        sorted_by_urgency(s, descending).to_multiset() == s.to_multiset(),
        sorted_by_urgency(s, descending).len() == s.len(),
    decreases s.len(),
{
    if s.len() > 0 {
        let front = s.drop_last();
        lemma_sorted_by_urgency(front, descending);
        lemma_insert_task(sorted_by_urgency(front, descending), s.last(), descending);
        assert(front.push(s.last()) =~= s);
        vstd::seq_lib::to_multiset_build(front, s.last());
    }
}

/// The tasks that the list shows, and which of them is selected.
#[derive(Debug)]
pub struct TaskList {
    pub tasks: Vec<Task>,
    pub state: ListState,
}

impl TaskList {
    /// The selection points at a task of the list, or at nothing.
    pub open spec fn selection_valid(&self) -> bool {
        self.state.selected matches Some(row) ==> row < self.tasks@.len()
    }

    /// A list without tasks and with nothing selected.
    pub fn new() -> (list: TaskList)
        ensures
            list.tasks@.len() == 0,
            list.state.selected is None,
    {
        TaskList { tasks: Vec::new(), state: ListState::default() }
    }

    /// The list of the given tasks, in their order, with nothing selected.
    pub fn from(tasks: Vec<Task>) -> (list: TaskList)
        ensures
            list.tasks == tasks,
            list.state.selected is None,
    {
        TaskList { tasks, state: ListState::default() }
    }

    /// The number of tasks in the list.
    pub fn len(&self) -> (n: usize)
        ensures
            n == self.tasks@.len(),
    {
        self.tasks.len()
    }

    /// Sorts the tasks by urgency: the most urgent first if `descending`, the
    /// least urgent first otherwise. Among tasks of one urgency the most
    /// urgent first goes with the newest first, the least urgent first with
    /// the oldest first. Tasks that tie in both keep their order. The
    /// selection stays as it is.
    pub fn sort_by_urgency(&mut self, descending: bool)
        ensures
            final(self).tasks@ == sorted_by_urgency(old(self).tasks@, descending),
            in_order(final(self).tasks@, descending),
            final(self).tasks@.to_multiset() == old(self).tasks@.to_multiset(),
            final(self).state == old(self).state,
    {
        let mut unsorted: Vec<Task> = Vec::new();
        core::mem::swap(&mut self.tasks, &mut unsorted);
        let ghost all = unsorted@;
        proof {
            lemma_sorted_by_urgency(all, descending);
        }
        for task in it: unsorted.into_iter()
            invariant
                it.seq() == all,
                self.tasks@ == sorted_by_urgency(all.take(it.index() as int), descending),
                self.state == old(self).state,
        {
            let ghost done = self.tasks@;
            let ghost place = lemma_insert_task_place(done, task, descending);
            let n = self.tasks.len();
            let mut p: usize = 0;
            while p < n && !shown_above(&task, &self.tasks[p], descending)
                invariant
                    p <= n,
                    n == self.tasks@.len(),
                    self.tasks@ == done,
                    forall|k: int| 0 <= k < p ==> !goes_before(task, #[trigger] done[k], descending),
                decreases n - p,
            {
                p += 1;
            }
            assert(p == place) by {
                if p < place {
                    assert(!goes_before(task, done[p as int], descending));
                }
                if place < p {
                    assert(!goes_before(task, done[place], descending));
                }
            }
            self.tasks.insert(p, task);
            proof {
                let i = it.index() as int;
                assert(all.take(i + 1).drop_last() =~= all.take(i));
                assert(all.take(i + 1).last() == task);
            }
        }
        assert(all.take(all.len() as int) =~= all);
    }

    /// Keeps the tasks that the list shows under the given filters, in their
    /// order, and drops the others. A task is shown if its status passes the
    /// display filter (without one, if it is not completed) and, where
    /// `tags_filter` is not empty, if one of its tags has that text in it.
    /// The selection stays as it is.
    pub fn filter_tasks(&mut self, display_option: Option<Display>, tags_filter: String)
        ensures
            final(self).tasks@ == old(self).tasks@.filter(
                |t: Task| t@.shown(display_option, tags_filter@),
            ),
            final(self).state == old(self).state,
    {
        let mut all_tasks: Vec<Task> = Vec::new();
        core::mem::swap(&mut self.tasks, &mut all_tasks);
        let ghost all = all_tasks@;
        let ghost keep = |t: Task| t@.shown(display_option, tags_filter@);
        proof {
            reveal(Seq::filter);
            assert(all.take(0).filter(keep) =~= Seq::<Task>::empty());
        }
        for task in it: all_tasks.into_iter()
            invariant
                it.seq() == all,
                keep == (|t: Task| t@.shown(display_option, tags_filter@)),
                self.tasks@ == all.take(it.index() as int).filter(keep),
                self.state == old(self).state,
        {
            proof {
                let i = it.index() as int;
                assert(all.take(i + 1) =~= all.take(i).push(task));
                all.take(i).lemma_filter_push(task, keep);
            }
            if task.is_shown(display_option, tags_filter.as_str()) {
                self.tasks.push(task);
            }
        }
        assert(all.take(all.len() as int) =~= all);
    }

    /// Brings the selection into the list: nothing is selected in an empty
    /// list, and a row past the end becomes the last row.
    pub fn clamp_selection(&mut self)
        ensures
            final(self).tasks == old(self).tasks,
            final(self).state.selected == selection_within(
                old(self).state.selected,
                old(self).tasks@.len(),
            ),
            final(self).selection_valid(),
    {
        match self.state.selected {
            None => {},
            Some(row) => {
                let n = self.tasks.len();
                if n == 0 {
                    self.state.selected = None;
                } else if row >= n {
                    self.state.selected = Some(n - 1);
                }
            },
        }
    }

    /// Selects the row `index` if the list has it, the last row if `index`
    /// lies past the end, and nothing if the list is empty or `index` is
    /// `None`.
    pub fn select(&mut self, index: Option<usize>)
        ensures
            final(self).tasks == old(self).tasks,
            final(self).state.selected == selection_within(index, old(self).tasks@.len()),
            final(self).selection_valid(),
    {
        self.state.selected = index;
        self.clamp_selection();
    }

    /// The selected task, if a task is selected.
    pub fn selected_task(&self) -> (task: Option<&Task>)
        ensures
            match self.state.selected {
                Some(row) if row < self.tasks@.len() => task == Some(&self.tasks@[row as int]),
                _ => task is None,
            },
    {
        match self.state.selected {
            Some(row) => {
                if row < self.tasks.len() {
                    Some(&self.tasks[row])
                } else {
                    None
                }
            },
            None => None,
        }
    }

    /// The first row at which the task with identifier `id` stands, if the
    /// list has such a task.
    pub fn position_of(&self, id: u128) -> (row: Option<usize>)
        ensures
            row matches Some(r) ==> r < self.tasks@.len() && self.tasks@[r as int].id == id,
            row matches Some(r) ==> forall|k: int|
                0 <= k < r ==> (#[trigger] self.tasks@[k]).id != id,
            row is None ==> forall|k: int|
                0 <= k < self.tasks@.len() ==> (#[trigger] self.tasks@[k]).id != id,
    {
        let mut i: usize = 0;
        while i < self.tasks.len()
            invariant
                i <= self.tasks.len(),
                forall|k: int| 0 <= k < i ==> (#[trigger] self.tasks@[k]).id != id,
            decreases self.tasks.len() - i,
        {
            if self.tasks[i].id == id {
                return Some(i);
            }
            i += 1;
        }
        None
    }
}

/// Whether `a` is shown above `b`.
pub fn shown_above(a: &Task, b: &Task, descending: bool) -> (above: bool)
    ensures
        above == goes_before(*a, *b, descending),
{
    let ua = a.urgency.level();
    let ub = b.urgency.level();
    if descending {
        ua > ub || (ua == ub && a.date_added.is_after(&b.date_added))
    } else {
        ua < ub || (ua == ub && b.date_added.is_after(&a.date_added))
    }
}

} // verus!
