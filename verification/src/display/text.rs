//! Editing one line of text in place.
//!
//! An input field is a string together with a `TextInfo`: a cursor, and
//! optionally a highlighted range that the next edit replaces. All positions
//! count characters. A position that lies outside the text is read as the
//! nearest position inside it, so no operation can fail.

use crate::strings::{from_chars, to_chars};
use vstd::prelude::*;

verus! {

/// A highlighted range: where it was started, and how far the cursor has
/// moved from there since. A negative distance is a range that was extended
/// to the left. A distance at the limit of its 32 bits stands for every way
/// that is at least as long: it reaches to the end of the text, or, if it is
/// negative, to its start.
#[derive(Clone, Copy, Debug, PartialEq, Eq, Structural)]
pub struct HighLightInfo {
    pub start: usize,
    pub distance: i32,
}

/// The cursor of an input field and its highlighted range, if one is active.
#[derive(Clone, Copy, Debug, PartialEq, Eq, Structural)]
pub struct TextInfo {
    pub character_index: usize,
    pub is_text_highlighted: bool,
    pub highlight_info: HighLightInfo,
}

/// The direction in which a highlighted range is extended.
#[derive(Clone, Copy, Debug, PartialEq, Eq, Structural)]
pub enum HighlightDirection {
    Left,
    Right,
}

/// The position of a text of `len` characters that is nearest to `i`.
pub open spec fn clamp_to(i: int, len: nat) -> int {
    if i < 0 {
        0
    } else if i > len {
        len as int
    } else {
        i
    }
}

/// The 32-bit distance that is nearest to `d`.
pub open spec fn saturate_i32(d: int) -> i32 {
    if d > i32::MAX {
        i32::MAX
    } else if d < i32::MIN {
        i32::MIN
    } else {
        d as i32
    }
}

impl TextInfo {
    /// Where the cursor stands in a text of `len` characters: at its index,
    /// or at the end of the text if the index lies behind it.
    pub open spec fn cursor_in(self, len: nat) -> int {
        clamp_to(self.character_index as int, len)
    }

    /// Where the highlighted range ends that began at the start: at the start
    /// plus the signed distance, read as a position of the text; at the end
    /// of the text for the largest distance, and at the start of the text
    /// for the smallest.
    pub open spec fn far_end_in(self, len: nat) -> int {
        if self.highlight_info.distance == i32::MAX {
            len as int
        } else if self.highlight_info.distance == i32::MIN {
            0
        } else {
            clamp_to(self.highlight_info.start + self.highlight_info.distance, len)
        }
    }

    /// The two ends of the range that the highlight describes in a text of
    /// `len` characters, in order: the smaller and the larger of the start,
    /// read as a position of the text, and of `far_end_in`.
    pub open spec fn selection_in(self, len: nat) -> (int, int) {
        let anchor = clamp_to(self.highlight_info.start as int, len);
        let other = self.far_end_in(len);
        if anchor <= other {
            (anchor, other)
        } else {
            (other, anchor)
        }
    }

    /// The range that the next edit replaces in a text of `len` characters:
    /// the highlighted range if one is active, the empty range at the cursor
    /// if not.
    pub open spec fn span_in(self, len: nat) -> (int, int) {
        if self.is_text_highlighted {
            self.selection_in(len)
        } else {
            (self.cursor_in(len), self.cursor_in(len))
        }
    }
}

/// A text and the state of its cursor: what an input field is to the editing
/// operations.
pub struct TextState {
    pub text: Seq<char>,
    pub info: TextInfo,
}

/// One editing operation.
pub enum EditOp {
    InsertChar(char),
    DeleteBackward,
    MoveLeft,
    MoveRight,
    ExtendSelection(HighlightDirection),
    SelectAll,
}

impl TextState {
    /// The cursor lies within the text.
    pub open spec fn cursor_in_bounds(self) -> bool {
        self.info.character_index <= self.text.len()
    }

    /// Where the cursor stands, read as a position of the text.
    pub open spec fn cursor(self) -> int {
        self.info.cursor_in(self.text.len())
    }

    /// The two ends of the highlighted range, in order.
    pub open spec fn selection(self) -> (int, int) {
        self.info.selection_in(self.text.len())
    }

    /// The range that the next edit replaces: the highlighted range if one is
    /// active, the empty range at the cursor if not.
    pub open spec fn span(self) -> (int, int) {
        self.info.span_in(self.text.len())
    }

    /// The text with the characters from `from` up to `to` taken out and
    /// `put` in their place.
    pub open spec fn replaced(self, from: int, to: int, put: Seq<char>) -> Seq<char> {
        self.text.subrange(0, from) + put + self.text.subrange(to, self.text.len() as int)
    }

    /// Whether the text can take one character more in place of the range
    /// that the next edit replaces: it can unless what is left of it has as
    /// many characters as a machine number can count.
    pub open spec fn has_room(self) -> bool {
        self.text.len() - (self.span().1 - self.span().0) < usize::MAX
    }

    /// Typing `c`: the highlighted range, if any, is replaced by `c`;
    /// otherwise `c` goes in at the cursor. The cursor ends behind `c` and
    /// nothing is highlighted. A text without room stays as it is, and its
    /// cursor as well; only the highlight goes.
    pub open spec fn insert_char(self, c: char) -> TextState {
        let (from, to) = self.span();
        if self.has_room() {
            TextState {
                text: self.replaced(from, to, seq![c]),
                info: TextInfo {
                    character_index: (from + 1) as usize,
                    is_text_highlighted: false,
                    highlight_info: self.info.highlight_info,
                },
            }
        } else {
            TextState {
                text: self.text,
                info: TextInfo {
                    character_index: self.info.character_index,
                    is_text_highlighted: false,
                    highlight_info: self.info.highlight_info,
                },
            }
        }
    }

    /// Backspace: the highlighted range, if any, is removed and the cursor
    /// goes to where it began; otherwise the character before the cursor is
    /// removed, if there is one, and the cursor steps back.
    pub open spec fn delete_backward(self) -> TextState {
        let (from, to) = if self.info.is_text_highlighted {
            self.selection()
        } else if self.cursor() > 0 {
            (self.cursor() - 1, self.cursor())
        } else {
            (0, 0)
        };
        TextState {
            text: self.replaced(from, to, Seq::empty()),
            info: TextInfo {
                character_index: from as usize,
                is_text_highlighted: false,
                highlight_info: self.info.highlight_info,
            },
        }
    }

    /// Cursor left: onto the start of the highlighted range if one is active,
    /// else one character to the left, if there is one.
    pub open spec fn move_left(self) -> TextState {
        let to = if self.info.is_text_highlighted {
            self.selection().0
        } else {
            clamp_to(self.cursor() - 1, self.text.len())
        };
        TextState {
            text: self.text,
            info: TextInfo {
                character_index: to as usize,
                is_text_highlighted: false,
                highlight_info: self.info.highlight_info,
            },
        }
    }

    /// Cursor right: onto the end of the highlighted range if one is active,
    /// else one character to the right, if there is one.
    pub open spec fn move_right(self) -> TextState {
        let to = if self.info.is_text_highlighted {
            self.selection().1
        } else {
            clamp_to(self.cursor() + 1, self.text.len())
        };
        TextState {
            text: self.text,
            info: TextInfo {
                character_index: to as usize,
                is_text_highlighted: false,
                highlight_info: self.info.highlight_info,
            },
        }
    }

    /// Extending the highlighted range by one character. A range that is not
    /// active yet starts at the cursor. The cursor then moves one character
    /// in the given direction, if there is one, and the distance becomes the
    /// way from the start of the range to the cursor.
    pub open spec fn extend_selection(self, direction: HighlightDirection) -> TextState {
        let start = if self.info.is_text_highlighted {
            self.info.highlight_info.start
        } else {
            self.cursor() as usize
        };
        let to = match direction {
            HighlightDirection::Left => clamp_to(self.cursor() - 1, self.text.len()),
            HighlightDirection::Right => clamp_to(self.cursor() + 1, self.text.len()),
        };
        TextState {
            text: self.text,
            info: TextInfo {
                character_index: to as usize,
                is_text_highlighted: true,
                highlight_info: HighLightInfo { start, distance: saturate_i32(to - start) },
            },
        }
    }

    /// Highlighting the whole text: the range starts at 0 and runs over the
    /// length of the text, and the cursor goes to 0.
    pub open spec fn select_all(self) -> TextState {
        TextState {
            text: self.text,
            info: TextInfo {
                character_index: 0,
                is_text_highlighted: true,
                highlight_info: HighLightInfo {
                    start: 0,
                    distance: saturate_i32(self.text.len() as int),
                },
            },
        }
    }

    /// The state after one operation.
    pub open spec fn apply(self, op: EditOp) -> TextState {
        match op {
            EditOp::InsertChar(c) => self.insert_char(c),
            EditOp::DeleteBackward => self.delete_backward(),
            EditOp::MoveLeft => self.move_left(),
            EditOp::MoveRight => self.move_right(),
            EditOp::ExtendSelection(direction) => self.extend_selection(direction),
            EditOp::SelectAll => self.select_all(),
        }
    }

    /// The state after a sequence of operations, the first of them first.
    pub open spec fn apply_all(self, ops: Seq<EditOp>) -> TextState
        decreases ops.len(),
    {
        if ops.len() == 0 {
            self
        } else {
            self.apply_all(ops.drop_last()).apply(ops.last())
        }
    }
}

/// Whatever state an input field is in, after any one operation the cursor
/// lies within the text, and the text has grown by one character at most.
pub proof fn lemma_edit_keeps_cursor_in_bounds(state: TextState, op: EditOp)
    ensures
        state.apply(op).cursor_in_bounds(),
        state.apply(op).text.len() <= state.text.len() + 1,
{
}

/// After every operation of any sequence of operations on any text the cursor
/// lies between 0 and the number of characters of the text.
pub proof fn lemma_edits_keep_cursor_in_bounds(state: TextState, ops: Seq<EditOp>)
    ensures
        forall|k: int|
            1 <= k <= ops.len() ==> (#[trigger] state.apply_all(ops.take(k))).cursor_in_bounds(),
        state.apply_all(ops).text.len() <= state.text.len() + ops.len(),
    decreases ops.len(),
{
    if ops.len() > 0 {
        let front = ops.drop_last();
        lemma_edits_keep_cursor_in_bounds(state, front);
        lemma_edit_keeps_cursor_in_bounds(state.apply_all(front), ops.last());
        assert forall|k: int| 1 <= k <= ops.len() implies (#[trigger] state.apply_all(
            ops.take(k),
        )).cursor_in_bounds() by {
            if k < ops.len() {
                assert(ops.take(k) =~= front.take(k));
            } else {
                assert(ops.take(k) =~= ops);
            }
        }
    }
}

/// Highlighting the whole text and then typing a character leaves that
/// character as the whole text, with the cursor behind it, whatever the text
/// was and wherever its cursor stood.
pub proof fn lemma_select_all_then_insert(state: TextState, c: char)
    ensures
        state.select_all().insert_char(c).text == seq![c],
        state.select_all().insert_char(c).info.character_index == 1,
        !state.select_all().insert_char(c).info.is_text_highlighted,
{
    let all = state.select_all();
    assert(all.selection() == (0int, state.text.len() as int));
    assert(all.insert_char(c).text =~= seq![c]);
}

/// The characters of `chars` with those from `from` up to `to` taken out and
/// `put`, if there is one, in their place.
fn splice(chars: &Vec<char>, from: usize, to: usize, put: Option<char>) -> (out: String)
    requires
        from <= to <= chars@.len(),
    ensures
        out@ == chars@.subrange(0, from as int) + (match put {
            Some(c) => seq![c],
            None => Seq::empty(),
        }) + chars@.subrange(to as int, chars@.len() as int),
{
    let mut kept: Vec<char> = Vec::new();
    let mut i: usize = 0;
    while i < from
        invariant
            i <= from <= to <= chars@.len(),
            kept@ == chars@.subrange(0, i as int),
        decreases from - i,
    {
        kept.push(chars[i]);
        assert(kept@ =~= chars@.subrange(0, i + 1));
        i += 1;
    }
    match put {
        Some(c) => {
            kept.push(c);
        },
        None => {},
    }
    let ghost head = kept@;
    let mut j: usize = to;
    while j < chars.len()
        invariant
            to <= j <= chars@.len(),
            kept@ == head + chars@.subrange(to as int, j as int),
        decreases chars.len() - j,
    {
        kept.push(chars[j]);
        assert(kept@ =~= head + chars@.subrange(to as int, j + 1));
        j += 1;
    }
    let out = from_chars(&kept);
    assert(out@ =~= chars@.subrange(0, from as int) + (match put {
        Some(c) => seq![c],
        None => Seq::empty(),
    }) + chars@.subrange(to as int, chars@.len() as int));
    out
}

/// The input field that a text and its cursor make up.
pub open spec fn field(text: Seq<char>, info: TextInfo) -> TextState {
    TextState { text, info }
}

impl TextInfo {
    /// A cursor at the start of the text, with nothing highlighted.
    pub fn new() -> (info: Self)
        ensures
            info.character_index == 0,
            !info.is_text_highlighted,
            info.highlight_info.start == 0,
            info.highlight_info.distance == 0,
    {
        Self {
            character_index: 0,
            is_text_highlighted: false,
            highlight_info: HighLightInfo { start: 0, distance: 0 },
        }
    }

    /// Where the cursor stands in a text of `len` characters.
    pub fn cursor_within(&self, len: usize) -> (at: usize)
        ensures
            at == self.cursor_in(len as nat),
            at <= len,
    {
        if self.character_index > len {
            len
        } else {
            self.character_index
        }
    }

    /// The two ends of the highlighted range in a text of `len` characters,
    /// the smaller first.
    pub fn selection_bounds(&self, len: usize) -> (ends: (usize, usize))
        ensures
            (ends.0 as int, ends.1 as int) == self.selection_in(len as nat),
            ends.0 <= ends.1 <= len,
    {
        let start = self.highlight_info.start;
        let distance = self.highlight_info.distance;
        let anchor = if start > len {
            len
        } else {
            start
        };
        let other = if distance == i32::MAX {
            len
        } else if distance == i32::MIN {
            0
        } else if distance >= 0 {
            let right = distance as usize;
            if start >= len || right >= len - start {
                len
            } else {
                start + right
            }
        } else {
            let left = (-(distance as i64)) as usize;
            if left >= start {
                0
            } else if start - left > len {
                len
            } else {
                start - left
            }
        };
        if anchor <= other {
            (anchor, other)
        } else {
            (other, anchor)
        }
    }

    /// The range that the next edit replaces in a text of `len` characters.
    pub fn edit_bounds(&self, len: usize) -> (ends: (usize, usize))
        ensures
            (ends.0 as int, ends.1 as int) == self.span_in(len as nat),
            ends.0 <= ends.1 <= len,
    {
        if self.is_text_highlighted {
            self.selection_bounds(len)
        } else {
            let at = self.cursor_within(len);
            (at, at)
        }
    }

    /// Types `c` into `text`: the highlighted range, if any, is replaced by
    /// `c`; otherwise `c` goes in at the cursor. The cursor ends behind `c`
    /// and nothing is highlighted. A text that has no room for a character
    /// more stays as it is.
    pub fn insert_char(&mut self, text: &mut String, c: char)
        ensures
            field(final(text)@, *final(self)) == field(old(text)@, *old(self)).insert_char(c),
            final(self).character_index <= final(text)@.len(),
    {
        let chars = to_chars(text.as_str());
        let len = chars.len();
        let (from, to) = self.edit_bounds(len);
        if len - (to - from) < usize::MAX {
            *text = splice(&chars, from, to, Some(c));
            self.character_index = from + 1;
        }
        self.is_text_highlighted = false;
    }

    /// Backspace in `text`: the highlighted range, if any, is removed and the
    /// cursor goes to where it began; otherwise the character before the
    /// cursor is removed, if there is one, and the cursor steps back.
    pub fn delete_backward(&mut self, text: &mut String)
        ensures
            field(final(text)@, *final(self)) == field(old(text)@, *old(self)).delete_backward(),
            final(self).character_index <= final(text)@.len(),
    {
        let chars = to_chars(text.as_str());
        let len = chars.len();
        let (from, to) = if self.is_text_highlighted {
            self.selection_bounds(len)
        } else {
            let at = self.cursor_within(len);
            if at > 0 {
                (at - 1, at)
            } else {
                (0, 0)
            }
        };
        *text = splice(&chars, from, to, None);
        self.character_index = from;
        self.is_text_highlighted = false;
    }

    /// Moves the cursor left in `text`: onto the start of the highlighted
    /// range if one is active, else one character to the left, if there is
    /// one. Nothing is highlighted afterwards.
    pub fn move_left(&mut self, text: &str)
        ensures
            field(text@, *final(self)) == field(text@, *old(self)).move_left(),
            final(self).character_index <= text@.len(),
    {
        let len = text.unicode_len();
        let to = if self.is_text_highlighted {
            self.selection_bounds(len).0
        } else {
            self.cursor_within(len).saturating_sub(1)
        };
        self.character_index = to;
        self.is_text_highlighted = false;
    }

    /// Moves the cursor right in `text`: onto the end of the highlighted
    /// range if one is active, else one character to the right, if there is
    /// one. Nothing is highlighted afterwards.
    pub fn move_right(&mut self, text: &str)
        ensures
            field(text@, *final(self)) == field(text@, *old(self)).move_right(),
            final(self).character_index <= text@.len(),
    {
        let len = text.unicode_len();
        let to = if self.is_text_highlighted {
            self.selection_bounds(len).1
        } else {
            let at = self.cursor_within(len);
            if at < len {
                at + 1
            } else {
                len
            }
        };
        self.character_index = to;
        self.is_text_highlighted = false;
    }

    /// Extends the highlighted range in `text` by one character. A range that
    /// is not active yet starts at the cursor. The cursor then moves one
    /// character in the given direction, if there is one, and the distance
    /// becomes the way from the start of the range to the cursor.
    pub fn extend_selection(&mut self, text: &str, direction: HighlightDirection)
        ensures
            field(text@, *final(self)) == field(text@, *old(self)).extend_selection(direction),
            final(self).character_index <= text@.len(),
    {
        let len = text.unicode_len();
        let at = self.cursor_within(len);
        if !self.is_text_highlighted {
            self.is_text_highlighted = true;
            self.highlight_info.start = at;
        }
        let to = match direction {
            HighlightDirection::Left => at.saturating_sub(1),
            HighlightDirection::Right => if at < len {
                at + 1
            } else {
                len
            },
        };
        self.character_index = to;
        self.highlight_info.distance = signed_distance(self.highlight_info.start, to);
    }

    /// Highlights the whole of `text`: the range starts at 0 and runs over
    /// the length of the text, and the cursor goes to 0.
    pub fn select_all(&mut self, text: &str)
        ensures
            field(text@, *final(self)) == field(text@, *old(self)).select_all(),
            final(self).character_index <= text@.len(),
    {
        let len = text.unicode_len();
        self.is_text_highlighted = true;
        self.highlight_info.start = 0;
        self.highlight_info.distance = signed_distance(0, len);
        self.character_index = 0;
    }
}

/// The way from `start` to `to` as a 32-bit distance: negative where `to`
/// lies before `start`, and the nearest 32-bit number where the way is longer
/// than such a number can say.
pub fn signed_distance(start: usize, to: usize) -> (distance: i32)
    ensures
        distance == saturate_i32(to - start),
{
    if to >= start {
        let way = to - start;
        if way > 0x7fff_ffff {
            i32::MAX
        } else {
            way as i32
        }
    } else {
        let way = start - to;
        if way > 0x7fff_ffff {
            i32::MIN
        } else {
            -(way as i32)
        }
    }
}

} // verus!
