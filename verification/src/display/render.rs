//! What painting needs of the wrapped text: the rows as a map from row index
//! to tokens, and the cell of the screen at which the cursor is shown.

use crate::display::tui::{App, CursorInfo};
use crate::display::wrap::{
    clamp_index, cursor_cell, flattened, joined, lemma_locate_round_trip, lemma_wrap_keeps_text,
    lines_of, locate, rows_increasing, wrap, wrap_lines, Line, LineModel,
};
use crate::strings::texts;
use std::collections::BTreeMap;
use vstd::prelude::*;

verus! {

/// The rows as a map from row index to tokens. Where two rows have one index
/// the later row stands.
pub open spec fn lines_by_row(lines: Seq<LineModel>) -> Map<usize, Seq<Seq<char>>>
    decreases lines.len(),
{
    if lines.len() == 0 {
        Map::empty()
    } else {
        lines_by_row(lines.drop_last()).insert(lines.last().row as usize, lines.last().words)
    }
}

/// In rows whose indices grow and fit a machine number, the map holds each
/// row under its index.
pub proof fn lemma_lines_by_row(lines: Seq<LineModel>, k: int)
    requires
        rows_increasing(lines),
        lines.len() >= 1,
        lines.last().row <= usize::MAX,
        0 <= k < lines.len(),
    ensures
        lines_by_row(lines).contains_key(lines[k].row as usize),
        lines_by_row(lines)[lines[k].row as usize] == lines[k].words,
    decreases lines.len(),
{
    let last = lines.len() - 1;
    if k < last {
        let front = lines.drop_last();
        assert(front[k] == lines[k]);
        assert(front.last() == lines[last - 1]);
        assert(lines[last - 1].row < lines[last].row || last - 1 == k);
        assert(lines[k].row < lines[last].row);
        assert(rows_increasing(front)) by {
            assert forall|i: int, j: int| 0 <= i < j < front.len() implies (
            #[trigger] front[i]).row < (#[trigger] front[j]).row by {
                assert(front[i] == lines[i]);
                assert(front[j] == lines[j]);
            }
        }
        if last - 1 > k {
            assert(lines[k].row < lines[last - 1].row);
        }
        lemma_lines_by_row(front, k);
    }
}

/// What a map from row index to tokens holds.
pub open spec fn rows_of(map: Map<usize, Vec<String>>) -> Map<usize, Seq<Seq<char>>> {
    Map::new(|row: usize| map.contains_key(row), |row: usize| texts(map[row]@))
}

/// Wraps `string` into rows of `width_of_space` columns. Returns the rows as
/// a map from row index to the tokens of the row, and the index of the last
/// row. With the width 0 the map has the one row 0, which holds the whole
/// text.
pub fn map_string_to_lines(string: String, width_of_space: u16) -> (out: (
    BTreeMap<usize, Vec<String>>,
    usize,
))
    ensures
        rows_of(out.0@) == lines_by_row(wrap(string@, width_of_space as nat).lines),
        out.1 == wrap(string@, width_of_space as nat).lines.last().row,
{
    let (lines, latest) = wrap_lines(string.as_str(), width_of_space);
    let ghost all = lines_of(lines@);
    let mut map: BTreeMap<usize, Vec<String>> = BTreeMap::new();
    proof {
        assert(rows_of(map@) =~= lines_by_row(all.take(0)));
    }
    for line in it: lines.into_iter()
        invariant
            lines_of(it.seq()) == all,
            rows_of(map@) == lines_by_row(all.take(it.index() as int)),
    {
        let ghost before = map@;
        let ghost i = it.index() as int;
        let Line { row, words } = line;
        map.insert(row, words);
        proof {
            assert(all.take(i + 1).drop_last() =~= all.take(i));
            assert(all.take(i + 1).last() == line@);
            assert(map@ == before.insert(row, words));
            assert(rows_of(map@) =~= rows_of(before).insert(row, texts(words@)));
        }
    }
    proof {
        assert(all.take(all.len() as int) =~= all);
    }
    (map, latest)
}

/// A rectangle of the screen: its top left cell and its size.
#[derive(Clone, Copy, Debug, PartialEq, Eq, Structural)]
pub struct Rect {
    pub x: u16,
    pub y: u16,
    pub width: u16,
    pub height: u16,
}

/// The 16-bit number that is nearest to `n`.
pub open spec fn saturate_u16(n: int) -> u16 {
    if n > u16::MAX {
        u16::MAX
    } else if n < 0 {
        0
    } else {
        n as u16
    }
}

impl Rect {
    /// The column of the left edge.
    pub fn left(&self) -> (column: u16)
        ensures
            column == self.x,
    {
        self.x
    }

    /// The column behind the right edge, as far as a 16-bit number holds it.
    pub fn right(&self) -> (column: u16)
        ensures
            column == saturate_u16(self.x + self.width),
    {
        self.x.saturating_add(self.width)
    }

    /// The row of the top edge.
    pub fn top(&self) -> (row: u16)
        ensures
            row == self.y,
    {
        self.y
    }
}

/// The 16-bit number that is nearest to `n`.
pub fn to_u16(n: usize) -> (m: u16)
    ensures
        m == saturate_u16(n as int),
{
    if n > 0xffff {
        u16::MAX
    } else {
        n as u16
    }
}

impl App {
    /// The cell at which the cursor is shown when the text of the field that
    /// is edited is painted into `area`, `x_offset` columns from its left edge
    /// and `y_offset` rows from its top, wrapped at its right edge: the row
    /// and the column that the lookup in the wrapped text gives for the
    /// cursor, counted from where the text begins. No cursor is shown while a
    /// range is highlighted, nor where the text has no room.
    pub open spec fn cursor_outcome(
        self,
        area: Rect,
        text: Seq<char>,
        x_offset: u16,
        y_offset: u16,
    ) -> Option<(u16, u16)> {
        let start_x = saturate_u16(area.x + x_offset);
        let end_x = saturate_u16(area.x + area.width);
        let start_y = saturate_u16(area.y + y_offset);
        if self.text_info.is_text_highlighted || end_x <= start_x {
            None
        } else {
            let lines = wrap(text, (end_x - start_x) as nat).lines;
            let (at, col) = locate(lines, clamp_index(self.text_info.character_index, text.len()));
            Some((saturate_u16(start_x + col), saturate_u16(start_y + lines[at].row)))
        }
    }

    /// Works out the cell at which the cursor is to be shown and keeps it.
    /// Returns the cell, column first, or nothing if no cursor is to be
    /// shown; the cell that was kept before then stays.
    pub fn text_cursor_logic(
        &mut self,
        area: Rect,
        current_string: &str,
        x_offset: u16,
        y_offset: u16,
    ) -> (cell: Option<(u16, u16)>)
        ensures
            cell == old(self).cursor_outcome(area, current_string@, x_offset, y_offset),
            *final(self) == (match cell {
                Some((x, y)) => App { cursor_info: CursorInfo { x, y }, ..*old(self) },
                None => *old(self),
            }),
    {
        if self.text_info.is_text_highlighted {
            return None;
        }
        let text_start_x = area.left().saturating_add(x_offset);
        let text_end_x = area.right();
        let text_start_y = area.top().saturating_add(y_offset);
        if text_end_x <= text_start_x {
            return None;
        }
        let text_width = text_end_x - text_start_x;
        let (row, column) = cursor_cell(
            current_string,
            text_width,
            self.text_info.character_index,
        );
        let x = text_start_x.saturating_add(to_u16(column));
        let y = text_start_y.saturating_add(to_u16(row));
        self.cursor_info = CursorInfo { x, y };
        Some((x, y))
    }
}

/// The cell at which the cursor is shown agrees with the wrapped text, for
/// every session, area, text and offsets. No cursor is shown exactly while a
/// range is highlighted or the text has no room. Where one is shown, take the
/// cursor index, or the length of the text if the index lies behind it. The
/// lookup of that index ends on a row that the map of the rows holds under
/// its number, at a column of that row. The rows before it, and the first
/// columns of that row up to the column, together show the text before the
/// index, character by character. Behind the first character the column is 1
/// at least. The cell is the 16-bit number nearest to the column where the
/// text begins plus that column, and the 16-bit number nearest to the row
/// where the text begins plus the number of that row.
pub proof fn lemma_cursor_cell_agrees(
    app: App,
    area: Rect,
    text: Seq<char>,
    x_offset: u16,
    y_offset: u16,
)
    ensures
        ({
            let start_x = saturate_u16(area.x + x_offset);
            let start_y = saturate_u16(area.y + y_offset);
            let end_x = saturate_u16(area.x + area.width);
            let lines = wrap(text, (end_x - start_x) as nat).lines;
            let index = clamp_index(app.text_info.character_index, text.len());
            let (at, col) = locate(lines, index);
            match app.cursor_outcome(area, text, x_offset, y_offset) {
                None => app.text_info.is_text_highlighted || end_x <= start_x,
                Some(cell) => {
                    &&& !app.text_info.is_text_highlighted
                    &&& start_x < end_x
                    &&& 0 <= at < lines.len()
                    &&& lines_by_row(lines).contains_key(lines[at].row as usize)
                    &&& lines_by_row(lines)[lines[at].row as usize] == lines[at].words
                    &&& col <= joined(lines[at].words).len()
                    &&& flattened(lines.take(at)).len() + col == index
                    &&& flattened(lines.take(at)) + joined(lines[at].words).take(col as int)
                        == text.take(index as int)
                    &&& index > 0 ==> col >= 1
                    &&& cell.0 == saturate_u16(start_x + col)
                    &&& cell.1 == saturate_u16(start_y + lines[at].row)
                },
            }
        }),
{
    let start_x = saturate_u16(area.x + x_offset);
    let end_x = saturate_u16(area.x + area.width);
    if !app.text_info.is_text_highlighted && start_x < end_x {
        let width = (end_x - start_x) as nat;
        let lines = wrap(text, width).lines;
        let index = clamp_index(app.text_info.character_index, text.len());
        lemma_wrap_keeps_text(text, width);
        lemma_locate_round_trip(text, width, index);
        let (at, col) = locate(lines, index);
        lemma_lines_by_row(lines, at);
        assert(lines[at].row <= lines.last().row) by {
            if at < lines.len() - 1 {
                assert(lines[at].row < lines[lines.len() - 1].row);
            }
        }
    }
}

} // verus!
