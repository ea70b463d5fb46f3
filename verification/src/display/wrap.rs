//! Wrapping a text into rows, and finding the row and column of a character.
//!
//! The same wrapping decides what is painted and where the cursor goes, so it
//! is defined once, as a function of the text and the width alone.
//!
//! A row is a list of tokens. A token is a word, a single space, or the
//! overflow mark: a placeholder that takes no room on the screen and stands,
//! once for each of its characters, where a word was begun before it was moved
//! to the next row.

use crate::strings::{push_char, texts, to_chars};
use vstd::prelude::*;

verus! {

/// The token that stands for one space.
pub open spec fn space() -> Seq<char> {
    seq![' ']
}

/// The overflow mark. It holds a space, so no word is equal to it.
pub open spec fn overflow_mark() -> Seq<char> {
    seq!['O', 'V', 'E', 'R', ' ', 'F', 'L', 'O', 'W']
}

/// What a token adds to the running count of characters: its length, and 1
/// for an overflow mark.
pub open spec fn token_cost(token: Seq<char>) -> nat {
    if token == overflow_mark() {
        1
    } else {
        token.len()
    }
}

/// What a token shows on the screen: itself, and nothing for an overflow
/// mark.
pub open spec fn token_shown(token: Seq<char>) -> Seq<char> {
    if token == overflow_mark() {
        Seq::empty()
    } else {
        token
    }
}

/// The running count of a list of tokens.
pub open spec fn words_cost(words: Seq<Seq<char>>) -> nat
    decreases words.len(),
{
    if words.len() == 0 {
        0
    } else {
        words_cost(words.drop_last()) + token_cost(words.last())
    }
}

/// What a list of tokens shows on the screen: the tokens joined, the overflow
/// marks left out.
pub open spec fn joined(words: Seq<Seq<char>>) -> Seq<char>
    decreases words.len(),
{
    if words.len() == 0 {
        Seq::empty()
    } else {
        joined(words.drop_last()) + token_shown(words.last())
    }
}

/// One row of a wrapped text: its row index and its tokens.
pub struct LineModel {
    pub row: nat,
    pub words: Seq<Seq<char>>,
}

/// The running count of a list of rows.
pub open spec fn lines_cost(lines: Seq<LineModel>) -> nat
    decreases lines.len(),
{
    if lines.len() == 0 {
        0
    } else {
        lines_cost(lines.drop_last()) + words_cost(lines.last().words)
    }
}

/// What a list of rows shows, read row after row.
pub open spec fn flattened(lines: Seq<LineModel>) -> Seq<char>
    decreases lines.len(),
{
    if lines.len() == 0 {
        Seq::empty()
    } else {
        flattened(lines.drop_last()) + joined(lines.last().words)
    }
}

/// Some row of `lines` has the index `row`.
pub open spec fn has_row(lines: Seq<LineModel>, row: nat) -> bool {
    exists|k: int| 0 <= k < lines.len() && (#[trigger] lines[k]).row == row
}

/// The count `n` as far as a machine number can hold it.
pub open spec fn saturated(n: nat) -> nat {
    if n > usize::MAX {
        usize::MAX as nat
    } else {
        n
    }
}

/// `count` times the token `token`.
pub open spec fn repeated(token: Seq<char>, count: nat) -> Seq<Seq<char>> {
    Seq::new(count, |i: int| token)
}

/// Where the wrapping stands after some characters: the rows so far, the
/// last of them being the one that is filled, and the word that is being
/// built.
pub struct WrapState {
    pub lines: Seq<LineModel>,
    pub word: Seq<char>,
}

/// The wrapping of the empty text: one empty row with index 0.
pub open spec fn wrap_start() -> WrapState {
    WrapState { lines: seq![LineModel { row: 0, words: Seq::empty() }], word: Seq::empty() }
}

/// The index of the row on which the next character would land when `count`
/// characters are counted so far: the count divided by the width. Rows
/// without any width cannot be told apart by what fits them, so no character
/// lands on another row there: the row is the current one, `current`.
pub open spec fn landing_row(count: nat, width: nat, current: nat) -> nat {
    if width == 0 {
        current
    } else {
        count / width
    }
}

/// The wrapping after one more character.
///
/// A space closes the word and becomes a token of its own; any other
/// character is added to the word, which is the last token of the row. Then
/// the count of all rows is taken, as far as a machine number holds it, and
/// divided by the width: that is the index of the row on which the next
/// character would land. If no row has that index yet, a row with that index
/// is begun. After a space the new row is empty: the space stays where it is.
/// After any other character the word moves to the new row, and in the old
/// row one overflow mark for each character of the word takes its place.
/// With the width 0 no row is ever begun: the whole text stands in row 0.
pub open spec fn wrap_step(state: WrapState, c: char, width: nat) -> WrapState {
    let current = state.lines.last();
    let word = if c == ' ' {
        Seq::empty()
    } else {
        state.word.push(c)
    };
    let words = if c == ' ' {
        current.words.push(space())
    } else if state.word.len() > 0 {
        current.words.drop_last().push(word)
    } else {
        current.words.push(word)
    };
    let front = state.lines.drop_last();
    let lines = front.push(LineModel { row: current.row, words });
    let row = landing_row(saturated(lines_cost(lines)), width, current.row);
    if has_row(lines, row) {
        WrapState { lines, word }
    } else if c == ' ' {
        WrapState { lines: lines.push(LineModel { row, words: Seq::empty() }), word }
    } else {
        let left = LineModel {
            row: current.row,
            words: words.drop_last() + repeated(overflow_mark(), word.len()),
        };
        WrapState { lines: front.push(left).push(LineModel { row, words: seq![word] }), word }
    }
}

/// The wrapping of `text` into rows of the given width.
pub open spec fn wrap(text: Seq<char>, width: nat) -> WrapState
    decreases text.len(),
{
    if text.len() == 0 {
        wrap_start()
    } else {
        wrap_step(wrap(text.drop_last(), width), text.last(), width)
    }
}

/// The text has no space in it.
pub open spec fn spaceless(text: Seq<char>) -> bool {
    forall|i: int| 0 <= i < text.len() ==> text[i] != ' '
}

/// The row indices grow from each row to the next.
pub open spec fn rows_increasing(lines: Seq<LineModel>) -> bool {
    forall|i: int, j: int|
        0 <= i < j < lines.len() ==> (#[trigger] lines[i]).row < (#[trigger] lines[j]).row
}

/// What holds of the wrapping after any number of characters.
pub open spec fn wrap_sound(state: WrapState, width: nat) -> bool {
    &&& state.lines.len() >= 1
    &&& state.lines[0].row == 0
    &&& rows_increasing(state.lines)
    &&& spaceless(state.word)
    &&& state.word.len() > 0 ==> state.lines.last().words.len() > 0
        && state.lines.last().words.last() == state.word
    &&& state.lines.last().row * width <= saturated(lines_cost(state.lines))
    &&& state.lines.last().row <= usize::MAX
}

/// A token more counts what it costs more.
pub proof fn lemma_words_cost_push(words: Seq<Seq<char>>, token: Seq<char>)
    ensures
        words_cost(words.push(token)) == words_cost(words) + token_cost(token),
{
    assert(words.push(token).drop_last() =~= words);
}

/// A token more shows what it shows more.
pub proof fn lemma_joined_push(words: Seq<Seq<char>>, token: Seq<char>)
    ensures
        joined(words.push(token)) == joined(words) + token_shown(token),
{
    assert(words.push(token).drop_last() =~= words);
}

/// A row more counts what its tokens cost more.
pub proof fn lemma_lines_cost_push(lines: Seq<LineModel>, line: LineModel)
    ensures
        lines_cost(lines.push(line)) == lines_cost(lines) + words_cost(line.words),
{
    assert(lines.push(line).drop_last() =~= lines);
}

/// A row more shows what its tokens show more.
pub proof fn lemma_flattened_push(lines: Seq<LineModel>, line: LineModel)
    ensures
        flattened(lines.push(line)) == flattened(lines) + joined(line.words),
{
    assert(lines.push(line).drop_last() =~= lines);
}

/// Overflow marks behind a list of tokens show nothing and count one each.
pub proof fn lemma_marks_appended(words: Seq<Seq<char>>, count: nat)
    ensures
        joined(words + repeated(overflow_mark(), count)) == joined(words),
        words_cost(words + repeated(overflow_mark(), count)) == words_cost(words) + count,
    decreases count,
{
    let marks = repeated(overflow_mark(), count);
    if count == 0 {
        assert(words + marks =~= words);
    } else {
        let fewer = repeated(overflow_mark(), (count - 1) as nat);
        lemma_marks_appended(words, (count - 1) as nat);
        assert(words + marks =~= (words + fewer).push(overflow_mark()));
        lemma_joined_push(words + fewer, overflow_mark());
        lemma_words_cost_push(words + fewer, overflow_mark());
        assert(joined(words) + Seq::<char>::empty() =~= joined(words));
    }
}

/// A word without a space is no overflow mark.
pub proof fn lemma_word_is_no_mark(word: Seq<char>)
    requires
        spaceless(word),
    ensures
        word != overflow_mark(),
        space() != overflow_mark(),
{
    if word == overflow_mark() {
        assert(word[4] == ' ');
    }
    assert(space().len() != overflow_mark().len());
}

/// One more character keeps the wrapping sound and adds that character, and
/// nothing else, to what the rows show.
pub proof fn lemma_wrap_step(state: WrapState, c: char, width: nat)
    requires
        wrap_sound(state, width),
    ensures
        wrap_sound(wrap_step(state, c, width), width),
        flattened(wrap_step(state, c, width).lines) == flattened(state.lines).push(c),
        wrap_step(state, c, width).lines.len() >= state.lines.len(),
{
    let current = state.lines.last();
    let word = if c == ' ' {
        Seq::empty()
    } else {
        state.word.push(c)
    };
    let words = if c == ' ' {
        current.words.push(space())
    } else if state.word.len() > 0 {
        current.words.drop_last().push(word)
    } else {
        current.words.push(word)
    };
    let front = state.lines.drop_last();
    let filled = LineModel { row: current.row, words };
    let lines = front.push(filled);
    let cost = lines_cost(lines);
    let row = landing_row(saturated(cost), width, current.row);
    let next = wrap_step(state, c, width);

    assert(state.lines =~= front.push(current));
    lemma_lines_cost_push(front, current);
    lemma_lines_cost_push(front, filled);
    lemma_flattened_push(front, current);
    lemma_flattened_push(front, filled);
    lemma_word_is_no_mark(state.word);
    assert(spaceless(word));
    lemma_word_is_no_mark(word);

    // What the filled row counts and shows, against the row before.
    if c == ' ' {
        lemma_words_cost_push(current.words, space());
        lemma_joined_push(current.words, space());
    } else if state.word.len() > 0 {
        let before = current.words.drop_last();
        assert(current.words =~= before.push(state.word));
        lemma_words_cost_push(before, state.word);
        lemma_joined_push(before, state.word);
        lemma_words_cost_push(before, word);
        lemma_joined_push(before, word);
        assert(joined(before) + word =~= (joined(before) + state.word).push(c));
    } else {
        lemma_words_cost_push(current.words, word);
        lemma_joined_push(current.words, word);
        assert(joined(current.words) + word =~= joined(current.words).push(c));
    }
    assert(words_cost(words) == words_cost(current.words) + 1);
    assert(joined(words) =~= joined(current.words).push(c));
    assert(cost == lines_cost(state.lines) + 1);
    assert(flattened(lines) =~= flattened(state.lines).push(c));
    assert(rows_increasing(lines)) by {
        assert forall|i: int, j: int| 0 <= i < j < lines.len() implies (#[trigger] lines[i]).row < (
        #[trigger] lines[j]).row by {
            assert(lines[i].row == state.lines[i].row);
            assert(lines[j].row == state.lines[j].row);
        }
    }
    if width > 0 {
        lemma_row_bound(current.row, width, saturated(cost));
        lemma_row_fits(width, saturated(cost));
        assert(saturated(cost) / width <= saturated(cost)) by (nonlinear_arith)
            requires
                width > 0,
        ;
    } else {
        assert(row * width == 0) by (nonlinear_arith)
            requires
                width == 0,
        ;
        assert(lines[lines.len() - 1].row == row);
        assert(has_row(lines, row));
    }
    assert(current.row <= row);
    assert(row * width <= saturated(cost));

    if has_row(lines, row) {
        assert(next.lines == lines);
    } else if c == ' ' {
        let opened = LineModel { row, words: Seq::empty() };
        assert(next.lines == lines.push(opened));
        lemma_lines_cost_push(lines, opened);
        lemma_flattened_push(lines, opened);
        assert(flattened(next.lines) =~= flattened(lines));
        assert(lines[lines.len() - 1].row == current.row);
        assert(row != current.row);
        assert(rows_increasing(next.lines)) by {
            assert forall|i: int, j: int| 0 <= i < j < next.lines.len() implies (
            #[trigger] next.lines[i]).row < (#[trigger] next.lines[j]).row by {
                if j == lines.len() {
                    assert(next.lines[i] == lines[i]);
                    if i < lines.len() - 1 {
                        assert(lines[i].row < lines[lines.len() - 1].row);
                    }
                } else {
                    assert(next.lines[i] == lines[i] && next.lines[j] == lines[j]);
                }
            }
        }
    } else {
        let before = words.drop_last();
        let left = LineModel {
            row: current.row,
            words: before + repeated(overflow_mark(), word.len()),
        };
        let opened = LineModel { row, words: seq![word] };
        assert(next.lines == front.push(left).push(opened));
        assert(words =~= before.push(word));
        lemma_words_cost_push(before, word);
        lemma_joined_push(before, word);
        lemma_marks_appended(before, word.len());
        lemma_lines_cost_push(front, left);
        lemma_flattened_push(front, left);
        lemma_lines_cost_push(front.push(left), opened);
        lemma_flattened_push(front.push(left), opened);
        assert(seq![word] =~= Seq::<Seq<char>>::empty().push(word));
        lemma_words_cost_push(Seq::<Seq<char>>::empty(), word);
        lemma_joined_push(Seq::<Seq<char>>::empty(), word);
        assert(joined(seq![word]) =~= word);
        assert(words_cost(seq![word]) == word.len());
        assert(flattened(next.lines) =~= flattened(lines)) by {
            assert(flattened(next.lines) == flattened(front) + joined(before) + word);
            assert(flattened(lines) == flattened(front) + (joined(before) + word));
        }
        assert(lines_cost(next.lines) == cost + word.len());
        assert(lines[lines.len() - 1].row == current.row);
        assert(row != current.row);
        assert(rows_increasing(next.lines)) by {
            assert forall|i: int, j: int| 0 <= i < j < next.lines.len() implies (
            #[trigger] next.lines[i]).row < (#[trigger] next.lines[j]).row by {
                let last = lines.len() - 1;
                if i < last {
                    assert(next.lines[i] == state.lines[i]);
                    assert(state.lines[i].row < state.lines[last].row);
                }
                if j < last {
                    assert(next.lines[j] == state.lines[j]);
                }
            }
        }
    }
}

/// A row index times the width is no more than a count means that the index
/// is no more than the count divided by the width.
pub proof fn lemma_row_bound(row: nat, width: nat, count: nat)
    requires
        width > 0,
        row * width <= count,
    ensures
        row <= count / width,
{
    assert(row <= count / width) by (nonlinear_arith)
        requires
            width > 0,
            row * width <= count,
    ;
}

/// The quotient of a count by the width, times the width, is no more than
/// the count.
pub proof fn lemma_row_fits(width: nat, count: nat)
    requires
        width > 0,
    ensures
        (count / width) * width <= count,
{
    assert((count / width) * width <= count) by (nonlinear_arith)
        requires
            width > 0,
    ;
}

/// The rows of a wrapped text, read row after row with the overflow marks
/// left out, are the text: wrapping loses no character, adds none and keeps
/// their order. There is at least one row, the first row has index 0, and the
/// row indices grow.
pub proof fn lemma_wrap_keeps_text(text: Seq<char>, width: nat)
    ensures
        wrap_sound(wrap(text, width), width),
        flattened(wrap(text, width).lines) == text,
    decreases text.len(),
{
    if text.len() == 0 {
        let start = wrap_start();
        assert(start.lines.drop_last() =~= Seq::<LineModel>::empty());
        assert(lines_cost(start.lines) == 0) by {
            assert(lines_cost(start.lines.drop_last()) == 0);
            assert(words_cost(start.lines.last().words) == 0);
        }
        assert(flattened(start.lines) =~= text) by {
            assert(flattened(start.lines.drop_last()) =~= Seq::<char>::empty());
            assert(joined(start.lines.last().words) =~= Seq::<char>::empty());
        }
        assert(start.lines.last().row * width == 0) by (nonlinear_arith)
            requires
                start.lines.last().row == 0,
        ;
    } else {
        lemma_wrap_keeps_text(text.drop_last(), width);
        lemma_wrap_step(wrap(text.drop_last(), width), text.last(), width);
        assert(text.drop_last().push(text.last()) =~= text);
    }
}

/// Without any width the whole text stands in one row, the row 0.
pub proof fn lemma_wrap_without_width(text: Seq<char>)
    ensures
        wrap(text, 0).lines.len() == 1,
        wrap(text, 0).lines[0].row == 0,
        joined(wrap(text, 0).lines[0].words) == text,
    decreases text.len(),
{
    lemma_wrap_keeps_text(text, 0);
    if text.len() > 0 {
        let before = wrap(text.drop_last(), 0);
        lemma_wrap_without_width(text.drop_last());
        let after = wrap_step(before, text.last(), 0);
        assert(before.lines.drop_last() =~= Seq::<LineModel>::empty());
        assert(after.lines.len() == 1) by {
            let current = before.lines.last();
            let c = text.last();
            let word = if c == ' ' {
                Seq::empty()
            } else {
                before.word.push(c)
            };
            let words = if c == ' ' {
                current.words.push(space())
            } else if before.word.len() > 0 {
                current.words.drop_last().push(word)
            } else {
                current.words.push(word)
            };
            let row_lines = before.lines.drop_last().push(LineModel { row: current.row, words });
            assert(row_lines[row_lines.len() - 1].row == current.row);
            assert(has_row(row_lines, current.row));
        }
    }
    let only = wrap(text, 0).lines;
    assert(only.drop_last() =~= Seq::<LineModel>::empty());
    assert(flattened(only) =~= joined(only[0].words)) by {
        assert(flattened(only.drop_last()) =~= Seq::<char>::empty());
    }
}

/// One row of a wrapped text: its row index and its tokens, each a string.
#[derive(Debug, PartialEq, Eq)]
pub struct Line {
    pub row: usize,
    pub words: Vec<String>,
}

impl View for Line {
    type V = LineModel;

    open spec fn view(&self) -> LineModel {
        LineModel { row: self.row as nat, words: texts(self.words@) }
    }
}

/// What a sequence of rows holds.
pub open spec fn lines_of(lines: Seq<Line>) -> Seq<LineModel> {
    lines.map_values(|line: Line| line@)
}

/// The word that is being built, as the last token of its row: there if it
/// has a character.
pub open spec fn pending(word: Seq<char>) -> Seq<Seq<char>> {
    if word.len() > 0 {
        seq![word]
    } else {
        Seq::empty()
    }
}

/// The token that stands for one space.
pub fn space_token() -> (token: String)
    ensures
        token@ == space(),
{
    let mut token = String::new();
    push_char(&mut token, ' ');
    assert(token@ =~= space());
    token
}

/// The overflow mark.
pub fn overflow_token() -> (token: String)
    ensures
        token@ == overflow_mark(),
{
    let token = String::from_str("OVER FLOW");
    proof {
        reveal_strlit("OVER FLOW");
        assert(token@ =~= overflow_mark());
    }
    token
}

/// In rows whose indices grow, a row index that is no less than the last one
/// is taken exactly if it is the last one.
proof fn lemma_row_taken(lines: Seq<LineModel>, row: nat)
    requires
        lines.len() >= 1,
        rows_increasing(lines),
        lines.last().row <= row,
    ensures
        has_row(lines, row) <==> row == lines.last().row,
{
    let last = lines.len() - 1;
    if row == lines[last].row {
        assert(has_row(lines, row));
    }
    if has_row(lines, row) {
        let k = choose|k: int| 0 <= k < lines.len() && (#[trigger] lines[k]).row == row;
        if k < last {
            assert(lines[k].row < lines[last].row);
        }
    }
}

/// Wraps `string` into rows of `width_of_space` columns. Returns the rows in
/// order, at least one, and the index of the last row. Each row has its row
/// index and its tokens: words, single spaces and overflow marks. With the
/// width 0 the whole text stands in row 0.
pub fn wrap_lines(string: &str, width_of_space: u16) -> (out: (Vec<Line>, usize))
    ensures
        lines_of(out.0@) == wrap(string@, width_of_space as nat).lines,
        out.0@.len() >= 1,
        out.1 == out.0@.last().row,
{
    let chars = to_chars(string);
    let width: usize = width_of_space as usize;
    let ghost w = width_of_space as nat;
    let mut done: Vec<Line> = Vec::new();
    let mut row: usize = 0;
    let mut current: Vec<String> = Vec::new();
    let mut word: String = String::new();
    let mut word_len: usize = 0;
    let mut total: usize = 0;
    let mut i: usize = 0;
    proof {
        lemma_wrap_keeps_text(chars@.take(0), w);
        assert(chars@.take(0) =~= Seq::<char>::empty());
        let start = wrap_start();
        assert(lines_of(done@).push(
            LineModel { row: 0, words: texts(current@) + pending(word@) },
        ) =~= start.lines);
        assert(lines_cost(start.lines) == 0) by {
            assert(start.lines.drop_last() =~= Seq::<LineModel>::empty());
            assert(lines_cost(start.lines.drop_last()) == 0);
            assert(words_cost(start.lines.last().words) == 0);
        }
    }
    while i < chars.len()
        invariant
            i <= chars.len(),
            chars@ == string@,
            width == w,
            wrap_sound(wrap(chars@.take(i as int), w), w),
            wrap(chars@.take(i as int), w).lines == lines_of(done@).push(
                LineModel { row: row as nat, words: texts(current@) + pending(word@) },
            ),
            wrap(chars@.take(i as int), w).word == word@,
            word_len == word@.len(),
            word_len <= i,
            total == saturated(lines_cost(wrap(chars@.take(i as int), w).lines)),
        decreases chars.len() - i,
    {
        let c = chars[i];
        let ghost state = wrap(chars@.take(i as int), w);
        let ghost next = wrap_step(state, c, w);
        let ghost front = lines_of(done@);
        let ghost old_words = texts(current@) + pending(word@);
        proof {
            assert(chars@.take(i + 1).drop_last() =~= chars@.take(i as int));
            assert(chars@.take(i + 1).last() == c);
            assert(wrap(chars@.take(i + 1), w) == next);
            lemma_wrap_step(state, c, w);
            assert(state.lines.drop_last() =~= front);
            assert(state.lines.last() == LineModel { row: row as nat, words: old_words });
            lemma_word_is_no_mark(word@);
        }
        if c == ' ' {
            if word_len > 0 {
                let mut closed = String::new();
                core::mem::swap(&mut word, &mut closed);
                current.push(closed);
                word_len = 0;
            }
            current.push(space_token());
            proof {
                assert(texts(current@) + pending(word@) =~= old_words.push(space()));
            }
        } else {
            push_char(&mut word, c);
            word_len = word_len + 1;
            proof {
                if state.word.len() > 0 {
                    assert(texts(current@) + pending(word@) =~= old_words.drop_last().push(
                        state.word.push(c),
                    ));
                } else {
                    assert(texts(current@) + pending(word@) =~= old_words.push(state.word.push(c)));
                }
            }
        }
        let ghost words = texts(current@) + pending(word@);
        let ghost filled = LineModel { row: row as nat, words };
        let ghost lines = front.push(filled);
        proof {
            lemma_lines_cost_push(front, state.lines.last());
            lemma_lines_cost_push(front, filled);
            assert(state.lines =~= front.push(state.lines.last()));
            lemma_word_is_no_mark(word@);
            if c == ' ' {
                lemma_words_cost_push(old_words, space());
            } else if state.word.len() > 0 {
                let before = old_words.drop_last();
                assert(old_words =~= before.push(state.word));
                lemma_words_cost_push(before, state.word);
                lemma_words_cost_push(before, word@);
            } else {
                lemma_words_cost_push(old_words, word@);
            }
            assert(lines_cost(lines) == lines_cost(state.lines) + 1);
        }
        total = total.saturating_add(1);
        assert(total == saturated(lines_cost(lines)));
        let landing: usize = if width == 0 {
            row
        } else {
            total / width
        };
        proof {
            if w > 0 {
                lemma_row_bound(row as nat, w, total as nat);
            }
            assert(rows_increasing(lines)) by {
                assert forall|a: int, b: int| 0 <= a < b < lines.len() implies (
                #[trigger] lines[a]).row < (#[trigger] lines[b]).row by {
                    assert(lines[a].row == state.lines[a].row);
                    assert(lines[b].row == state.lines[b].row);
                }
            }
            lemma_row_taken(lines, landing as nat);
        }
        if landing != row {
            if c != ' ' {
                let ghost kept = texts(current@);
                let mut marks: usize = 0;
                while marks < word_len
                    invariant
                        marks <= word_len,
                        texts(current@) == kept + repeated(overflow_mark(), marks as nat),
                    decreases word_len - marks,
                {
                    let ghost so_far = current@;
                    current.push(overflow_token());
                    marks = marks + 1;
                    assert(texts(current@) =~= texts(so_far).push(overflow_mark()));
                    assert(texts(current@) =~= kept + repeated(overflow_mark(), marks as nat));
                }
                proof {
                    assert(words =~= kept.push(word@));
                    assert(words.drop_last() =~= kept);
                    lemma_words_cost_push(kept, word@);
                    lemma_marks_appended(kept, word_len as nat);
                    let left = LineModel { row: row as nat, words: texts(current@) };
                    let opened = LineModel { row: landing as nat, words: seq![word@] };
                    lemma_lines_cost_push(front, left);
                    lemma_lines_cost_push(front.push(left), opened);
                    assert(seq![word@] =~= Seq::<Seq<char>>::empty().push(word@));
                    lemma_words_cost_push(Seq::<Seq<char>>::empty(), word@);
                    assert(lines_cost(next.lines) == lines_cost(lines) + word_len);
                }
                total = total.saturating_add(word_len);
            } else {
                proof {
                    let opened = LineModel { row: landing as nat, words: Seq::empty() };
                    lemma_lines_cost_push(lines, opened);
                }
            }
            let mut closed_words: Vec<String> = Vec::new();
            core::mem::swap(&mut current, &mut closed_words);
            let ghost closed_line = LineModel { row: row as nat, words: texts(closed_words@) };
            done.push(Line { row, words: closed_words });
            row = landing;
            proof {
                assert(lines_of(done@) =~= front.push(closed_line));
                assert(texts(current@) + pending(word@) =~= pending(word@));
                assert(next.lines =~= lines_of(done@).push(
                    LineModel { row: row as nat, words: texts(current@) + pending(word@) },
                ));
            }
        } else {
            proof {
                assert(next.lines =~= lines_of(done@).push(
                    LineModel { row: row as nat, words: texts(current@) + pending(word@) },
                ));
            }
        }
        i = i + 1;
    }
    proof {
        assert(chars@.take(chars@.len() as int) =~= chars@);
    }
    if word_len > 0 {
        current.push(word);
    }
    let ghost last_line = LineModel { row: row as nat, words: texts(current@) };
    let ghost before = lines_of(done@);
    done.push(Line { row, words: current });
    proof {
        assert(lines_of(done@) =~= before.push(last_line));
        assert(last_line.words =~= wrap(string@, w).lines.last().words);
    }
    (done, row)
}

/// Where a walk over the rows from row number `k` on puts the character
/// that lies `x` characters into them: on the first row that has at least `x`
/// characters, at column `x`; a row that has fewer is passed and what it shows
/// is taken off `x`. The result is the number of the row in `lines` and the
/// column.
pub open spec fn locate_from(lines: Seq<LineModel>, k: int, x: nat) -> (int, nat)
    decreases lines.len() - k,
{
    if k < 0 || k >= lines.len() {
        (k, x)
    } else if x <= joined(lines[k].words).len() {
        (k, x)
    } else if k == lines.len() - 1 {
        (k, (x - joined(lines[k].words).len()) as nat)
    } else {
        locate_from(lines, k + 1, (x - joined(lines[k].words).len()) as nat)
    }
}

/// Where the character with the given index lies in the rows: the number of
/// its row in `lines` and its column. Index 0 lies at the start of the first
/// row.
pub open spec fn locate(lines: Seq<LineModel>, index: nat) -> (int, nat) {
    if index == 0 {
        (0, 0)
    } else {
        locate_from(lines, 0, index)
    }
}

/// The first rows of a list show the first characters of what the list
/// shows.
pub proof fn lemma_flattened_prefix(lines: Seq<LineModel>, k: int)
    requires
        0 <= k <= lines.len(),
    ensures
        flattened(lines.take(k)).len() <= flattened(lines).len(),
        flattened(lines.take(k)) == flattened(lines).take(flattened(lines.take(k)).len() as int),
    decreases lines.len() - k,
{
    if k == lines.len() {
        assert(lines.take(k) =~= lines);
        assert(flattened(lines).take(flattened(lines).len() as int) =~= flattened(lines));
    } else {
        lemma_flattened_prefix(lines, k + 1);
        assert(lines.take(k + 1) =~= lines.take(k).push(lines[k]));
        lemma_flattened_push(lines.take(k), lines[k]);
        let shorter = flattened(lines.take(k));
        let longer = flattened(lines.take(k + 1));
        assert(shorter =~= longer.take(shorter.len() as int));
        assert(shorter =~= flattened(lines).take(shorter.len() as int));
    }
}

/// The walk ends on a row of the list, at a column of that row, and the rows
/// that it passed show, together with the columns before that one, exactly
/// the characters that lie before the one that was looked for.
pub proof fn lemma_locate_from(lines: Seq<LineModel>, k: int, x: nat)
    requires
        0 <= k < lines.len(),
        flattened(lines.take(k)).len() + x <= flattened(lines).len(),
    ensures
        ({
            let (at, col) = locate_from(lines, k, x);
            &&& k <= at < lines.len()
            &&& col <= joined(lines[at].words).len()
            &&& flattened(lines.take(at)).len() + col == flattened(lines.take(k)).len() + x
            &&& flattened(lines.take(at)) + joined(lines[at].words).take(col as int)
                == flattened(lines).take((flattened(lines.take(k)).len() + x) as int)
            &&& x > 0 ==> col > 0
        }),
    decreases lines.len() - k,
{
    let shown = joined(lines[k].words);
    assert(lines.take(k + 1) =~= lines.take(k).push(lines[k]));
    lemma_flattened_push(lines.take(k), lines[k]);
    lemma_flattened_prefix(lines, k);
    lemma_flattened_prefix(lines, k + 1);
    if x <= shown.len() {
        let before = flattened(lines.take(k));
        let through = flattened(lines.take(k + 1));
        assert(before + shown.take(x as int) =~= through.take((before.len() + x) as int));
        assert(through.take((before.len() + x) as int) =~= flattened(lines).take(
            (before.len() + x) as int,
        ));
    } else if k == lines.len() - 1 {
        assert(lines.take(k + 1) =~= lines);
    } else {
        lemma_locate_from(lines, k + 1, (x - shown.len()) as nat);
    }
}

/// Wrapping and looking a character up agree. For every index into a text,
/// the lookup in the wrapped text ends on one of its rows, at a column of
/// that row; the characters that the rows before it show, and the columns
/// before that one, are together as many as the index says; and they are the
/// characters of the text before that index. So the character at that row
/// and column, if the row has one there, is the character of the text at
/// that index.
pub proof fn lemma_locate_round_trip(text: Seq<char>, width: nat, index: nat)
    requires
        index <= text.len(),
    ensures
        ({
            let lines = wrap(text, width).lines;
            let (at, col) = locate(lines, index);
            &&& 0 <= at < lines.len()
            &&& col <= joined(lines[at].words).len()
            &&& flattened(lines.take(at)).len() + col == index
            &&& flattened(lines.take(at)) + joined(lines[at].words).take(col as int) == text.take(
                index as int,
            )
            &&& col < joined(lines[at].words).len() ==> joined(lines[at].words)[col as int]
                == text[index as int]
            &&& index > 0 ==> col >= 1
        }),
{
    let lines = wrap(text, width).lines;
    lemma_wrap_keeps_text(text, width);
    assert(lines.take(0) =~= Seq::<LineModel>::empty());
    if index == 0 {
        assert(flattened(lines.take(0)) + joined(lines[0].words).take(0) =~= text.take(0));
    } else {
        lemma_locate_from(lines, 0, index);
    }
    let (at, col) = locate(lines, index);
    if col < joined(lines[at].words).len() {
        let before = flattened(lines.take(at));
        let shown = joined(lines[at].words);
        assert(lines.take(at + 1) =~= lines.take(at).push(lines[at]));
        lemma_flattened_push(lines.take(at), lines[at]);
        lemma_flattened_prefix(lines, at + 1);
        assert((before + shown)[index as int] == shown[col as int]);
        assert(flattened(lines).take((before + shown).len() as int)[index as int]
            == text[index as int]);
    }
}

/// How many characters the tokens show, as far as a machine number holds it.
fn shown_width(words: &Vec<String>) -> (width: usize)
    ensures
        width == saturated(joined(texts(words@)).len()),
{
    let mark = overflow_token();
    let mut width: usize = 0;
    let mut i: usize = 0;
    proof {
        assert(texts(words@).take(0) =~= Seq::<Seq<char>>::empty());
    }
    while i < words.len()
        invariant
            i <= words.len(),
            mark@ == overflow_mark(),
            width == saturated(joined(texts(words@).take(i as int)).len()),
        decreases words.len() - i,
    {
        proof {
            let all = texts(words@);
            assert(all.take(i + 1) =~= all.take(i as int).push(all[i as int]));
            lemma_joined_push(all.take(i as int), all[i as int]);
        }
        if words[i] != mark {
            let n = words[i].as_str().unicode_len();
            width = width.saturating_add(n);
        }
        i = i + 1;
    }
    proof {
        assert(texts(words@).take(words@.len() as int) =~= texts(words@));
    }
    width
}

/// The row index and the column of the character with the given index in the
/// rows: the rows are walked in order, and each row that shows fewer
/// characters than are still looked for is passed. Without any row the
/// result is row 0 and the index itself.
pub fn locate_in(lines: &Vec<Line>, index: usize) -> (cell: (usize, usize))
    ensures
        ({
            let (at, col) = locate(lines_of(lines@), index as nat);
            &&& lines@.len() > 0 ==> 0 <= at < lines@.len() && cell.0 == lines@[at].row
            &&& lines@.len() == 0 ==> cell.0 == 0
            &&& cell.1 == col
        }),
{
    if lines.len() == 0 {
        return (0, index);
    }
    if index == 0 {
        return (lines[0].row, 0);
    }
    let ghost all = lines_of(lines@);
    let mut k: usize = 0;
    let mut x: usize = index;
    loop
        invariant
            k < lines.len(),
            all == lines_of(lines@),
            locate_from(all, k as int, x as nat) == locate(all, index as nat),
        decreases lines.len() - k,
    {
        let shown = shown_width(&lines[k].words);
        assert(all[k as int].words == texts(lines@[k as int].words@));
        if x <= shown {
            return (lines[k].row, x);
        }
        x = x - shown;
        if k + 1 == lines.len() {
            return (lines[k].row, x);
        }
        k = k + 1;
    }
}

/// The row index and the column at which the cursor stands when `string` is
/// wrapped into rows of `width_of_space` columns and the cursor is at the
/// character with the given index. An index behind the text is read as the
/// end of the text. With the width 0 the row is 0 and the column is the
/// index.
pub fn cursor_cell(string: &str, width_of_space: u16, index: usize) -> (cell: (usize, usize))
    ensures
        ({
            let lines = wrap(string@, width_of_space as nat).lines;
            let (at, col) = locate(lines, clamp_index(index, string@.len()));
            &&& 0 <= at < lines.len()
            &&& cell.0 == lines[at].row
            &&& cell.1 == col
            &&& cell.1 <= joined(lines[at].words).len()
            &&& flattened(lines.take(at)).len() + cell.1 == clamp_index(index, string@.len())
            &&& index > 0 && string@.len() > 0 ==> cell.1 >= 1
        }),
{
    let len = string.unicode_len();
    let at = if index > len {
        len
    } else {
        index
    };
    proof {
        lemma_locate_round_trip(string@, width_of_space as nat, at as nat);
    }
    let (lines, _) = wrap_lines(string, width_of_space);
    locate_in(&lines, at)
}

/// The index `index`, or the length of the text if the index lies behind it.
pub open spec fn clamp_index(index: usize, len: nat) -> nat {
    if index > len {
        len
    } else {
        index as nat
    }
}

} // verus!
