//! A text buffer: rows of characters and a cursor that always stands inside them.

use vstd::prelude::*;
use vstd::std_specs::iter::IteratorSpec;
use gapbuffer::GapBuffer;
use crate::rows::{rows_of, rows_new, rows_len, rows_insert, rows_remove, row_at};

verus! {

/// What a buffer holds, as mathematics: its rows and the cursor `(row, col)`.
pub struct BufferView {
    pub lines: Seq<Seq<char>>,
    pub row: int,
    pub col: int,
}

impl BufferView {
    /// There is at least one row, the cursor's row exists, and its column is
    /// at most one past the row's last character.
    pub open spec fn wf(self) -> bool {
        &&& self.lines.len() > 0
        &&& 0 <= self.row < self.lines.len()
        &&& 0 <= self.col <= self.lines[self.row].len()
    }

    /// The row under the cursor.
    pub open spec fn current_line(self) -> Seq<char> {
        self.lines[self.row]
    }

    /// The cursor's row cut at the cursor: what stands before it stays, what
    /// follows becomes a new row right after it, and the cursor goes to the
    /// start of that new row.
    pub open spec fn split(self) -> BufferView {
        let line = self.current_line();
        BufferView {
            lines: self.lines.update(self.row, line.take(self.col)).insert(
                self.row + 1,
                line.skip(self.col),
            ),
            row: self.row + 1,
            col: 0,
        }
    }

    /// Typing `c`: a line break splits the row; any other character goes in at
    /// the cursor and the cursor moves past it.
    pub open spec fn inserted(self, c: char) -> BufferView {
        if c == '\n' {
            self.split()
        } else {
            BufferView {
                lines: self.lines.update(self.row, self.current_line().insert(self.col, c)),
                row: self.row,
                col: self.col + 1,
            }
        }
    }

    /// Typing each character of `cs` in turn.
    pub open spec fn inserted_all(self, cs: Seq<char>) -> BufferView
        decreases cs.len(),
    {
        if cs.len() == 0 {
            self
        } else {
            self.inserted_all(cs.drop_last()).inserted(cs.last())
        }
    }

    /// One column to the left, unless the cursor is at the row's start.
    pub open spec fn moved_left(self) -> BufferView {
        if self.col > 0 {
            BufferView { col: self.col - 1, ..self }
        } else {
            self
        }
    }

    /// One column to the right, unless the cursor is past the row's end.
    pub open spec fn moved_right(self) -> BufferView {
        if self.col < self.current_line().len() {
            BufferView { col: self.col + 1, ..self }
        } else {
            self
        }
    }
}

/// The rows of `s`: the pieces between line breaks, in order, empty ones kept.
/// A text with `k` line breaks has `k + 1` rows.
pub open spec fn split_lines(s: Seq<char>) -> Seq<Seq<char>>
    decreases s.len(),
{
    if s.len() == 0 {
        seq![Seq::<char>::empty()]
    } else {
        let before = split_lines(s.drop_last());
        if s.last() == '\n' {
            before.push(Seq::<char>::empty())
        } else {
            before.update(before.len() - 1, before.last().push(s.last()))
        }
    }
}

/// `split_lines` never gives an empty sequence of rows.
pub proof fn lemma_split_lines_nonempty(s: Seq<char>)
    ensures
        split_lines(s).len() > 0,
    decreases s.len(),
{
    if s.len() > 0 {
        lemma_split_lines_nonempty(s.drop_last());
    }
}

/// Typing a run of characters with no line break among them inserts the run
/// at the cursor: the row stays the same, it grows by one character per
/// character typed, and the cursor ends right after the run.
pub proof fn lemma_insert_run(v: BufferView, cs: Seq<char>)
    requires
        v.wf(),
        forall|i: int| 0 <= i < cs.len() ==> cs[i] != '\n',
    ensures
        v.inserted_all(cs).wf(),
        v.inserted_all(cs).row == v.row,
        v.inserted_all(cs).col == v.col + cs.len(),
        v.inserted_all(cs).lines == v.lines.update(
            v.row,
            v.current_line().take(v.col) + cs + v.current_line().skip(v.col),
        ),
        v.inserted_all(cs).current_line().len() == v.current_line().len() + cs.len(),
    decreases cs.len(),
{
    let line = v.current_line();
    if cs.len() == 0 {
        assert(line.take(v.col) + cs + line.skip(v.col) =~= line);
        assert(v.lines.update(v.row, line) =~= v.lines);
    } else {
        let init = cs.drop_last();
        assert forall|i: int| 0 <= i < init.len() implies init[i] != '\n' by {
            assert(init[i] == cs[i]);
        }
        lemma_insert_run(v, init);
        let w = v.inserted_all(init);
        assert(w.current_line() == line.take(v.col) + init + line.skip(v.col));
        assert(w.current_line().insert(w.col, cs.last()) =~= line.take(v.col) + cs + line.skip(
            v.col,
        ));
        assert(v.inserted_all(cs).lines =~= v.lines.update(
            v.row,
            line.take(v.col) + cs + line.skip(v.col),
        ));
    }
}

/// Splitting a row loses no text: the two rows it becomes, joined, give the
/// old row, and joined with a line break between them give the old row with a
/// line break at the cursor. Rows above stay, rows below move down by one.
pub proof fn lemma_split_keeps_text(v: BufferView)
    requires
        v.wf(),
    ensures
        v.split().wf(),
        v.split().lines.len() == v.lines.len() + 1,
        v.split().lines[v.row] + v.split().lines[v.row + 1] == v.current_line(),
        v.split().lines[v.row] + seq!['\n'] + v.split().lines[v.row + 1]
            == v.current_line().insert(v.col, '\n'),
        forall|i: int| 0 <= i < v.row ==> #[trigger] v.split().lines[i] == v.lines[i],
        forall|i: int| v.row < i < v.lines.len() ==> v.split().lines[i + 1] == #[trigger] v.lines[i],
{
    let line = v.current_line();
    let w = v.split();
    assert(w.lines[v.row] == line.take(v.col));
    assert(w.lines[v.row + 1] == line.skip(v.col));
    assert(line.take(v.col) + line.skip(v.col) =~= line);
    assert(line.take(v.col) + seq!['\n'] + line.skip(v.col) =~= line.insert(v.col, '\n'));
}

/// Moving left or right keeps the cursor within `0..=len` of its row, and
/// moving left at the start of a row changes nothing, however often it is done.
pub proof fn lemma_moves_stay_in_row(v: BufferView)
    requires
        v.wf(),
    ensures
        v.moved_left().wf(),
        v.moved_right().wf(),
        v.moved_left().lines == v.lines && v.moved_left().row == v.row,
        v.moved_right().lines == v.lines && v.moved_right().row == v.row,
        v.col == 0 ==> v.moved_left() == v,
        v.col == 0 ==> v.moved_left().moved_left() == v,
{
}

/// Rows of text with a cursor, kept in a gap buffer of rows.
pub struct TextBuffer {
    text: GapBuffer<Vec<char>>,
    row: usize,
    col: usize,
}

impl View for TextBuffer {
    type V = BufferView;

    closed spec fn view(&self) -> BufferView {
        BufferView { lines: rows_of(self.text), row: self.row as int, col: self.col as int }
    }
}

impl TextBuffer {
    /// A buffer of one empty row, with the cursor at its start.
    pub fn new() -> (b: TextBuffer)
        ensures
            b@.lines == seq![Seq::<char>::empty()],
            b@.row == 0,
            b@.col == 0,
            b@.wf(),
    {
        let mut text = rows_new();
        rows_insert(&mut text, 0, Vec::new());
        TextBuffer { text, row: 0, col: 0 }
    }
    /// A buffer of the rows of `s` (see `split_lines`), with the cursor at the
    /// start of the first row.
    pub fn from(s: &str) -> (b: TextBuffer)
        ensures
            b@.lines == split_lines(s@),
            b@.row == 0,
            b@.col == 0,
            b@.wf(),
    {
        broadcast use vstd::string::axiom_spec_iter, vstd::string::next_postcondition;

        let mut text = rows_new();
        let mut current: Vec<char> = Vec::new();
        let mut chars = s.chars();
        let ghost mut done: Seq<char> = Seq::empty();
        loop
            invariant
                s@ == done + chars.remaining(),
                rows_of(text).push(current@) == split_lines(done),
                chars.decrease() is Some,
            ensures
                done == s@,
                rows_of(text).push(current@) == split_lines(done),
            decreases chars.decrease()->0,
        {
            let next = chars.next();
            match next {
                None => {
                    assert(done =~= s@);
                    break;
                },
                Some(c) => {
                    let ghost before = done;
                    proof {
                        done = done.push(c);
                        assert(done.drop_last() == before);
                        assert(s@ == done + chars.remaining());
                    }
                    if c == '\n' {
                        let n = rows_len(&text);
                        rows_insert(&mut text, n, current);
                        current = Vec::new();
                        assert(rows_of(text).push(current@) =~= split_lines(done));
                    } else {
                        current.push(c);
                        assert(rows_of(text).push(current@) =~= split_lines(done));
                    }
                },
            }
        }
        let n = rows_len(&text);
        rows_insert(&mut text, n, current);
        assert(rows_of(text) =~= split_lines(s@));
        proof {
            lemma_split_lines_nonempty(s@);
        }
        TextBuffer { text, row: 0, col: 0 }
    }

    /// What a screen shows: every row in order, and the cursor `(row, col)`.
    pub fn render(&self) -> (r: (Vec<Vec<char>>, usize, usize))
        requires
            self@.wf(),
        ensures
            r.0@.len() == self@.lines.len(),
            forall|i: int| 0 <= i < r.0@.len() ==> #[trigger] r.0@[i]@ == self@.lines[i],
            r.1 == self@.row,
            r.2 == self@.col,
    {
        let n = rows_len(&self.text);
        let mut out: Vec<Vec<char>> = Vec::new();
        let mut i: usize = 0;
        while i < n
            invariant
                n == self@.lines.len(),
                i <= n,
                out@.len() == i,
                forall|j: int| 0 <= j < i ==> #[trigger] out@[j]@ == self@.lines[j],
            decreases n - i,
        {
            let line = row_at(&self.text, i).clone();
            assert(line@ =~= self@.lines[i as int]);
            out.push(line);
            i = i + 1;
        }
        (out, self.row, self.col)
    }

    /// The length of the row under the cursor.
    pub fn current_line_length(&self) -> (n: usize)
        requires
            self@.wf(),
        ensures
            n == self@.current_line().len(),
    {
        row_at(&self.text, self.row).len()
    }

    /// Cuts the cursor's row at the cursor into two rows; the cursor goes to
    /// the start of the second.
    pub fn split_line(&mut self)
        requires
            old(self)@.wf(),
        ensures
            final(self)@ == old(self)@.split(),
            final(self)@.wf(),
    {
        let ghost v = self@;
        let removed = rows_remove(&mut self.text, self.row);
        if let Some(mut line) = removed {
            let tail = line.split_off(self.col);
            rows_insert(&mut self.text, self.row, line);
            let n = rows_len(&self.text);
            assert(self.row < n);
            rows_insert(&mut self.text, self.row + 1, tail);
        }
        assert(rows_of(self.text) =~= v.split().lines);
        self.row = self.row + 1;
        self.col = 0;
    }

    /// Types `c` at the cursor: a line break splits the row (as `split_line`);
    /// any other character goes in at the cursor, shifting the rest of the row
    /// right, and the cursor moves past it.
    pub fn insert_char(&mut self, c: char)
        requires
            old(self)@.wf(),
        ensures
            final(self)@ == old(self)@.inserted(c),
            final(self)@.wf(),
    {
        if c == '\n' {
            self.split_line();
        } else {
            let ghost v = self@;
            let removed = rows_remove(&mut self.text, self.row);
            if let Some(mut line) = removed {
                line.insert(self.col, c);
                let k = line.len();
                assert(self.col < k);
                rows_insert(&mut self.text, self.row, line);
                self.col = self.col + 1;
            }
            assert(rows_of(self.text) =~= v.inserted(c).lines);
        }
    }

    /// Moves the cursor one column left; at the row's start it stays.
    pub fn move_left(&mut self)
        requires
            old(self)@.wf(),
        ensures
            final(self)@ == old(self)@.moved_left(),
            final(self)@.wf(),
    {
        if self.col > 0 {
            self.col = self.col - 1;
        }
    }

    /// Moves the cursor one column right; past the row's end it stays.
    pub fn move_right(&mut self)
        requires
            old(self)@.wf(),
        ensures
            final(self)@ == old(self)@.moved_right(),
            final(self)@.wf(),
    {
        if self.col < self.current_line_length() {
            self.col = self.col + 1;
        }
    }
}

} // verus!
