//! What the renderer paints: the frame of a selection and the commands that
//! erase it again.

use vstd::prelude::*;
use crate::command::{keeps_mode, Command, HIGHLIGHT, LINE_END, MARKER, MAX_MOVE};
use crate::select::SelectView;

verus! {

/// Cursor movements that add up to exactly `rows` rows upwards. One command
/// suffices unless `rows` exceeds what a single movement can express.
pub open spec fn move_up(rows: nat) -> Seq<Command<Seq<char>>>
    decreases rows,
{
    if rows == 0 {
        Seq::empty()
    } else if rows <= MAX_MOVE {
        seq![Command::MoveUp(rows as u16)]
    } else {
        seq![Command::MoveUp(MAX_MOVE)] + move_up((rows - MAX_MOVE) as nat)
    }
}

/// The total number of rows by which the commands move the cursor up.
pub open spec fn rows_up(commands: Seq<Command<Seq<char>>>) -> nat
    decreases commands.len(),
{
    if commands.len() == 0 {
        0
    } else {
        rows_up(commands.drop_last()) + match commands.last() {
            Command::MoveUp(rows) => rows as nat,
            _ => 0,
        }
    }
}

impl SelectView {
    /// The commands that paint the option at `index` as one row: the coloured
    /// marker if the option is highlighted, the option's text, the line end.
    pub open spec fn row(self, index: int) -> Seq<Command<Seq<char>>> {
        if index == self.highlighted {
            seq![
                Command::SetForegroundColor { r: HIGHLIGHT.0, g: HIGHLIGHT.1, b: HIGHLIGHT.2 },
                Command::Print(MARKER@),
                Command::ResetColor,
                Command::Print(self.options[index]),
                Command::Print(LINE_END@),
            ]
        } else {
            seq![Command::Print(self.options[index]), Command::Print(LINE_END@)]
        }
    }

    /// The rows of the first `count` options, one after the other.
    pub open spec fn rows(self, count: nat) -> Seq<Command<Seq<char>>> {
        Seq::new(count, |i: int| self.row(i)).flatten()
    }

    /// The whole frame: one row per option, in the order of the list.
    pub open spec fn frame(self) -> Seq<Command<Seq<char>>> {
        self.rows(self.options.len())
    }

    /// The commands that remove a painted frame: the cursor goes up by one row
    /// per option, then everything below it is cleared.
    pub open spec fn erase(self) -> Seq<Command<Seq<char>>> {
        move_up(self.options.len()) + seq![Command::ClearFromCursorDown]
    }

    /// The position in the frame at which the row of the option at `index`
    /// starts.
    pub open spec fn row_start(self, index: int) -> int {
        if index > self.highlighted {
            2 * index + 3
        } else {
            2 * index
        }
    }
}

/// Painting one more row appends that row to what was painted before.
pub proof fn lemma_rows_step(select: SelectView, count: nat)
    ensures
        select.rows(count + 1) == select.rows(count) + select.row(count as int),
{
    let shorter = Seq::new(count, |i: int| select.row(i));
    let longer = Seq::new(count + 1, |i: int| select.row(i));
    assert(longer =~= shorter.push(select.row(count as int)));
    shorter.lemma_flatten_push(select.row(count as int));
}

/// The rows of the first `count` options take two commands each, and three
/// more once the highlighted option is among them; the row of each of these
/// options stands at its place, unchanged.
pub proof fn lemma_rows_layout(select: SelectView, count: nat, index: int)
    requires
        0 <= index < count,
    ensures
        select.rows(count).len() == select.row_start(count as int),
        select.row_start(index) + select.row(index).len() == select.row_start(index + 1),
        select.row_start(index + 1) <= select.rows(count).len(),
        select.rows(count).subrange(select.row_start(index), select.row_start(index + 1))
            == select.row(index),
    decreases count,
{
    let last = (count - 1) as nat;
    lemma_rows_step(select, last);
    if last == 0 {
        assert(Seq::new(0nat, |i: int| select.row(i)) =~= Seq::empty());
        assert(select.rows(0).len() == 0);
    } else {
        lemma_rows_layout(select, last, 0);
    }
    if index < last {
        lemma_rows_layout(select, last, index);
        assert(select.rows(count).subrange(select.row_start(index), select.row_start(index + 1))
            =~= select.rows(last).subrange(select.row_start(index), select.row_start(index + 1)));
    } else {
        assert(select.rows(count).subrange(select.row_start(index), select.row_start(index + 1))
            =~= select.row(index));
    }
}

/// The frame holds exactly one row per option, in the order of the list: the
/// row of the option at `index` starts where the rows of the options before
/// it end, and the frame ends with the row of the last option.
pub proof fn lemma_frame_layout(select: SelectView, index: int)
    requires
        0 <= index < select.options.len(),
    ensures
        select.frame().len() == select.row_start(select.options.len() as int),
        select.row_start(index + 1) <= select.frame().len(),
        select.frame().subrange(select.row_start(index), select.row_start(index + 1))
            == select.row(index),
        select.row(index).last() == Command::Print(LINE_END@),
        select.row(index)[select.row(index).len() - 2] == Command::Print(select.options[index]),
{
    lemma_rows_layout(select, select.options.len(), index);
}

/// The total upward movement of two sequences of commands is the sum of
/// their movements.
pub proof fn lemma_rows_up_concat(first: Seq<Command<Seq<char>>>, second: Seq<Command<Seq<char>>>)
    ensures
        rows_up(first + second) == rows_up(first) + rows_up(second),
    decreases second.len(),
{
    if second.len() == 0 {
        assert(first + second =~= first);
    } else {
        assert((first + second).drop_last() =~= first + second.drop_last());
        lemma_rows_up_concat(first, second.drop_last());
    }
}

/// The movements for `rows` rows add up to `rows`, and none of them switches
/// the terminal's mode.
pub proof fn lemma_move_up(rows: nat)
    ensures
        rows_up(move_up(rows)) == rows,
        keeps_mode(move_up(rows)),
    decreases rows,
{
    reveal_with_fuel(rows_up, 2);
    if rows == 0 {
    } else if rows <= MAX_MOVE {
        assert(move_up(rows).drop_last() =~= Seq::empty());
    } else {
        let rest = (rows - MAX_MOVE) as nat;
        lemma_move_up(rest);
        let head = seq![Command::<Seq<char>>::MoveUp(MAX_MOVE)];
        assert(head.drop_last() =~= Seq::empty());
        lemma_rows_up_concat(head, move_up(rest));
    }
}

/// Erasing moves the cursor up by exactly one row per option and does not
/// switch the terminal's mode.
pub proof fn lemma_erase(select: SelectView)
    ensures
        rows_up(select.erase()) == select.options.len(),
        keeps_mode(select.erase()),
{
    reveal_with_fuel(rows_up, 2);
    lemma_move_up(select.options.len());
    let clear = seq![Command::<Seq<char>>::ClearFromCursorDown];
    assert(clear.drop_last() =~= Seq::empty());
    lemma_rows_up_concat(move_up(select.options.len()), clear);
}

/// Painting rows does not switch the terminal's mode.
pub proof fn lemma_rows_keep_mode(select: SelectView, count: nat)
    ensures
        keeps_mode(select.rows(count)),
    decreases count,
{
    if count == 0 {
        assert(Seq::new(0nat, |i: int| select.row(i)) =~= Seq::empty());
    } else {
        lemma_rows_keep_mode(select, (count - 1) as nat);
        lemma_rows_step(select, (count - 1) as nat);
    }
}

/// Painting the frame does not switch the terminal's mode.
pub proof fn lemma_frame_keeps_mode(select: SelectView)
    ensures
        keeps_mode(select.frame()),
{
    lemma_rows_keep_mode(select, select.options.len());
}

} // verus!
