//! The selection state: an option list and the row that is highlighted.

use vstd::arithmetic::div_mod::{lemma_fundamental_div_mod_converse, lemma_mod_bound};
use vstd::prelude::*;
use crate::command::{views, Command, HIGHLIGHT, LINE_END, MARKER, MAX_MOVE};
use crate::frame::{lemma_rows_step, move_up};

verus! {

/// The texts of a list of options, in the same order.
pub open spec fn texts<'a>(options: Seq<&'a str>) -> Seq<Seq<char>> {
    options.map_values(|option: &'a str| option@)
}

/// The row that follows `index` in a list of `len` rows, wrapping from the
/// last row to the first.
pub open spec fn next_index(len: nat, index: nat) -> nat {
    if index + 1 < len {
        index + 1
    } else {
        0
    }
}

/// The row that precedes `index` in a list of `len` rows, wrapping from the
/// first row to the last.
pub open spec fn prev_index(len: nat, index: nat) -> nat {
    if index > 0 {
        (index - 1) as nat
    } else if len > 0 {
        (len - 1) as nat
    } else {
        0
    }
}

/// What a `Select` is, mathematically: the option texts in order and the
/// position of the highlighted one.
pub struct SelectView {
    pub options: Seq<Seq<char>>,
    pub highlighted: nat,
}

impl SelectView {
    /// The highlighted position names an option, or the list is empty and the
    /// position is zero.
    pub open spec fn wf(self) -> bool {
        if self.options.len() == 0 {
            self.highlighted == 0
        } else {
            self.highlighted < self.options.len()
        }
    }

    /// The same list with the highlight on the first option.
    pub open spec fn fresh(self) -> SelectView {
        SelectView { options: self.options, highlighted: 0 }
    }

    /// The same list with the highlight on the following option.
    pub open spec fn next(self) -> SelectView {
        SelectView {
            options: self.options,
            highlighted: next_index(self.options.len(), self.highlighted),
        }
    }

    /// The same list with the highlight on the preceding option.
    pub open spec fn prev(self) -> SelectView {
        SelectView {
            options: self.options,
            highlighted: prev_index(self.options.len(), self.highlighted),
        }
    }

    /// The selection after `count` moves to the following option.
    pub open spec fn next_times(self, count: nat) -> SelectView
        decreases count,
    {
        if count == 0 {
            self
        } else {
            self.next_times((count - 1) as nat).next()
        }
    }

    /// The selection after `count` moves to the preceding option.
    pub open spec fn prev_times(self, count: nat) -> SelectView
        decreases count,
    {
        if count == 0 {
            self
        } else {
            self.prev_times((count - 1) as nat).prev()
        }
    }
}

/// Adding one to a number moves its remainder one step round the cycle, and
/// so does subtracting one, in the other direction.
proof fn lemma_remainder_step(x: int, len: int)
    requires
        len > 0,
    ensures
        (x + 1) % len == if x % len + 1 < len {
            x % len + 1
        } else {
            0
        },
        (x - 1) % len == if x % len > 0 {
            x % len - 1
        } else {
            len - 1
        },
{
    let q = x / len;
    let r = x % len;
    lemma_mod_bound(x, len);
    vstd::arithmetic::div_mod::lemma_fundamental_div_mod(x, len);
    assert(x == q * len + r) by (nonlinear_arith)
        requires
            x == len * q + r,
    ;
    if r + 1 < len {
        lemma_fundamental_div_mod_converse(x + 1, len, q, r + 1);
    } else {
        assert(x + 1 == (q + 1) * len + 0) by (nonlinear_arith)
            requires
                x == q * len + r,
                r + 1 == len,
        ;
        lemma_fundamental_div_mod_converse(x + 1, len, q + 1, 0);
    }
    if r > 0 {
        lemma_fundamental_div_mod_converse(x - 1, len, q, r - 1);
    } else {
        assert(x - 1 == (q - 1) * len + (len - 1)) by (nonlinear_arith)
            requires
                x == q * len + r,
                r == 0,
        ;
        lemma_fundamental_div_mod_converse(x - 1, len, q - 1, len - 1);
    }
}

/// Either move leaves the highlight on an option of the list, and leaves the
/// list alone.
pub proof fn lemma_moves_keep_wf(select: SelectView)
    requires
        select.wf(),
    ensures
        select.next().wf(),
        select.prev().wf(),
        select.next().options == select.options,
        select.prev().options == select.options,
{
}

/// From the last option the following one is the first; from the first
/// option the preceding one is the last.
pub proof fn lemma_moves_wrap(select: SelectView)
    requires
        select.wf(),
        select.options.len() > 0,
    ensures
        select.highlighted == select.options.len() - 1 ==> select.next().highlighted == 0,
        select.highlighted == 0 ==> select.prev().highlighted == select.options.len() - 1,
        select.highlighted < select.options.len() - 1 ==> select.next().highlighted
            == select.highlighted + 1,
        select.highlighted > 0 ==> select.prev().highlighted == select.highlighted - 1,
{
}

/// Moving `count` times to the following option advances the highlight by
/// `count` positions round the list.
pub proof fn lemma_next_times(select: SelectView, count: nat)
    requires
        select.wf(),
        select.options.len() > 0,
    ensures
        select.next_times(count).options == select.options,
        select.next_times(count).highlighted == (select.highlighted + count) % select.options.len(),
        select.next_times(count).wf(),
    decreases count,
{
    let len = select.options.len() as int;
    if count == 0 {
        vstd::arithmetic::div_mod::lemma_small_mod(select.highlighted, select.options.len());
    } else {
        lemma_next_times(select, (count - 1) as nat);
        lemma_remainder_step(select.highlighted + count - 1, len);
    }
}

/// Moving `count` times to the preceding option takes the highlight back by
/// `count` positions round the list.
pub proof fn lemma_prev_times(select: SelectView, count: nat)
    requires
        select.wf(),
        select.options.len() > 0,
    ensures
        select.prev_times(count).options == select.options,
        select.prev_times(count).highlighted == (select.highlighted - count) % (
        select.options.len() as int),
        select.prev_times(count).wf(),
    decreases count,
{
    let len = select.options.len() as int;
    if count == 0 {
        vstd::arithmetic::div_mod::lemma_small_mod(select.highlighted, select.options.len());
    } else {
        lemma_prev_times(select, (count - 1) as nat);
        lemma_remainder_step(select.highlighted - count + 1, len);
    }
}

/// As many moves in one direction as there are options bring the highlight
/// back to where it was.
pub proof fn lemma_full_cycle(select: SelectView)
    requires
        select.wf(),
        select.options.len() > 0,
    ensures
        select.next_times(select.options.len()) == select,
        select.prev_times(select.options.len()) == select,
{
    let len = select.options.len();
    lemma_next_times(select, len);
    lemma_prev_times(select, len);
    vstd::arithmetic::div_mod::lemma_small_mod(select.highlighted, len);
    vstd::arithmetic::div_mod::lemma_mod_add_multiples_vanish(
        select.highlighted as int,
        len as int,
    );
    vstd::arithmetic::div_mod::lemma_mod_sub_multiples_vanish(
        select.highlighted as int,
        len as int,
    );
    assert(select.highlighted + len == len + select.highlighted);
    assert(select.highlighted - len == -(len as int) + select.highlighted);
}

/// An ordered list of options together with the index of the highlighted one.
#[derive(Clone, Copy, Debug)]
pub struct Select<'a> {
    options: &'a Vec<&'a str>,
    highlighted_index: usize,
}

impl<'a> View for Select<'a> {
    type V = SelectView;

    closed spec fn view(&self) -> SelectView {
        SelectView {
            options: texts(self.options@),
            highlighted: self.highlighted_index as nat,
        }
    }
}

impl<'a> Select<'a> {
    /// Every `Select` is well formed.
    #[verifier::type_invariant]
    pub closed spec fn inv(self) -> bool {
        self@.wf()
    }

    /// The options themselves, as the caller handed them over.
    pub closed spec fn items(&self) -> Seq<&'a str> {
        self.options@
    }

    /// What the type invariant says: the highlight is on an option of the
    /// list, or the list is empty and the highlight at zero.
    pub proof fn lemma_wf(&self)
        requires
            self.inv(),
        ensures
            self@.wf(),
    {
    }

    /// The view holds the texts of the options, in their order.
    pub proof fn lemma_view_of_items(&self)
        ensures
            self@.options == texts(self.items()),
    {
    }

    /// A selection over `options` with the first option highlighted.
    pub fn new(options: &'a Vec<&'a str>) -> (select: Self)
        ensures
            select.items() == options@,
            select@.options == texts(options@),
            select@.highlighted == 0,
            select@.wf(),
    {
        Self { options, highlighted_index: 0 }
    }

    /// A selection over the same options with the first option highlighted.
    pub fn fresh(&self) -> (select: Self)
        ensures
            select.items() == self.items(),
            select@ == self@.fresh(),
            select@.wf(),
    {
        Self { options: self.options, highlighted_index: 0 }
    }

    /// Moves the highlight to the following option, wrapping to the first.
    /// Without any option the highlight stays at zero.
    pub fn next(&mut self)
        ensures
            final(self)@ == old(self)@.next(),
            final(self).items() == old(self).items(),
            final(self)@.wf(),
    {
        proof {
            use_type_invariant(&*self);
        }
        let len = self.options.len();
        if len > 0 && self.highlighted_index < len - 1 {
            self.highlighted_index += 1;
        } else {
            self.highlighted_index = 0;
        }
    }

    /// Moves the highlight to the preceding option, wrapping to the last.
    /// Without any option the highlight stays at zero.
    pub fn prev(&mut self)
        ensures
            final(self)@ == old(self)@.prev(),
            final(self).items() == old(self).items(),
            final(self)@.wf(),
    {
        proof {
            use_type_invariant(&*self);
        }
        let len = self.options.len();
        if self.highlighted_index > 0 {
            self.highlighted_index -= 1;
        } else if len > 0 {
            self.highlighted_index = len - 1;
        }
    }

    /// The number of options.
    pub fn len(&self) -> (len: usize)
        ensures
            len == self@.options.len(),
    {
        self.options.len()
    }

    /// The index of the highlighted option; zero if there is no option.
    pub fn highlighted_index(&self) -> (index: usize)
        ensures
            index == self@.highlighted,
            self@.wf(),
    {
        proof {
            use_type_invariant(self);
        }
        self.highlighted_index
    }

    /// The highlighted option, if the list has any option at all.
    pub fn selected(&self) -> (option: Option<&'a str>)
        ensures
            self@.wf(),
            self@.options.len() == 0 <==> option is None,
            option matches Some(text) ==> text == self.items()[self@.highlighted as int] && text@
                == self@.options[self@.highlighted as int],
    {
        proof {
            use_type_invariant(self);
        }
        if self.options.len() == 0 {
            None
        } else {
            Some(self.options[self.highlighted_index])
        }
    }

    /// The commands that paint the list at the cursor: one row per option in
    /// the order of the list, the highlighted one behind a coloured marker.
    pub fn render(&self) -> (commands: Vec<Command<&'a str>>)
        ensures
            views(commands@) == self@.frame(),
    {
        let mut commands: Vec<Command<&'a str>> = Vec::new();
        let mut index: usize = 0;
        proof {
            assert(Seq::new(0nat, |i: int| self@.row(i)) =~= Seq::empty());
            assert(views(commands@) =~= self@.rows(0));
        }
        while index < self.options.len()
            invariant
                index <= self.options@.len(),
                views(commands@) == self@.rows(index as nat),
            decreases self.options@.len() - index,
        {
            let ghost before = commands@;
            if index == self.highlighted_index {
                let (r, g, b) = HIGHLIGHT;
                commands.push(Command::SetForegroundColor { r, g, b });
                commands.push(Command::Print(MARKER));
                commands.push(Command::ResetColor);
            }
            commands.push(Command::Print(self.options[index]));
            commands.push(Command::Print(LINE_END));
            proof {
                lemma_rows_step(self@, index as nat);
                assert(views(commands@) =~= views(before) + self@.row(index as int));
            }
            index += 1;
        }
        commands
    }

    /// The commands that remove the painted list again: the cursor moves up by
    /// exactly one row per option and the screen is cleared from there on.
    pub fn erase(&self) -> (commands: Vec<Command<&'a str>>)
        ensures
            views(commands@) == self@.erase(),
    {
        let mut commands: Vec<Command<&'a str>> = Vec::new();
        let mut rows: usize = self.options.len();
        assert(views(commands@) =~= Seq::empty());
        while rows > MAX_MOVE as usize
            invariant
                views(commands@) + move_up(rows as nat) == move_up(self@.options.len()),
            decreases rows,
        {
            let ghost before = commands@;
            commands.push(Command::MoveUp(MAX_MOVE));
            rows -= MAX_MOVE as usize;
            assert(views(commands@) + move_up(rows as nat) =~= views(before) + (seq![
                Command::MoveUp(MAX_MOVE),
            ] + move_up(rows as nat)));
        }
        let ghost before = commands@;
        if rows > 0 {
            commands.push(Command::MoveUp(rows as u16));
        }
        assert(views(commands@) =~= views(before) + move_up(rows as nat));
        let ghost moved = commands@;
        commands.push(Command::ClearFromCursorDown);
        assert(views(commands@) =~= views(moved) + seq![Command::ClearFromCursorDown]);
        commands
    }
}

} // verus!
