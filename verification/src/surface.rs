//! A simulated terminal surface: a grid of character cells with a cursor.
//!
//! The surface gives the output operations a meaning that can be stated and
//! checked. Each character takes one cell and moves the cursor one column to
//! the right; nothing wraps and nothing scrolls, so text that runs past the
//! right edge, or is placed outside the grid, is clipped.

use vstd::prelude::*;
use crate::event::{EventModel, TerminalEvent};
use crate::output::{
    commands_view, draw_ops, draw_plan, ops_view, CommandModel, DrawCommand, OpModel, OutputOp,
};

verus! {

/// What an untouched cell holds.
pub const BLANK: char = ' ';

/// The mathematical value of a [`Surface`].
pub struct SurfaceModel {
    pub columns: u16,
    pub rows: u16,
    /// The cells, row by row.
    pub cells: Seq<Seq<char>>,
    pub cursor_column: u16,
    pub cursor_row: u16,
}

impl SurfaceModel {
    /// The grid has `rows` rows of `columns` cells each.
    pub open spec fn well_formed(self) -> bool {
        &&& self.cells.len() == self.rows
        &&& forall|r: int| 0 <= r < self.rows ==> (#[trigger] self.cells[r]).len() == self.columns
    }

    /// A surface of blank cells with the cursor in the top left corner.
    pub open spec fn blank(columns: u16, rows: u16) -> SurfaceModel {
        SurfaceModel {
            columns,
            rows,
            cells: Seq::new(rows as nat, |r: int| Seq::new(columns as nat, |c: int| BLANK)),
            cursor_column: 0,
            cursor_row: 0,
        }
    }

    /// Whether the cursor stands on a cell of the grid.
    pub open spec fn cursor_inside(self) -> bool {
        self.cursor_row < self.rows && self.cursor_column < self.columns
    }

    /// Writing one character: it lands in the cell under the cursor and the
    /// cursor moves one column right; off the grid nothing happens.
    pub open spec fn put(self, ch: char) -> SurfaceModel {
        if self.cursor_inside() {
            SurfaceModel {
                cells: self.cells.update(
                    self.cursor_row as int,
                    self.cells[self.cursor_row as int].update(self.cursor_column as int, ch),
                ),
                cursor_column: (self.cursor_column + 1) as u16,
                ..self
            }
        } else {
            self
        }
    }

    /// Writing a text: its characters one after the other.
    pub open spec fn print(self, text: Seq<char>) -> SurfaceModel
        decreases text.len(),
    {
        if text.len() == 0 {
            self
        } else {
            self.print(text.drop_last()).put(text.last())
        }
    }

    /// Placing the cursor. Any position is accepted, on the grid or off it.
    pub open spec fn move_to(self, column: u16, row: u16) -> SurfaceModel {
        SurfaceModel { cursor_column: column, cursor_row: row, ..self }
    }

    /// Blanking every cell. The cursor stays where it is.
    pub open spec fn clear(self) -> SurfaceModel {
        SurfaceModel {
            cells: Seq::new(
                self.rows as nat,
                |r: int| Seq::new(self.columns as nat, |c: int| BLANK),
            ),
            ..self
        }
    }

    /// Changing the size. Cells that exist before and after keep what they
    /// hold, new cells are blank, and the cursor stays where it is.
    pub open spec fn resize(self, columns: u16, rows: u16) -> SurfaceModel {
        SurfaceModel {
            columns,
            rows,
            cells: Seq::new(
                rows as nat,
                |r: int|
                    Seq::new(
                        columns as nat,
                        |c: int|
                            if r < self.rows && c < self.columns {
                                self.cells[r][c]
                            } else {
                                BLANK
                            },
                    ),
            ),
            ..self
        }
    }

    /// Carrying out one operation.
    pub open spec fn apply(self, op: OpModel) -> SurfaceModel {
        match op {
            OpModel::Clear => self.clear(),
            OpModel::MoveTo(column, row) => self.move_to(column, row),
            OpModel::Print(text) => self.print(text),
        }
    }

    /// Carrying out a run of operations, first to last.
    pub open spec fn apply_all(self, ops: Seq<OpModel>) -> SurfaceModel
        decreases ops.len(),
    {
        if ops.len() == 0 {
            self
        } else {
            self.apply_all(ops.drop_last()).apply(ops.last())
        }
    }

    /// Carrying out draw commands one at a time: for each, first to last, a
    /// move to its position and then a print of its text.
    pub open spec fn draw_each(self, commands: Seq<CommandModel>) -> SurfaceModel
        decreases commands.len(),
    {
        if commands.len() == 0 {
            self
        } else {
            self.draw_each(commands.drop_last()).move_to(
                commands.last().column,
                commands.last().row,
            ).print(commands.last().text)
        }
    }
}

/// Where the cell at `column`, `row` lies in a row-by-row layout of rows
/// that are `columns` wide.
spec fn cell_index(columns: int, column: int, row: int) -> int {
    row * columns + column
}

/// Whether a row-by-row run of cells, `wide` to the row, holds at column
/// `column` of row `row` what the surface `target` holds there.
spec fn laid_out(cells: Seq<char>, wide: int, target: SurfaceModel, column: int, row: int) -> bool {
    &&& 0 <= cell_index(wide, column, row) < cells.len()
    &&& 0 <= row < target.cells.len()
    &&& 0 <= column < target.cells[row].len()
    &&& cells[cell_index(wide, column, row)] == target.cells[row][column]
}

proof fn lemma_cell_index_bounds(columns: int, rows: int, column: int, row: int)
    requires
        0 <= column < columns,
        0 <= row < rows,
    ensures
        0 <= cell_index(columns, column, row) < rows * columns,
{
    assert(0 <= row * columns + column < rows * columns) by (nonlinear_arith)
        requires
            0 <= column < columns,
            0 <= row < rows,
    ;
}

proof fn lemma_cell_index_injective(columns: int, c1: int, r1: int, c2: int, r2: int)
    requires
        0 <= c1 < columns,
        0 <= c2 < columns,
        0 <= r1,
        0 <= r2,
        cell_index(columns, c1, r1) == cell_index(columns, c2, r2),
    ensures
        c1 == c2,
        r1 == r2,
{
    assert(r1 == r2) by (nonlinear_arith)
        requires
            0 <= c1 < columns,
            0 <= c2 < columns,
            0 <= r1,
            0 <= r2,
            r1 * columns + c1 == r2 * columns + c2,
    ;
}

proof fn lemma_grid_fits(columns: u16, rows: u16)
    ensures
        0 <= rows * columns <= 0xFFFF_FFFF,
{
    assert(0 <= rows * columns <= 0xFFFF_FFFF) by (nonlinear_arith)
        requires
            0 <= rows <= 0xFFFF,
            0 <= columns <= 0xFFFF,
    ;
}

/// A simulated terminal surface.
pub struct Surface {
    columns: u16,
    rows: u16,
    /// The cells, row by row, in one run.
    cells: Vec<char>,
    cursor_column: u16,
    cursor_row: u16,
}

impl View for Surface {
    type V = SurfaceModel;

    closed spec fn view(&self) -> SurfaceModel {
        SurfaceModel {
            columns: self.columns,
            rows: self.rows,
            cells: Seq::new(
                self.rows as nat,
                |r: int|
                    Seq::new(
                        self.columns as nat,
                        |c: int| self.cells@[cell_index(self.columns as int, c, r)],
                    ),
            ),
            cursor_column: self.cursor_column,
            cursor_row: self.cursor_row,
        }
    }
}

impl Surface {
    #[verifier::type_invariant]
    spec fn consistent(self) -> bool {
        self.cells@.len() == self.rows * self.columns
    }

    /// A run of `count` blank cells.
    fn blank_cells(count: usize) -> (cells: Vec<char>)
        ensures
            cells@.len() == count,
            forall|i: int| 0 <= i < count ==> #[trigger] cells@[i] == BLANK,
    {
        let mut cells: Vec<char> = Vec::new();
        let mut n: usize = 0;
        while n < count
            invariant
                n <= count,
                cells@.len() == n,
                forall|i: int| 0 <= i < n ==> #[trigger] cells@[i] == BLANK,
            decreases count - n,
        {
            cells.push(BLANK);
            n = n + 1;
        }
        cells
    }

    /// A surface of `columns` by `rows` blank cells, cursor at the top left.
    pub fn blank(columns: u16, rows: u16) -> (surface: Surface)
        ensures
            surface@ == SurfaceModel::blank(columns, rows),
            surface@.well_formed(),
    {
        proof {
            lemma_grid_fits(columns, rows);
        }
        let cells = Surface::blank_cells((rows as usize) * (columns as usize));
        let surface = Surface { columns, rows, cells, cursor_column: 0, cursor_row: 0 };
        proof {
            assert forall|r: int| 0 <= r < rows implies (#[trigger] surface@.cells[r])
                =~= SurfaceModel::blank(columns, rows).cells[r] by {
                assert forall|c: int| 0 <= c < columns implies surface@.cells[r][c] == BLANK by {
                    lemma_cell_index_bounds(columns as int, rows as int, c, r);
                }
            }
            assert(surface@.cells =~= SurfaceModel::blank(columns, rows).cells);
        }
        surface
    }

    /// The surface's dimensions: columns, then rows.
    pub fn size(&self) -> (size: (u16, u16))
        ensures
            size == (self@.columns, self@.rows),
            self@.well_formed(),
    {
        (self.columns, self.rows)
    }

    /// Where the cursor stands: column, then row.
    pub fn cursor(&self) -> (cursor: (u16, u16))
        ensures
            cursor == (self@.cursor_column, self@.cursor_row),
    {
        (self.cursor_column, self.cursor_row)
    }

    /// What the cell at `column`, `row` holds, if the grid has such a cell.
    pub fn cell(&self, column: u16, row: u16) -> (cell: Option<char>)
        ensures
            cell == if column < self@.columns && row < self@.rows {
                Some(self@.cells[row as int][column as int])
            } else {
                None
            },
    {
        proof {
            use_type_invariant(self);
            lemma_grid_fits(self.columns, self.rows);
        }
        if column < self.columns && row < self.rows {
            proof {
                lemma_cell_index_bounds(
                    self.columns as int,
                    self.rows as int,
                    column as int,
                    row as int,
                );
            }
            let index = (row as usize) * (self.columns as usize) + (column as usize);
            Some(self.cells[index])
        } else {
            None
        }
    }

    /// Places the cursor. The position is taken as it is.
    pub fn move_to(&mut self, column: u16, row: u16)
        ensures
            final(self)@ == old(self)@.move_to(column, row),
            final(self)@.well_formed(),
    {
        proof {
            use_type_invariant(&*self);
        }
        self.cursor_column = column;
        self.cursor_row = row;
    }

    /// Writes one character at the cursor.
    pub fn put(&mut self, ch: char)
        ensures
            final(self)@ == old(self)@.put(ch),
            final(self)@.well_formed(),
    {
        proof {
            use_type_invariant(&*self);
            lemma_grid_fits(self.columns, self.rows);
        }
        if self.cursor_row < self.rows && self.cursor_column < self.columns {
            let ghost columns = self.columns as int;
            let ghost c0 = self.cursor_column as int;
            let ghost r0 = self.cursor_row as int;
            proof {
                lemma_cell_index_bounds(columns, self.rows as int, c0, r0);
            }
            let index = (self.cursor_row as usize) * (self.columns as usize) + (
            self.cursor_column as usize);
            self.cells[index] = ch;
            self.cursor_column = self.cursor_column + 1;
            proof {
                let expected = old(self)@.put(ch);
                assert forall|r: int| 0 <= r < self.rows implies (#[trigger] self@.cells[r])
                    =~= expected.cells[r] by {
                    assert forall|c: int| 0 <= c < self.columns implies self@.cells[r][c]
                        == expected.cells[r][c] by {
                        lemma_cell_index_bounds(columns, self.rows as int, c, r);
                        if r != r0 || c != c0 {
                            if cell_index(columns, c, r) == cell_index(columns, c0, r0) {
                                lemma_cell_index_injective(columns, c, r, c0, r0);
                            }
                        }
                    }
                }
                assert(self@.cells =~= expected.cells);
            }
        }
    }

    /// Writes a text at the cursor, character by character.
    pub fn print(&mut self, text: &str)
        ensures
            final(self)@ == old(self)@.print(text@),
            final(self)@.well_formed(),
    {
        let ghost start = self@;
        assert(text@.take(0) =~= Seq::<char>::empty());
        for ch in it: text.chars()
            invariant
                it.seq() == text@,
                self@ == start.print(text@.take(it.index() as int)),
        {
            proof {
                let prefix = text@.take(it.index() + 1);
                assert(prefix.drop_last() =~= text@.take(it.index() as int));
                assert(prefix.last() == ch);
            }
            self.put(ch);
        }
        assert(text@.take(text@.len() as int) =~= text@);
    }

    /// Erases the whole surface. The cursor stays where it is.
    pub fn clear(&mut self)
        ensures
            final(self)@ == old(self)@.clear(),
            final(self)@.well_formed(),
    {
        proof {
            use_type_invariant(&*self);
            lemma_grid_fits(self.columns, self.rows);
        }
        self.cells = Surface::blank_cells((self.rows as usize) * (self.columns as usize));
        proof {
            let expected = old(self)@.clear();
            assert forall|r: int| 0 <= r < self.rows implies (#[trigger] self@.cells[r])
                =~= expected.cells[r] by {
                assert forall|c: int| 0 <= c < self.columns implies self@.cells[r][c]
                    == BLANK by {
                    lemma_cell_index_bounds(self.columns as int, self.rows as int, c, r);
                }
            }
            assert(self@.cells =~= expected.cells);
        }
    }

    /// Gives the surface new dimensions. Cells that exist before and after
    /// keep what they hold; new cells are blank.
    pub fn resize(&mut self, columns: u16, rows: u16)
        ensures
            final(self)@ == old(self)@.resize(columns, rows),
            final(self)@.well_formed(),
            final(self)@.columns == columns,
            final(self)@.rows == rows,
    {
        proof {
            use_type_invariant(&*self);
            lemma_grid_fits(self.columns, self.rows);
            lemma_grid_fits(columns, rows);
        }
        let ghost target = self@.resize(columns, rows);
        let ghost wide = columns as int;
        let mut cells: Vec<char> = Vec::new();
        let mut r: u16 = 0;
        while r < rows
            invariant
                r <= rows,
                wide == columns,
                target == self@.resize(columns, rows),
                self.cells@.len() == self.rows * self.columns,
                self.rows * self.columns <= 0xFFFF_FFFF,
                cells@.len() == r * wide,
                forall|i: int, j: int|
                    0 <= i < r && 0 <= j < wide ==> #[trigger] laid_out(cells@, wide, target, j, i),
            decreases rows - r,
        {
            let mut c: u16 = 0;
            while c < columns
                invariant
                    r < rows,
                    c <= columns,
                    wide == columns,
                    target == self@.resize(columns, rows),
                    self.cells@.len() == self.rows * self.columns,
                    self.rows * self.columns <= 0xFFFF_FFFF,
                    cells@.len() == r * wide + c,
                    forall|i: int, j: int|
                        0 <= i < r && 0 <= j < wide ==> #[trigger] laid_out(
                            cells@,
                            wide,
                            target,
                            j,
                            i,
                        ),
                    forall|j: int|
                        0 <= j < c ==> #[trigger] laid_out(cells@, wide, target, j, r as int),
                decreases columns - c,
            {
                let ghost filled = cells@;
                let ch = if r < self.rows && c < self.columns {
                    proof {
                        lemma_cell_index_bounds(
                            self.columns as int,
                            self.rows as int,
                            c as int,
                            r as int,
                        );
                    }
                    self.cells[(r as usize) * (self.columns as usize) + (c as usize)]
                } else {
                    BLANK
                };
                cells.push(ch);
                proof {
                    assert forall|i: int, j: int| 0 <= i < r && 0 <= j < wide implies #[trigger] laid_out(
                        cells@,
                        wide,
                        target,
                        j,
                        i,
                    ) by {
                        assert(laid_out(filled, wide, target, j, i));
                    }
                    assert forall|j: int| 0 <= j < c + 1 implies #[trigger] laid_out(
                        cells@,
                        wide,
                        target,
                        j,
                        r as int,
                    ) by {
                        if j < c {
                            assert(laid_out(filled, wide, target, j, r as int));
                        }
                    }
                }
                c = c + 1;
            }
            proof {
                assert((r + 1) * wide == r * wide + wide) by (nonlinear_arith);
            }
            r = r + 1;
        }
        *self = Surface {
            columns,
            rows,
            cells,
            cursor_column: self.cursor_column,
            cursor_row: self.cursor_row,
        };
        proof {
            assert forall|i: int| 0 <= i < rows implies (#[trigger] self@.cells[i])
                =~= target.cells[i] by {
                assert forall|j: int| 0 <= j < columns implies self@.cells[i][j]
                    == target.cells[i][j] by {
                    assert(laid_out(self.cells@, wide, target, j, i));
                }
            }
            assert(self@.cells =~= target.cells);
        }
    }

    /// The cells of one row, left to right, if the grid has such a row.
    pub fn row(&self, row: u16) -> (cells: Option<Vec<char>>)
        ensures
            row < self@.rows ==> cells is Some && cells->0@ == self@.cells[row as int],
            row >= self@.rows ==> cells is None,
    {
        proof {
            use_type_invariant(self);
            lemma_grid_fits(self.columns, self.rows);
        }
        if row >= self.rows {
            return None;
        }
        let mut cells: Vec<char> = Vec::new();
        let mut c: u16 = 0;
        while c < self.columns
            invariant
                c <= self.columns,
                row < self.rows,
                self.cells@.len() == self.rows * self.columns,
                self.rows * self.columns <= 0xFFFF_FFFF,
                cells@.len() == c,
                forall|j: int| 0 <= j < c ==> #[trigger] cells@[j] == self@.cells[row as int][j],
            decreases self.columns - c,
        {
            proof {
                lemma_cell_index_bounds(
                    self.columns as int,
                    self.rows as int,
                    c as int,
                    row as int,
                );
            }
            cells.push(self.cells[(row as usize) * (self.columns as usize) + (c as usize)]);
            c = c + 1;
        }
        assert(cells@ =~= self@.cells[row as int]);
        Some(cells)
    }

    /// Carries out one operation.
    pub fn apply(&mut self, op: &OutputOp)
        ensures
            final(self)@ == old(self)@.apply(op@),
            final(self)@.well_formed(),
    {
        match op {
            OutputOp::Clear => self.clear(),
            OutputOp::MoveTo(column, row) => self.move_to(*column, *row),
            OutputOp::Print(text) => self.print(text.as_str()),
        }
    }

    /// Carries out a plan, first operation to last.
    pub fn run(&mut self, plan: &Vec<OutputOp>)
        ensures
            final(self)@ == old(self)@.apply_all(ops_view(plan@)),
            final(self)@.well_formed(),
    {
        let ghost start = self@;
        let ghost all = ops_view(plan@);
        let mut i: usize = 0;
        assert(all.take(0) =~= Seq::<OpModel>::empty());
        while i < plan.len()
            invariant
                i <= plan.len(),
                all == ops_view(plan@),
                self@ == start.apply_all(all.take(i as int)),
            decreases plan.len() - i,
        {
            proof {
                let prefix = all.take(i as int + 1);
                assert(prefix.drop_last() =~= all.take(i as int));
                assert(prefix.last() == plan[i as int]@);
            }
            self.apply(&plan[i]);
            i = i + 1;
        }
        assert(all.take(i as int) =~= all);
    }

    /// Draws a batch of commands. The result is that of carrying the
    /// commands out one at a time, in the order given: where two commands
    /// write the same cell, the later one wins. Without commands nothing
    /// changes.
    pub fn draw(&mut self, commands: &Vec<DrawCommand>)
        ensures
            final(self)@ == old(self)@.apply_all(draw_ops(commands_view(commands@))),
            final(self)@ == old(self)@.draw_each(commands_view(commands@)),
            commands.len() == 0 ==> final(self)@ == old(self)@,
            final(self)@.well_formed(),
    {
        proof {
            lemma_draw_is_sequential(self@, commands_view(commands@));
        }
        let plan = draw_plan(commands);
        self.run(&plan);
    }

    /// Lets the surface follow an event: a resize gives it the event's
    /// dimensions, any other event leaves it as it is.
    pub fn follow(&mut self, event: &TerminalEvent)
        ensures
            final(self)@ == match event@ {
                EventModel::Resize(columns, rows) => old(self)@.resize(columns, rows),
                _ => old(self)@,
            },
            event@ matches EventModel::Resize(columns, rows) ==> final(self)@.columns == columns
                && final(self)@.rows == rows,
            final(self)@.well_formed(),
    {
        match event {
            TerminalEvent::Resize(columns, rows) => self.resize(*columns, *rows),
            _ => {},
        }
    }
}

/// Carrying out two runs of operations one after the other is carrying out
/// their concatenation.
pub proof fn lemma_apply_all_concat(surface: SurfaceModel, first: Seq<OpModel>, second: Seq<OpModel>)
    ensures
        surface.apply_all(first + second) == surface.apply_all(first).apply_all(second),
    decreases second.len(),
{
    if second.len() == 0 {
        assert(first + second =~= first);
    } else {
        lemma_apply_all_concat(surface, first, second.drop_last());
        assert((first + second).drop_last() =~= first + second.drop_last());
        assert((first + second).last() == second.last());
    }
}

/// A batched draw leaves the surface exactly as the same commands carried
/// out one at a time, in the same order, do; and a draw of no commands leaves
/// it untouched.
pub proof fn lemma_draw_is_sequential(surface: SurfaceModel, commands: Seq<CommandModel>)
    ensures
        surface.apply_all(draw_ops(commands)) == surface.draw_each(commands),
        commands.len() == 0 ==> surface.apply_all(draw_ops(commands)) == surface,
    decreases commands.len(),
{
    if commands.len() > 0 {
        let earlier = commands.drop_last();
        let last = commands.last();
        lemma_draw_is_sequential(surface, earlier);
        let moved = draw_ops(earlier).push(OpModel::MoveTo(last.column, last.row));
        let all = moved.push(OpModel::Print(last.text));
        assert(all.drop_last() =~= moved);
        assert(moved.drop_last() =~= draw_ops(earlier));
        assert(surface.apply_all(moved) == surface.apply_all(draw_ops(earlier)).apply(
            moved.last(),
        ));
        assert(surface.apply_all(all) == surface.apply_all(moved).apply(all.last()));
    }
}

/// How many characters of a text of `length` characters land on the grid
/// when printed at the surface's cursor: as many as fit between the cursor
/// and the right edge, and none when the cursor is off the grid.
pub open spec fn written(surface: SurfaceModel, length: nat) -> int {
    if !surface.cursor_inside() {
        0
    } else if length <= surface.columns - surface.cursor_column {
        length as int
    } else {
        surface.columns - surface.cursor_column
    }
}

/// What printing does to a well-formed surface. The characters that fit
/// land, in order, on the cursor's row from the cursor rightwards; the rest of
/// the text is clipped; every other cell keeps what it held; and the cursor
/// ends just right of the last character written. The dimensions do not
/// change.
pub proof fn lemma_print_clips(surface: SurfaceModel, text: Seq<char>)
    requires
        surface.well_formed(),
    ensures
        surface.print(text).well_formed(),
        surface.print(text).columns == surface.columns,
        surface.print(text).rows == surface.rows,
        surface.print(text).cursor_row == surface.cursor_row,
        surface.print(text).cursor_column == surface.cursor_column + written(surface, text.len()),
        forall|r: int, c: int|
            0 <= r < surface.rows && 0 <= c < surface.columns ==> #[trigger] surface.print(
                text,
            ).cells[r][c] == if r == surface.cursor_row && surface.cursor_column <= c
                < surface.cursor_column + written(surface, text.len()) {
                text[c - surface.cursor_column]
            } else {
                surface.cells[r][c]
            },
    decreases text.len(),
{
    if text.len() > 0 {
        let shorter = text.drop_last();
        lemma_print_clips(surface, shorter);
        let before = surface.print(shorter);
        let after = before.put(text.last());
        assert(after == surface.print(text));
        assert forall|r: int, c: int|
            0 <= r < surface.rows && 0 <= c < surface.columns implies #[trigger] after.cells[r][c]
            == if r == surface.cursor_row && surface.cursor_column <= c < surface.cursor_column
            + written(surface, text.len()) {
            text[c - surface.cursor_column]
        } else {
            surface.cells[r][c]
        } by {
            assert(before.cells[r][c] == if r == surface.cursor_row && surface.cursor_column <= c
                < surface.cursor_column + written(surface, shorter.len()) {
                shorter[c - surface.cursor_column]
            } else {
                surface.cells[r][c]
            });
        }
    }
}

/// No operation changes the dimensions of a well-formed surface or breaks
/// its grid.
pub proof fn lemma_apply_keeps_shape(surface: SurfaceModel, op: OpModel)
    requires
        surface.well_formed(),
    ensures
        surface.apply(op).well_formed(),
        surface.apply(op).columns == surface.columns,
        surface.apply(op).rows == surface.rows,
{
    match op {
        OpModel::Print(text) => {
            lemma_print_clips(surface, text);
        },
        _ => {},
    }
}

/// No run of operations changes the dimensions of a well-formed surface or
/// breaks its grid.
pub proof fn lemma_apply_all_keeps_shape(surface: SurfaceModel, ops: Seq<OpModel>)
    requires
        surface.well_formed(),
    ensures
        surface.apply_all(ops).well_formed(),
        surface.apply_all(ops).columns == surface.columns,
        surface.apply_all(ops).rows == surface.rows,
    decreases ops.len(),
{
    if ops.len() > 0 {
        lemma_apply_all_keeps_shape(surface, ops.drop_last());
        lemma_apply_keeps_shape(surface.apply_all(ops.drop_last()), ops.last());
    }
}

/// A resized surface is well formed and has the dimensions asked for,
/// whatever it was before.
pub proof fn lemma_resize_sets_size(surface: SurfaceModel, columns: u16, rows: u16)
    ensures
        surface.resize(columns, rows).well_formed(),
        surface.resize(columns, rows).columns == columns,
        surface.resize(columns, rows).rows == rows,
{
}

} // verus!
