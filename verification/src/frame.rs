//! The frame buffer: one glyph per board cell, and the search for a free cell.

use vstd::prelude::*;
use crate::{on_board, NUM_COLS, NUM_ROWS};

verus! {

/// What one board cell shows.
#[derive(Copy, Clone, Debug, PartialEq, Eq, Structural)]
pub enum Glyph {
    Blank,
    FoodDot,
    FoodRing,
    HeadUp,
    HeadDown,
    HeadLeft,
    HeadRight,
    Body,
}

impl Glyph {
    /// The text that a terminal prints for this glyph.
    pub open spec fn text(self) -> Seq<char> {
        match self {
            Glyph::Blank => " "@,
            Glyph::FoodDot => "●"@,
            Glyph::FoodRing => "◉"@,
            Glyph::HeadUp => "▲"@,
            Glyph::HeadDown => "▼"@,
            Glyph::HeadLeft => "◀"@,
            Glyph::HeadRight => "▶"@,
            Glyph::Body => "■"@,
        }
    }

    pub fn as_str(self) -> (s: &'static str)
        ensures
            s@ == self.text(),
    {
        match self {
            Glyph::Blank => " ",
            Glyph::FoodDot => "●",
            Glyph::FoodRing => "◉",
            Glyph::HeadUp => "▲",
            Glyph::HeadDown => "▼",
            Glyph::HeadLeft => "◀",
            Glyph::HeadRight => "▶",
            Glyph::Body => "■",
        }
    }
}

/// Number of cells of the board.
pub open spec fn num_cells() -> nat {
    (NUM_COLS * NUM_ROWS) as nat
}

/// The cell with running number `k`, counting down each column in turn.
pub open spec fn cell_of(k: int) -> (usize, usize) {
    ((k / NUM_ROWS as int) as usize, (k % NUM_ROWS as int) as usize)
}

/// A full snapshot of the board, column by column.
#[derive(Clone, Debug, PartialEq, Eq)]
pub struct Frame {
    cells: Vec<Glyph>,
}

impl Frame {
    /// Every board cell has exactly one glyph.
    pub closed spec fn wf(&self) -> bool {
        self.cells@.len() == NUM_COLS * NUM_ROWS
    }

    /// The glyph at a cell of the board.
    pub closed spec fn glyph_at(&self, col: int, row: int) -> Glyph {
        self.cells@[col * NUM_ROWS + row]
    }

    /// Whether no cell of the board is blank.
    pub open spec fn is_full(&self) -> bool {
        forall|col: int, row: int|
            on_board(col, row) ==> #[trigger] self.glyph_at(col, row) != Glyph::Blank
    }

    /// Whether two frames show the same glyph in every cell.
    pub open spec fn same_as(&self, other: &Frame) -> bool {
        forall|col: int, row: int|
            on_board(col, row) ==> #[trigger] self.glyph_at(col, row) == other.glyph_at(col, row)
    }

    /// Whether this frame is `before` with `glyph` written at `(col, row)`
    /// and every other cell untouched.
    pub open spec fn is_update_of(&self, before: &Frame, col: int, row: int, glyph: Glyph) -> bool {
        forall|c: int, r: int|
            on_board(c, r) ==> #[trigger] self.glyph_at(c, r) == (if c == col && r == row {
                glyph
            } else {
                before.glyph_at(c, r)
            })
    }

    pub fn get(&self, col: usize, row: usize) -> (glyph: Glyph)
        requires
            self.wf(),
            on_board(col as int, row as int),
        ensures
            glyph == self.glyph_at(col as int, row as int),
    {
        self.cells[col * NUM_ROWS + row]
    }

    pub fn set(&mut self, col: usize, row: usize, glyph: Glyph)
        requires
            old(self).wf(),
            on_board(col as int, row as int),
        ensures
            final(self).wf(),
            final(self).is_update_of(old(self), col as int, row as int, glyph),
    {
        self.cells.set(col * NUM_ROWS + row, glyph);
    }
}

/// A frame in which every cell is blank.
pub fn new_frame() -> (frame: Frame)
    ensures
        frame.wf(),
        forall|col: int, row: int|
            on_board(col, row) ==> #[trigger] frame.glyph_at(col, row) == Glyph::Blank,
{
    let mut cells: Vec<Glyph> = Vec::with_capacity(NUM_COLS * NUM_ROWS);
    let mut k: usize = 0;
    while k < NUM_COLS * NUM_ROWS
        invariant
            k <= NUM_COLS * NUM_ROWS,
            cells@.len() == k,
            forall|i: int| 0 <= i < k ==> cells@[i] == Glyph::Blank,
        decreases NUM_COLS * NUM_ROWS - k,
    {
        cells.push(Glyph::Blank);
        k += 1;
    }
    Frame { cells }
}

/// The blank cells among the first `k` cells of the board, in running order.
pub open spec fn empty_cells(frame: &Frame, k: nat) -> Seq<(usize, usize)>
    decreases k,
{
    if k == 0 {
        Seq::empty()
    } else {
        let before = empty_cells(frame, (k - 1) as nat);
        let cell = cell_of(k - 1);
        if frame.glyph_at(cell.0 as int, cell.1 as int) == Glyph::Blank {
            before.push(cell)
        } else {
            before
        }
    }
}

/// The cell that two probing coordinates and one pick lead to: the probed
/// cell if it is blank, else the blank cell that `pick` selects among all of
/// them, else nothing.
pub open spec fn chosen_position(frame: &Frame, col: usize, row: usize, pick: usize) -> Option<
    (usize, usize),
> {
    let cells = empty_cells(frame, num_cells());
    if frame.glyph_at(col as int, row as int) == Glyph::Blank {
        Some((col, row))
    } else if cells.len() == 0 {
        None
    } else {
        Some(cells[pick as int % cells.len() as int])
    }
}

/// `empty_cells` lists blank board cells only, and misses none of those it
/// has passed.
pub proof fn lemma_empty_cells(frame: &Frame, k: nat)
    requires
        k <= num_cells(),
    ensures
        empty_cells(frame, k).len() <= k,
        forall|i: int|
            0 <= i < empty_cells(frame, k).len() ==> {
                let cell = #[trigger] empty_cells(frame, k)[i];
                on_board(cell.0 as int, cell.1 as int) && frame.glyph_at(
                    cell.0 as int,
                    cell.1 as int,
                ) == Glyph::Blank
            },
        forall|col: int, row: int|
            on_board(col, row) && col * NUM_ROWS + row < k && #[trigger] frame.glyph_at(col, row)
                == Glyph::Blank ==> empty_cells(frame, k).contains((col as usize, row as usize)),
    decreases k,
{
    if k > 0 {
        lemma_empty_cells(frame, (k - 1) as nat);
        let before = empty_cells(frame, (k - 1) as nat);
        let cell = cell_of(k - 1);
        let now = empty_cells(frame, k);
        assert forall|col: int, row: int|
            on_board(col, row) && col * NUM_ROWS + row < k && #[trigger] frame.glyph_at(col, row)
                == Glyph::Blank implies now.contains((col as usize, row as usize)) by {
            if col * NUM_ROWS + row < k - 1 {
                let i = choose|i: int|
                    0 <= i < before.len() && before[i] == (col as usize, row as usize);
                assert(now[i] == (col as usize, row as usize));
            } else {
                assert(cell == (col as usize, row as usize));
                assert(now[now.len() - 1] == cell);
            }
        }
    }
}

/// A frame is full exactly when it has no blank cell to list.
pub proof fn lemma_full_iff_no_empty_cells(frame: &Frame)
    ensures
        frame.is_full() <==> empty_cells(frame, num_cells()).len() == 0,
{
    lemma_empty_cells(frame, num_cells());
    let cells = empty_cells(frame, num_cells());
    if cells.len() > 0 {
        let cell = cells[0];
        assert(frame.glyph_at(cell.0 as int, cell.1 as int) == Glyph::Blank);
    }
    if !frame.is_full() {
        let (col, row) = choose|col: int, row: int|
            on_board(col, row) && frame.glyph_at(col, row) == Glyph::Blank;
        assert(cells.contains((col as usize, row as usize)));
    }
}

/// All blank cells of the frame, in running order.
pub fn empty_positions(frame: &Frame) -> (cells: Vec<(usize, usize)>)
    requires
        frame.wf(),
    ensures
        cells@ == empty_cells(frame, num_cells()),
{
    let mut cells: Vec<(usize, usize)> = Vec::with_capacity(NUM_ROWS * NUM_COLS);
    let mut k: usize = 0;
    while k < NUM_COLS * NUM_ROWS
        invariant
            frame.wf(),
            k <= NUM_COLS * NUM_ROWS,
            cells@ == empty_cells(frame, k as nat),
        decreases NUM_COLS * NUM_ROWS - k,
    {
        let col: usize = k / NUM_ROWS;
        let row: usize = k % NUM_ROWS;
        if frame.get(col, row) == Glyph::Blank {
            cells.push((col, row));
        }
        k += 1;
    }
    cells
}

/// Draws a number below `n` by `rand::Rng::gen_range` on the generator of
/// the current thread, over the range from zero up to but not including `n`.
/// Which number comes is left open; an empty range is not handed on.
#[verifier::external_body]
fn random_below(n: usize) -> (r: usize)
    requires
        n > 0,
    ensures
        r < n,
{
    rand::Rng::gen_range(&mut rand::thread_rng(), 0..n)
}

/// The free cell that the given probe and pick select; nothing is random here.
pub fn choose_empty_position(frame: &Frame, col: usize, row: usize, pick: usize) -> (res: Option<
    (usize, usize),
>)
    requires
        frame.wf(),
        on_board(col as int, row as int),
    ensures
        res == chosen_position(frame, col, row, pick),
{
    if frame.get(col, row) == Glyph::Blank {
        return Some((col, row));
    }
    let cells = empty_positions(frame);
    if cells.len() == 0 {
        return None;
    }
    Some(cells[pick % cells.len()])
}

/// A blank cell picked at random: one random probe first, then a random pick
/// among all blank cells. Returns nothing exactly when the frame is full.
pub fn get_random_empty_position(frame: &Frame) -> (res: Option<(usize, usize)>)
    requires
        frame.wf(),
    ensures
        res is None <==> frame.is_full(),
        res matches Some(cell) ==> on_board(cell.0 as int, cell.1 as int) && frame.glyph_at(
            cell.0 as int,
            cell.1 as int,
        ) == Glyph::Blank,
        exists|col: usize, row: usize, pick: usize|
            on_board(col as int, row as int) && res == chosen_position(frame, col, row, pick),
{
    proof {
        lemma_empty_cells(frame, num_cells());
        lemma_full_iff_no_empty_cells(frame);
    }
    let col = random_below(NUM_COLS);
    let row = random_below(NUM_ROWS);
    if frame.get(col, row) == Glyph::Blank {
        assert(Some((col, row)) == chosen_position(frame, col, row, 0));
        return Some((col, row));
    }
    let cells = empty_positions(frame);
    if cells.len() == 0 {
        assert(None::<(usize, usize)> == chosen_position(frame, col, row, 0));
        return None;
    }
    let pick = random_below(cells.len());
    assert(pick as int % cells@.len() as int == pick as int) by (nonlinear_arith)
        requires
            0 <= pick < cells@.len(),
    ;
    assert(Some(cells@[pick as int]) == chosen_position(frame, col, row, pick));
    Some(cells[pick])
}

/// On a full frame no probe and no pick finds a cell.
pub proof fn full_frame_offers_no_position(frame: &Frame, col: usize, row: usize, pick: usize)
    requires
        frame.is_full(),
        on_board(col as int, row as int),
    ensures
        chosen_position(frame, col, row, pick) is None,
{
    lemma_full_iff_no_empty_cells(frame);
}

/// Where a single cell of the frame is blank, every probe and every pick
/// lead to that cell.
pub proof fn sole_empty_cell_is_chosen(
    frame: &Frame,
    cell: (usize, usize),
    col: usize,
    row: usize,
    pick: usize,
)
    requires
        on_board(cell.0 as int, cell.1 as int),
        on_board(col as int, row as int),
        forall|c: int, r: int|
            on_board(c, r) ==> (#[trigger] frame.glyph_at(c, r) == Glyph::Blank <==> c == cell.0
                && r == cell.1),
    ensures
        chosen_position(frame, col, row, pick) == Some(cell),
{
    lemma_empty_cells(frame, num_cells());
    lemma_full_iff_no_empty_cells(frame);
    assert(frame.glyph_at(cell.0 as int, cell.1 as int) == Glyph::Blank);
    let cells = empty_cells(frame, num_cells());
    if frame.glyph_at(col as int, row as int) != Glyph::Blank {
        let i = pick as int % cells.len() as int;
        let found = cells[i];
        assert(frame.glyph_at(found.0 as int, found.1 as int) == Glyph::Blank);
    }
}

/// Something that can paint itself into a frame.
pub trait Drawable {
    /// The states in which drawing is possible.
    spec fn can_draw(&self) -> bool;

    /// The glyph that a board cell shows once this has been drawn over
    /// `before`.
    spec fn drawn_glyph(&self, before: &Frame, col: int, row: int) -> Glyph;

    fn draw(&self, frame: &mut Frame)
        requires
            self.can_draw(),
            old(frame).wf(),
        ensures
            final(frame).wf(),
            forall|col: int, row: int|
                on_board(col, row) ==> #[trigger] final(frame).glyph_at(col, row)
                    == self.drawn_glyph(old(frame), col, row),
    ;
}

} // verus!
