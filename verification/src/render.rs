//! The renderer's plan: which cells of a new frame have to be written out.

use vstd::prelude::*;
use crate::{NUM_COLS, NUM_ROWS};
use crate::frame::{cell_of, num_cells, Frame, Glyph};

verus! {

/// One write to the terminal: move the cursor to a cell and print a glyph.
#[derive(Copy, Clone, Debug, PartialEq, Eq, Structural)]
pub struct CellWrite {
    pub col: u16,
    pub row: u16,
    pub glyph: Glyph,
}

/// What one render pass sends to the terminal, in this order: the clearing
/// of the whole surface if `clear` is set, then the writes, then one flush.
pub struct RenderPlan {
    pub clear: bool,
    pub writes: Vec<CellWrite>,
}

/// Whether the cell with running number `k` has to be written.
pub open spec fn needs_write(last: &Frame, curr: &Frame, force: bool, k: int) -> bool {
    let cell = cell_of(k);
    force || curr.glyph_at(cell.0 as int, cell.1 as int) != last.glyph_at(
        cell.0 as int,
        cell.1 as int,
    )
}

/// The write that shows the cell with running number `k` as `curr` has it.
pub open spec fn write_of(curr: &Frame, k: int) -> CellWrite {
    let cell = cell_of(k);
    CellWrite {
        col: cell.0 as u16,
        row: cell.1 as u16,
        glyph: curr.glyph_at(cell.0 as int, cell.1 as int),
    }
}

/// The writes that the first `k` cells of the board need, in running order.
pub open spec fn cell_writes(last: &Frame, curr: &Frame, force: bool, k: nat) -> Seq<CellWrite>
    decreases k,
{
    if k == 0 {
        Seq::empty()
    } else {
        let before = cell_writes(last, curr, force, (k - 1) as nat);
        if needs_write(last, curr, force, k - 1) {
            before.push(write_of(curr, k - 1))
        } else {
            before
        }
    }
}

/// Plans one render pass from the frame shown last to the current one. A
/// forced pass clears the surface and writes every cell; any other pass
/// writes the cells that differ, column by column.
pub fn render(last_frame: &Frame, curr_frame: &Frame, force: bool) -> (plan: RenderPlan)
    requires
        last_frame.wf(),
        curr_frame.wf(),
    ensures
        plan.clear == force,
        plan.writes@ == cell_writes(last_frame, curr_frame, force, num_cells()),
{
    let mut writes: Vec<CellWrite> = Vec::new();
    let mut k: usize = 0;
    while k < NUM_COLS * NUM_ROWS
        invariant
            last_frame.wf(),
            curr_frame.wf(),
            k <= NUM_COLS * NUM_ROWS,
            writes@ == cell_writes(last_frame, curr_frame, force, k as nat),
        decreases NUM_COLS * NUM_ROWS - k,
    {
        let col: usize = k / NUM_ROWS;
        let row: usize = k % NUM_ROWS;
        let glyph = curr_frame.get(col, row);
        if glyph != last_frame.get(col, row) || force {
            writes.push(CellWrite { col: col as u16, row: row as u16, glyph });
        }
        k += 1;
    }
    RenderPlan { clear: force, writes }
}

/// A pass that is not forced writes nothing where the two frames agree in
/// every cell.
pub proof fn unchanged_frame_needs_no_write(last: &Frame, curr: &Frame, k: nat)
    requires
        curr.same_as(last),
        k <= num_cells(),
    ensures
        cell_writes(last, curr, false, k).len() == 0,
    decreases k,
{
    if k > 0 {
        unchanged_frame_needs_no_write(last, curr, (k - 1) as nat);
        let cell = cell_of(k - 1);
        assert(curr.glyph_at(cell.0 as int, cell.1 as int) == last.glyph_at(
            cell.0 as int,
            cell.1 as int,
        ));
    }
}

/// A forced pass writes every cell it passes, whatever the frames hold: one
/// write for each cell of the board.
pub proof fn forced_render_writes_every_cell(last: &Frame, curr: &Frame, k: nat)
    ensures
        cell_writes(last, curr, true, k).len() == k,
        forall|i: int| 0 <= i < k ==> cell_writes(last, curr, true, k)[i] == write_of(curr, i),
    decreases k,
{
    if k > 0 {
        forced_render_writes_every_cell(last, curr, (k - 1) as nat);
    }
}

/// Every planned write puts the current glyph into a cell that needs it, and
/// the writes come in running order of their cells.
pub proof fn writes_are_needed(last: &Frame, curr: &Frame, force: bool, k: nat)
    ensures
        cell_writes(last, curr, force, k).len() <= k,
        forall|i: int|
            0 <= i < cell_writes(last, curr, force, k).len() ==> exists|j: int|
                0 <= j < k && needs_write(last, curr, force, j) && #[trigger] cell_writes(
                    last,
                    curr,
                    force,
                    k,
                )[i] == write_of(curr, j),
    decreases k,
{
    if k > 0 {
        writes_are_needed(last, curr, force, (k - 1) as nat);
        let before = cell_writes(last, curr, force, (k - 1) as nat);
        let now = cell_writes(last, curr, force, k);
        assert forall|i: int| 0 <= i < now.len() implies exists|j: int|
            0 <= j < k && needs_write(last, curr, force, j) && #[trigger] now[i] == write_of(
                curr,
                j,
            ) by {
            if i < before.len() {
                let j = choose|j: int|
                    0 <= j < k - 1 && needs_write(last, curr, force, j) && before[i] == write_of(
                        curr,
                        j,
                    );
                assert(now[i] == write_of(curr, j));
            } else {
                assert(now[i] == write_of(curr, k - 1));
            }
        }
    }
}

} // verus!
