//! The scroll model: which rows and columns of the text are on screen.
use vstd::prelude::*;

verus! {

/// The first visible row and column.
#[derive(Clone, Copy, Debug, PartialEq, Eq, Structural)]
pub struct Offsets {
    pub row_offset: usize,
    pub col_offset: usize,
}

/// One axis of the scroll rule: move the window just enough that `pos`
/// lies in `[offset, offset + size)`.
pub open spec fn follow(pos: int, size: int, offset: int) -> int {
    if pos < offset {
        pos
    } else if pos >= offset + size {
        pos - size + 1
    } else {
        offset
    }
}

/// The offsets after the window has followed the cursor.
pub open spec fn recompute_spec(
    cursor_row: int,
    cursor_col: int,
    width: int,
    height: int,
    prev: Offsets,
) -> (int, int) {
    (
        follow(cursor_row, height, prev.row_offset as int),
        follow(cursor_col, width, prev.col_offset as int),
    )
}

/// Whether `pos` is visible in the window of `size` starting at `offset`.
pub open spec fn shows(pos: int, size: int, offset: int) -> bool {
    offset <= pos < offset + size
}

fn follow_exec(pos: usize, size: usize, offset: usize) -> (r: usize)
    requires
        size >= 1,
    ensures
        r as int == follow(pos as int, size as int, offset as int),
{
    if pos < offset {
        pos
    } else if pos - offset >= size {
        pos - size + 1
    } else {
        offset
    }
}

/// Moves the window so that the cursor at `(cursor_row, cursor_col)` is
/// visible in a `width` by `height` screen, changing each offset only when
/// the cursor lies outside the window on that axis.
pub fn recompute(
    cursor_row: usize,
    cursor_col: usize,
    width: usize,
    height: usize,
    prev: Offsets,
) -> (r: Offsets)
    requires
        width >= 1,
        height >= 1,
    ensures
        (r.row_offset as int, r.col_offset as int) == recompute_spec(
            cursor_row as int,
            cursor_col as int,
            width as int,
            height as int,
            prev,
        ),
        shows(cursor_row as int, height as int, r.row_offset as int),
        shows(cursor_col as int, width as int, r.col_offset as int),
{
    Offsets {
        row_offset: follow_exec(cursor_row, height, prev.row_offset),
        col_offset: follow_exec(cursor_col, width, prev.col_offset),
    }
}

/// Recomputing the window twice for the same cursor and screen gives the
/// same offsets as recomputing it once, and the cursor row is always on
/// screen afterwards.
pub proof fn lemma_recompute_idempotent(
    cursor_row: usize,
    cursor_col: usize,
    width: usize,
    height: usize,
    prev: Offsets,
)
    requires
        width >= 1,
        height >= 1,
    ensures
        ({
            let (r1, c1) = recompute_spec(cursor_row as int, cursor_col as int, width as int, height as int, prev);
            let once = Offsets { row_offset: r1 as usize, col_offset: c1 as usize };
            &&& recompute_spec(cursor_row as int, cursor_col as int, width as int, height as int, once) == (r1, c1)
            &&& shows(cursor_row as int, height as int, r1)
            &&& shows(cursor_col as int, width as int, c1)
        }),
{
}

} // verus!
