//! Facts about row-by-row indexing and about wrapping around an edge.

use vstd::prelude::*;
use vstd::arithmetic::div_mod::{lemma_fundamental_div_mod, lemma_fundamental_div_mod_converse};

verus! {

/// A position inside a `width` by `height` grid has its flat index inside
/// the cell sequence.
pub proof fn lemma_index_in_range(row: int, column: int, width: int, height: int)
    by (nonlinear_arith)
    requires
        0 <= row < height,
        0 <= column < width,
    ensures
        0 <= row * width + column < width * height,
        row * width + width <= width * height,
{
}

/// The row that starts at `row * width` ends where the next one starts, and
/// both lie inside the cell sequence.
pub proof fn lemma_row_start_step(row: int, width: int, height: int)
    by (nonlinear_arith)
    requires
        0 <= row < height,
        0 < width,
    ensures
        row * width + width == (row + 1) * width,
        (row + 1) * width <= width * height,
        0 <= row * width,
{
}

/// A flat index splits back into the row and the column it was made from.
pub proof fn lemma_index_split(row: int, column: int, width: int)
    requires
        0 <= column < width,
    ensures
        (row * width + column) / width == row,
        (row * width + column) % width == column,
{
    lemma_fundamental_div_mod_converse(row * width + column, width, row, column);
}

/// Stepping back by one on a ring of `n` positions: position 0 is preceded
/// by position `n - 1`, every other position by the one before it.
pub proof fn lemma_step_back(x: int, n: int)
    requires
        n > 0,
    ensures
        0 <= x % n < n,
        (x - 1) % n == if x % n == 0 {
            n - 1
        } else {
            x % n - 1
        },
{
    lemma_fundamental_div_mod(x, n);
    let q = x / n;
    let r = x % n;
    if r == 0 {
        assert(x - 1 == (q - 1) * n + (n - 1)) by (nonlinear_arith)
            requires
                x == n * q + r,
                r == 0,
        ;
        lemma_fundamental_div_mod_converse(x - 1, n, q - 1, n - 1);
    } else {
        assert(x - 1 == q * n + (r - 1)) by (nonlinear_arith)
            requires
                x == n * q + r,
        ;
        lemma_fundamental_div_mod_converse(x - 1, n, q, r - 1);
    }
}

/// Stepping forward by one on a ring of `n` positions: position `n - 1` is
/// followed by position 0, every other position by the one after it.
pub proof fn lemma_step_forward(x: int, n: int)
    requires
        n > 0,
    ensures
        0 <= x % n < n,
        (x + 1) % n == if x % n == n - 1 {
            0
        } else {
            x % n + 1
        },
{
    lemma_fundamental_div_mod(x, n);
    let q = x / n;
    let r = x % n;
    if r == n - 1 {
        assert(x + 1 == (q + 1) * n + 0) by (nonlinear_arith)
            requires
                x == n * q + r,
                r == n - 1,
        ;
        lemma_fundamental_div_mod_converse(x + 1, n, q + 1, 0);
    } else {
        assert(x + 1 == q * n + (r + 1)) by (nonlinear_arith)
            requires
                x == n * q + r,
        ;
        lemma_fundamental_div_mod_converse(x + 1, n, q, r + 1);
    }
}

} // verus!
