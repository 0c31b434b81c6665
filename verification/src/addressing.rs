use vstd::prelude::*;

use crate::errors::CanvasError;

verus! {

/// True when the 1-based coordinate pair `(x, y)` lies inside the rectangle
/// `1..=xlim` by `1..=ylim`.
pub open spec fn in_bounds(x: usize, y: usize, xlim: usize, ylim: usize) -> bool {
    1 <= x <= xlim && 1 <= y <= ylim
}

/// The linear index that `(x, y)` maps to: `x` selects a block of `ylim`
/// consecutive cells, `y` the offset inside that block.
pub open spec fn flat_index(x: usize, y: usize, ylim: usize) -> int {
    (x - 1) * ylim + (y - 1)
}

/// For valid coordinates the flattened index lands strictly below
/// `xlim * ylim`, so it never escapes a backing vector of that length.
pub proof fn lemma_flat_index_in_range(x: usize, y: usize, xlim: usize, ylim: usize)
    requires
        in_bounds(x, y, xlim, ylim),
    ensures
        0 <= flat_index(x, y, ylim) < xlim * ylim,
{
    let xi: int = x as int;
    let yi: int = y as int;
    let xl: int = xlim as int;
    let yl: int = ylim as int;
    assert(0 <= (xi - 1) * yl + (yi - 1) < xl * yl) by (nonlinear_arith)
        requires
            1 <= xi <= xl,
            1 <= yi <= yl,
    ;
}

/// The addressing is injective: two valid coordinate pairs that flatten to
/// the same index are the same pair. Together with
/// `lemma_flat_index_in_range` this makes the map from valid coordinates
/// onto `0..xlim * ylim` a bijection.
pub proof fn lemma_flat_index_injective(
    x1: usize,
    y1: usize,
    x2: usize,
    y2: usize,
    xlim: usize,
    ylim: usize,
)
    requires
        in_bounds(x1, y1, xlim, ylim),
        in_bounds(x2, y2, xlim, ylim),
        flat_index(x1, y1, ylim) == flat_index(x2, y2, ylim),
    ensures
        x1 == x2,
        y1 == y2,
{
    let idx: int = flat_index(x1, y1, ylim);
    vstd::arithmetic::div_mod::lemma_fundamental_div_mod_converse(
        idx,
        ylim as int,
        x1 - 1,
        y1 - 1,
    );
    vstd::arithmetic::div_mod::lemma_fundamental_div_mod_converse(
        idx,
        ylim as int,
        x2 - 1,
        y2 - 1,
    );
}

/// Flatten 1-based `(x, y)` coordinates into an index of the 1-dimensional
/// backing vector, checking the limits and applying the `-1` offset.
///
/// This check is the sole admission gate in front of the backing storage:
/// any coordinate outside the rectangle is rejected here, before any array
/// access, with `OutOfBounds` naming the coordinates and the limits.
pub fn coords_to_index(x: usize, y: usize, xlim: usize, ylim: usize) -> (r: Result<
    usize,
    CanvasError,
>)
    requires
        xlim * ylim <= usize::MAX,
    ensures
        r is Ok <==> in_bounds(x, y, xlim, ylim),
        r is Ok ==> r->Ok_0 == flat_index(x, y, ylim),
        !in_bounds(x, y, xlim, ylim) ==> r == Err::<usize, CanvasError>(
            (CanvasError::OutOfBounds { x, y, width: xlim, height: ylim }),
        ),
{
    if x < 1 || x > xlim || y < 1 || y > ylim {
        return Err(CanvasError::OutOfBounds { x, y, width: xlim, height: ylim });
    }
    proof {
        lemma_flat_index_in_range(x, y, xlim, ylim);
    }
    Ok((x - 1) * ylim + (y - 1))
}

} // verus!
