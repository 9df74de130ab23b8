use vstd::prelude::*;

verus! {

/// `(x, y)` is a place in the scan of the board: rows `0..x` are done, and row `x`
/// up to column `y`; `(20, 0)` is the end of the scan.
pub open spec fn scan_pos(x: int, y: int) -> bool {
    (0 <= x < 20 && 0 <= y <= 20) || (x == 20 && y == 0)
}

/// The cell `(a, b)` comes before the scan place `(x, y)`.
pub open spec fn before(a: int, b: int, x: int, y: int) -> bool {
    0 <= b < 20 && (a < x || (a == x && b < y))
}

/// The cells of the board that satisfy `pred` and come before the scan place `(x, y)`,
/// in scan order: by row `x`, then by column `y`.
pub open spec fn cells_where(pred: spec_fn(int, int) -> bool, x: int, y: int) -> Seq<(usize, usize)>
    decreases x, y,
{
    if x <= 0 && y <= 0 {
        Seq::empty()
    } else if y <= 0 {
        cells_where(pred, x - 1, 20)
    } else {
        let prev = cells_where(pred, x, y - 1);
        if pred(x, y - 1) {
            prev.push((x as usize, (y - 1) as usize))
        } else {
            prev
        }
    }
}

/// The number of cells of the whole board that satisfy `pred`.
pub open spec fn count_cells(pred: spec_fn(int, int) -> bool) -> nat {
    cells_where(pred, 20, 0).len()
}

/// Scanning further never finds fewer cells.
pub proof fn lemma_cells_prefix(pred: spec_fn(int, int) -> bool, x1: int, y1: int, x2: int, y2: int)
    requires
        scan_pos(x1, y1),
        scan_pos(x2, y2),
        20 * x1 + y1 <= 20 * x2 + y2,
    ensures
        cells_where(pred, x1, y1).len() <= cells_where(pred, x2, y2).len(),
    decreases x2, y2,
{
    if 20 * x1 + y1 == 20 * x2 + y2 {
        if y1 == 20 && y2 == 0 {
            assert(cells_where(pred, x2, y2) == cells_where(pred, x2 - 1, 20));
        } else if y2 == 20 && y1 == 0 {
            assert(cells_where(pred, x1, y1) == cells_where(pred, x1 - 1, 20));
        }
    } else if x2 <= 0 && y2 <= 0 {
    } else if y2 <= 0 {
        lemma_cells_prefix(pred, x1, y1, x2 - 1, 20);
    } else {
        lemma_cells_prefix(pred, x1, y1, x2, y2 - 1);
    }
}

/// Every cell found lies on the board, satisfies `pred` and comes before the scan place.
pub proof fn lemma_cells_sound(pred: spec_fn(int, int) -> bool, x: int, y: int, i: int)
    requires
        scan_pos(x, y),
        0 <= i < cells_where(pred, x, y).len(),
    ensures
        0 <= cells_where(pred, x, y)[i].0 < 20,
        0 <= cells_where(pred, x, y)[i].1 < 20,
        pred(cells_where(pred, x, y)[i].0 as int, cells_where(pred, x, y)[i].1 as int),
        before(cells_where(pred, x, y)[i].0 as int, cells_where(pred, x, y)[i].1 as int, x, y),
    decreases x, y,
{
    if x <= 0 && y <= 0 {
    } else if y <= 0 {
        lemma_cells_sound(pred, x - 1, 20, i);
    } else {
        let prev = cells_where(pred, x, y - 1);
        if i < prev.len() {
            lemma_cells_sound(pred, x, y - 1, i);
        }
    }
}

/// Predicates that agree on the board find the same cells.
pub proof fn lemma_cells_ext(p1: spec_fn(int, int) -> bool, p2: spec_fn(int, int) -> bool, x: int, y: int)
    requires
        scan_pos(x, y),
        forall|a: int, b: int| 0 <= a < 20 && 0 <= b < 20 ==> #[trigger] p1(a, b) == p2(a, b),
    ensures
        cells_where(p1, x, y) == cells_where(p2, x, y),
    decreases x, y,
{
    if x <= 0 && y <= 0 {
    } else if y <= 0 {
        lemma_cells_ext(p1, p2, x - 1, 20);
    } else {
        lemma_cells_ext(p1, p2, x, y - 1);
    }
}

/// A predicate that holds on fewer cells of the board finds no more of them.
pub proof fn lemma_cells_mono(p1: spec_fn(int, int) -> bool, p2: spec_fn(int, int) -> bool, x: int, y: int)
    requires
        scan_pos(x, y),
        forall|a: int, b: int| 0 <= a < 20 && 0 <= b < 20 && #[trigger] p2(a, b) ==> p1(a, b),
    ensures
        cells_where(p2, x, y).len() <= cells_where(p1, x, y).len(),
    decreases x, y,
{
    if x <= 0 && y <= 0 {
    } else if y <= 0 {
        lemma_cells_mono(p1, p2, x - 1, 20);
    } else {
        lemma_cells_mono(p1, p2, x, y - 1);
    }
}

/// A predicate that holds on one cell more finds one cell more, once the scan has
/// passed that cell.
pub proof fn lemma_cells_add(
    p1: spec_fn(int, int) -> bool,
    p2: spec_fn(int, int) -> bool,
    cx: int,
    cy: int,
    x: int,
    y: int,
)
    requires
        scan_pos(x, y),
        0 <= cx < 20 && 0 <= cy < 20,
        !p1(cx, cy),
        p2(cx, cy),
        forall|a: int, b: int|
            0 <= a < 20 && 0 <= b < 20 && !(a == cx && b == cy) ==> #[trigger] p1(a, b) == p2(a, b),
    ensures
        cells_where(p2, x, y).len() == cells_where(p1, x, y).len() + (if before(cx, cy, x, y) {
            1int
        } else {
            0int
        }),
    decreases x, y,
{
    if x <= 0 && y <= 0 {
    } else if y <= 0 {
        lemma_cells_add(p1, p2, cx, cy, x - 1, 20);
    } else {
        lemma_cells_add(p1, p2, cx, cy, x, y - 1);
    }
}

} // verus!
