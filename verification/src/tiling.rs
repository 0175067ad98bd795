//! The grid that every pattern is laid on.
//!
//! The cells of a grid are visited row by row. A cell is always drawn at its
//! own place. So that the picture tiles without a seam, a cell of column 0
//! can be drawn once more one grid width to the right, a cell of row 0 once
//! more one grid height below, and the cell in the corner once more at the
//! far corner.

use vstd::prelude::*;
use vstd::arithmetic::div_mod::lemma_fundamental_div_mod_converse;
use crate::shape::collect;

verus! {

/// Where a cell is drawn.
#[derive(Debug, Clone, Copy, PartialEq, Eq, Structural)]
pub enum Place {
    /// At the cell itself.
    Home,
    /// One grid width to the right of the cell.
    Right,
    /// One grid height below the cell.
    Below,
    /// One grid width to the right and one grid height below.
    Corner,
}

/// Which border cells a tiling draws a second time.
#[derive(Debug, Clone, Copy, PartialEq, Eq, Structural)]
pub enum Wrap {
    /// None: every cell is drawn once.
    Neither,
    /// Row 0 is repeated below the grid.
    Rows,
    /// Column 0 is repeated to the right of the grid.
    Columns,
    /// Row 0 below, column 0 to the right, and cell (0, 0) at the far corner.
    Both,
}

/// One drawing of the cell in column `x` and row `y`.
#[derive(Debug, Clone, Copy, PartialEq, Eq, Structural)]
pub struct Emission {
    pub x: usize,
    pub y: usize,
    pub place: Place,
}

impl Wrap {
    /// Column 0 is repeated.
    pub open spec fn columns(self) -> bool {
        self == Wrap::Columns || self == Wrap::Both
    }

    /// Row 0 is repeated.
    pub open spec fn rows(self) -> bool {
        self == Wrap::Rows || self == Wrap::Both
    }
}

impl Emission {
    /// The column at which the cell is drawn, in a grid `width` cells wide.
    pub open spec fn spec_col(self, width: int) -> int {
        if self.place == Place::Right || self.place == Place::Corner {
            width
        } else {
            self.x as int
        }
    }

    /// The row at which the cell is drawn, in a grid `height` cells high.
    pub open spec fn spec_row(self, height: int) -> int {
        if self.place == Place::Below || self.place == Place::Corner {
            height
        } else {
            self.y as int
        }
    }

    /// The column at which the cell is drawn, in a grid `width` cells wide.
    pub fn col(&self, width: usize) -> (c: usize)
        ensures
            c == self.spec_col(width as int),
    {
        match self.place {
            Place::Right | Place::Corner => width,
            _ => self.x,
        }
    }

    /// The row at which the cell is drawn, in a grid `height` cells high.
    pub fn row(&self, height: usize) -> (r: usize)
        ensures
            r == self.spec_row(height as int),
    {
        match self.place {
            Place::Below | Place::Corner => height,
            _ => self.y,
        }
    }
}

/// The drawings of one cell, in the order in which they are made: at home,
/// to the right, below, at the corner.
pub open spec fn cell_emissions(x: int, y: int, wrap: Wrap) -> Seq<Emission> {
    let home = seq![Emission { x: x as usize, y: y as usize, place: Place::Home }];
    let right = if x == 0 && wrap.columns() {
        seq![Emission { x: x as usize, y: y as usize, place: Place::Right }]
    } else {
        Seq::empty()
    };
    let below = if y == 0 && wrap.rows() {
        seq![Emission { x: x as usize, y: y as usize, place: Place::Below }]
    } else {
        Seq::empty()
    };
    let corner = if x == 0 && y == 0 && wrap == Wrap::Both {
        seq![Emission { x: x as usize, y: y as usize, place: Place::Corner }]
    } else {
        Seq::empty()
    };
    home + right + below + corner
}

/// The drawings of the first `n` cells of a grid `width` cells wide, the
/// cells taken row by row.
pub open spec fn tiling_prefix(width: int, n: nat, wrap: Wrap) -> Seq<Emission> {
    collect(n, |i: int| cell_emissions(i % width, i / width, wrap))
}

/// All drawings of a grid of `width` by `height` cells.
pub open spec fn tiling(width: int, height: int, wrap: Wrap) -> Seq<Emission> {
    tiling_prefix(width, (width * height) as nat, wrap)
}

/// How often the cell in column `x` and row `y` occurs in a run of drawings.
pub open spec fn copies(run: Seq<Emission>, x: int, y: int) -> nat
    decreases run.len(),
{
    if run.len() == 0 {
        0
    } else {
        let rest = copies(run.drop_last(), x, y);
        if run.last().x == x && run.last().y == y {
            rest + 1
        } else {
            rest
        }
    }
}

/// How often a tiling draws the cell in column `x` and row `y`.
pub open spec fn multiplicity(x: int, y: int, wrap: Wrap) -> nat {
    let right: nat = if x == 0 && wrap.columns() {
        1
    } else {
        0
    };
    let below: nat = if y == 0 && wrap.rows() {
        1
    } else {
        0
    };
    let corner: nat = if x == 0 && y == 0 && wrap == Wrap::Both {
        1
    } else {
        0
    };
    1 + right + below + corner
}

/// Lays out a grid of `width` by `height` cells.
pub fn tile(width: usize, height: usize, wrap: Wrap) -> (out: Vec<Emission>)
    ensures
        out@ == tiling(width as int, height as int, wrap),
        forall|j: int| 0 <= j < out@.len() ==> (#[trigger] out@[j]).x < width && out@[j].y < height,
{
    let mut out: Vec<Emission> = Vec::new();
    let ghost f = |i: int| cell_emissions(i % (width as int), i / (width as int), wrap);
    let mut y: usize = 0;
    assert(0 * width == 0) by (nonlinear_arith);
    while y < height
        invariant
            0 <= y <= height,
            f == (|i: int| cell_emissions(i % (width as int), i / (width as int), wrap)),
            y * width >= 0,
            out@ == collect((y * width) as nat, f),
            forall|j: int| 0 <= j < out@.len() ==> (#[trigger] out@[j]).x < width && out@[j].y < height,
        decreases height - y,
    {
        let mut x: usize = 0;
        while x < width
            invariant
                0 <= x <= width,
                0 <= y < height,
                f == (|i: int| cell_emissions(i % (width as int), i / (width as int), wrap)),
                y * width >= 0,
                out@ == collect((y * width + x) as nat, f),
                forall|j: int|
                    0 <= j < out@.len() ==> (#[trigger] out@[j]).x < width && out@[j].y < height,
            decreases width - x,
        {
            let ghost before = out@;
            let ghost n = y * width + x;
            proof {
                lemma_fundamental_div_mod_converse(n, width as int, y as int, x as int);
                assert(f(n) == cell_emissions(x as int, y as int, wrap));
            }
            out.push(Emission { x, y, place: Place::Home });
            if x == 0 && (wrap == Wrap::Columns || wrap == Wrap::Both) {
                out.push(Emission { x, y, place: Place::Right });
            }
            if y == 0 && (wrap == Wrap::Rows || wrap == Wrap::Both) {
                out.push(Emission { x, y, place: Place::Below });
            }
            if x == 0 && y == 0 && wrap == Wrap::Both {
                out.push(Emission { x, y, place: Place::Corner });
            }
            assert(out@ =~= before + cell_emissions(x as int, y as int, wrap));
            x = x + 1;
        }
        assert((y + 1) * width == y * width + width) by (nonlinear_arith);
        y = y + 1;
    }
    proof {
        assert(y == height);
        assert(y * width == width * height) by (nonlinear_arith)
            requires
                y == height,
        ;
    }
    out
}

/// How many drawings the first `n` cells of a grid `width` cells wide have:
/// one for each cell, one more for each cell of column 0 and of row 0 where
/// that border wraps, and one more for cell 0 where both wrap.
pub open spec fn prefix_count(width: int, n: int, wrap: Wrap) -> int {
    let y = n / width;
    let x = n % width;
    let right = if wrap.columns() {
        if x > 0 {
            y + 1
        } else {
            y
        }
    } else {
        0
    };
    let below = if wrap.rows() {
        if y >= 1 {
            width
        } else {
            x
        }
    } else {
        0
    };
    let corner: int = if wrap == Wrap::Both && n >= 1 {
        1
    } else {
        0
    };
    n + right + below + corner
}

/// The drawings of the first `n` cells are as many as `prefix_count` says.
pub proof fn lemma_prefix_len(width: int, n: nat, wrap: Wrap)
    requires
        1 <= width,
    ensures
        tiling_prefix(width, n, wrap).len() == prefix_count(width, n as int, wrap),
    decreases n,
{
    if n > 0 {
        let i = n - 1;
        let x = i % width;
        let y = i / width;
        lemma_prefix_len(width, i as nat, wrap);
        vstd::arithmetic::div_mod::lemma_fundamental_div_mod(i, width);
        vstd::arithmetic::div_mod::lemma_mod_bound(i, width);
        vstd::arithmetic::div_mod::lemma_div_pos_is_pos(i, width);
        if x + 1 < width {
            assert(n == y * width + (x + 1)) by (nonlinear_arith)
                requires
                    i == width * y + x,
                    n == i + 1,
            ;
            lemma_fundamental_div_mod_converse(n as int, width, y, x + 1);
        } else {
            assert(n == (y + 1) * width + 0) by (nonlinear_arith)
                requires
                    i == width * y + x,
                    n == i + 1,
                    x + 1 == width,
            ;
            lemma_fundamental_div_mod_converse(n as int, width, y + 1, 0);
        }
        assert(cell_emissions(x, y, wrap).len() == multiplicity(x, y, wrap));
        if y == 0 {
            assert(i == x) by (nonlinear_arith)
                requires
                    i == width * y + x,
                    y == 0,
            ;
        } else {
            assert(i >= 1) by (nonlinear_arith)
                requires
                    i == width * y + x,
                    y >= 1,
                    width >= 1,
                    x >= 0,
            ;
        }
    } else {
        assert(0int / width == 0 && 0int % width == 0) by {
            lemma_fundamental_div_mod_converse(0, width, 0, 0);
        }
    }
}

/// How many drawings a tiling has. A grid of `width` by `height` cells has
/// `width * height` of them where no border wraps, `width` more where row 0
/// is repeated, `height` more where column 0 is repeated, and
/// `(width + 1) * (height + 1)` where both borders wrap.
pub proof fn lemma_tiling_len(width: int, height: int, wrap: Wrap)
    requires
        1 <= width,
        1 <= height,
    ensures
        wrap == Wrap::Neither ==> tiling(width, height, wrap).len() == width * height,
        wrap == Wrap::Rows ==> tiling(width, height, wrap).len() == width * (height + 1),
        wrap == Wrap::Columns ==> tiling(width, height, wrap).len() == (width + 1) * height,
        wrap == Wrap::Both ==> tiling(width, height, wrap).len() == (width + 1) * (height + 1),
{
    let n = width * height;
    assert(n >= 1 && n == height * width + 0) by (nonlinear_arith)
        requires
            n == width * height,
            1 <= width,
            1 <= height,
    ;
    lemma_fundamental_div_mod_converse(n, width, height, 0);
    lemma_prefix_len(width, n as nat, wrap);
    assert(width * (height + 1) == width * height + width) by (nonlinear_arith);
    assert((width + 1) * height == width * height + height) by (nonlinear_arith);
    assert((width + 1) * (height + 1) == width * height + width + height + 1) by (nonlinear_arith);
}

/// Counting over two runs laid end to end adds up.
pub proof fn lemma_copies_concat(a: Seq<Emission>, b: Seq<Emission>, x: int, y: int)
    ensures
        copies(a + b, x, y) == copies(a, x, y) + copies(b, x, y),
    decreases b.len(),
{
    if b.len() == 0 {
        assert(a + b =~= a);
    } else {
        assert((a + b).drop_last() =~= a + b.drop_last());
        lemma_copies_concat(a, b.drop_last(), x, y);
    }
}

/// The drawings of one cell are drawings of that cell and of no other.
pub proof fn lemma_copies_cell(cx: int, cy: int, wrap: Wrap, x: int, y: int)
    requires
        0 <= cx <= usize::MAX,
        0 <= cy <= usize::MAX,
    ensures
        copies(cell_emissions(cx, cy, wrap), x, y) == if cx == x && cy == y {
            multiplicity(x, y, wrap)
        } else {
            0
        },
{
    let home = seq![Emission { x: cx as usize, y: cy as usize, place: Place::Home }];
    let right = if cx == 0 && wrap.columns() {
        seq![Emission { x: cx as usize, y: cy as usize, place: Place::Right }]
    } else {
        Seq::empty()
    };
    let below = if cy == 0 && wrap.rows() {
        seq![Emission { x: cx as usize, y: cy as usize, place: Place::Below }]
    } else {
        Seq::empty()
    };
    let corner = if cx == 0 && cy == 0 && wrap == Wrap::Both {
        seq![Emission { x: cx as usize, y: cy as usize, place: Place::Corner }]
    } else {
        Seq::empty()
    };
    reveal_with_fuel(copies, 3);
    lemma_copies_concat(home, right, x, y);
    lemma_copies_concat(home + right, below, x, y);
    lemma_copies_concat(home + right + below, corner, x, y);
    assert(home.drop_last() =~= Seq::<Emission>::empty());
    assert(right.len() > 0 ==> right.drop_last() =~= Seq::<Emission>::empty());
    assert(below.len() > 0 ==> below.drop_last() =~= Seq::<Emission>::empty());
    assert(corner.len() > 0 ==> corner.drop_last() =~= Seq::<Emission>::empty());
}

/// Among the drawings of the first `n` cells, a cell occurs as often as its
/// multiplicity says if it is one of those cells, and not at all otherwise.
pub proof fn lemma_copies_prefix(width: int, n: nat, wrap: Wrap, x: int, y: int)
    requires
        0 <= x < width,
        0 <= y,
        n <= usize::MAX,
    ensures
        copies(tiling_prefix(width, n, wrap), x, y) == if y * width + x < n {
            multiplicity(x, y, wrap)
        } else {
            0
        },
    decreases n,
{
    let f = |i: int| cell_emissions(i % width, i / width, wrap);
    if n > 0 {
        let i = n - 1;
        lemma_copies_prefix(width, i as nat, wrap, x, y);
        lemma_copies_concat(collect(i as nat, f), f(i), x, y);
        vstd::arithmetic::div_mod::lemma_fundamental_div_mod(i, width);
        vstd::arithmetic::div_mod::lemma_mod_bound(i, width);
        vstd::arithmetic::div_mod::lemma_div_pos_is_pos(i, width);
        assert(i / width <= i) by {
            vstd::arithmetic::div_mod::lemma_div_is_ordered_by_denominator(i, 1, width);
        }
        lemma_copies_cell(i % width, i / width, wrap, x, y);
        if i % width == x && i / width == y {
            assert(width * (i / width) == y * width) by (nonlinear_arith)
                requires
                    i / width == y,
            ;
        } else if y * width + x == i {
            lemma_fundamental_div_mod_converse(i, width, y, x);
        }
    }
}

/// In a tiling of a grid of `width` by `height` cells, every cell of the
/// grid is drawn as often as its multiplicity says.
pub proof fn lemma_tiling_copies(width: int, height: int, wrap: Wrap, x: int, y: int)
    requires
        0 <= x < width,
        0 <= y < height,
        width * height <= usize::MAX,
    ensures
        copies(tiling(width, height, wrap), x, y) == multiplicity(x, y, wrap),
{
    assert(y * width + x < width * height) by (nonlinear_arith)
        requires
            0 <= x < width,
            0 <= y < height,
    ;
    lemma_copies_prefix(width, (width * height) as nat, wrap, x, y);
}

/// The edge-duplication count. Where both borders wrap, the corner cell is
/// drawn four times, every other cell of row 0 or of column 0 twice, and
/// every cell inside once.
pub proof fn lemma_edge_duplication(width: int, height: int, x: int, y: int)
    requires
        0 <= x < width,
        0 <= y < height,
        width * height <= usize::MAX,
    ensures
        copies(tiling(width, height, Wrap::Both), x, y) == if x == 0 && y == 0 {
            4nat
        } else if x == 0 || y == 0 {
            2nat
        } else {
            1nat
        },
{
    lemma_tiling_copies(width, height, Wrap::Both, x, y);
}

} // verus!
