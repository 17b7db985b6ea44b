//! The program grid: rectangular, fully populated storage of symbols,
//! read-only during execution.  Coordinates are wrapped by the cursor
//! before any lookup, so the grid itself only answers in-range queries.

use vstd::prelude::*;

verus! {

/// The greatest length among the given rows.
pub open spec fn max_row_len(rows: Seq<Seq<char>>) -> int
    decreases rows.len(),
{
    if rows.len() == 0 {
        0
    } else {
        let rest = max_row_len(rows.drop_last());
        let l = rows.last().len() as int;
        if l > rest {
            l
        } else {
            rest
        }
    }
}

/// The rows padded into a rectangle: every row is brought to the width of
/// the longest one with blanks, and an entirely empty program becomes a
/// single blank cell so that the grid is never degenerate.
pub open spec fn padded_rows(rows: Seq<Seq<char>>) -> Seq<Seq<char>> {
    let height = if rows.len() == 0 { 1int } else { rows.len() as int };
    let width = if max_row_len(rows) == 0 { 1int } else { max_row_len(rows) };
    Seq::new(height as nat, |i: int| Seq::new(width as nat, |j: int|
        if i < rows.len() && j < rows[i].len() {
            rows[i][j]
        } else {
            ' '
        }))
}

/// The program grid.  Its view is the sequence of rows, indexed as
/// `self@[y][x]`.
pub struct FungeSpace {
    width: usize,
    height: usize,
    cells: Vec<Vec<char>>,
}

impl View for FungeSpace {
    type V = Seq<Seq<char>>;

    closed spec fn view(&self) -> Seq<Seq<char>> {
        self.cells@.map_values(|row: Vec<char>| row@)
    }
}

impl FungeSpace {
    pub closed spec fn spec_width(&self) -> usize {
        self.width
    }

    pub closed spec fn spec_height(&self) -> usize {
        self.height
    }

    /// The grid is rectangular and non-degenerate, and each side fits in a
    /// signed 32-bit coordinate.
    pub closed spec fn wf(&self) -> bool {
        &&& 1 <= self.width <= i32::MAX
        &&& 1 <= self.height <= i32::MAX
        &&& self.cells@.len() == self.height
        &&& forall|i: int| 0 <= i < self.cells@.len() ==> (#[trigger] self.cells@[i])@.len() == self.width
    }

    pub proof fn lemma_wf_view(&self)
        requires
            self.wf(),
        ensures
            1 <= self.spec_width() <= i32::MAX,
            1 <= self.spec_height() <= i32::MAX,
            self@.len() == self.spec_height(),
            forall|i: int| 0 <= i < self@.len() ==> (#[trigger] self@[i]).len() == self.spec_width(),
    {
    }

    #[verifier::when_used_as_spec(spec_width)]
    pub fn width(&self) -> (w: usize)
        ensures
            w == self.spec_width(),
    {
        self.width
    }

    #[verifier::when_used_as_spec(spec_height)]
    pub fn height(&self) -> (h: usize)
        ensures
            h == self.spec_height(),
    {
        self.height
    }

    /// Builds the grid from raw program rows, padding them into a
    /// rectangle of blanks as `padded_rows` describes.
    pub fn new(rows: Vec<Vec<char>>) -> (s: FungeSpace)
        requires
            rows@.len() <= i32::MAX,
            forall|i: int| 0 <= i < rows@.len() ==> (#[trigger] rows@[i])@.len() <= i32::MAX,
        ensures
            s.wf(),
            s@ == padded_rows(rows@.map_values(|row: Vec<char>| row@)),
            s.spec_height() == s@.len(),
            s.spec_width() == padded_rows(rows@.map_values(|row: Vec<char>| row@))[0].len(),
    {
        let ghost model_rows = rows@.map_values(|row: Vec<char>| row@);
        let mut max_len: usize = 0;
        let mut i: usize = 0;
        while i < rows.len()
            invariant
                0 <= i <= rows@.len(),
                rows@.len() <= i32::MAX,
                forall|k: int| 0 <= k < rows@.len() ==> (#[trigger] rows@[k])@.len() <= i32::MAX,
                model_rows == rows@.map_values(|row: Vec<char>| row@),
                max_len == max_row_len(model_rows.take(i as int)),
                max_len <= i32::MAX,
            decreases rows@.len() - i,
        {
            proof {
                assert(model_rows.take(i + 1).drop_last() =~= model_rows.take(i as int));
                assert(model_rows.take(i + 1).last() == model_rows[i as int]);
            }
            let row_len = rows[i].len();
            if row_len > max_len {
                max_len = row_len;
            }
            i = i + 1;
        }
        proof {
            assert(model_rows.take(model_rows.len() as int) =~= model_rows);
        }
        let width: usize = if max_len == 0 { 1 } else { max_len };
        let height: usize = if rows.len() == 0 { 1 } else { rows.len() };
        let ghost target = padded_rows(model_rows);
        let mut cells: Vec<Vec<char>> = Vec::new();
        let mut y: usize = 0;
        while y < height
            invariant
                0 <= y <= height,
                height == target.len(),
                width == target[0].len(),
                1 <= width <= i32::MAX,
                1 <= height <= i32::MAX,
                model_rows == rows@.map_values(|row: Vec<char>| row@),
                target == padded_rows(model_rows),
                cells@.len() == y,
                forall|k: int| 0 <= k < y ==> (#[trigger] cells@[k])@ == target[k],
            decreases height - y,
        {
            let mut row: Vec<char> = Vec::new();
            let mut x: usize = 0;
            while x < width
                invariant
                    0 <= x <= width,
                    0 <= y < height,
                    height == target.len(),
                    width == target[0].len(),
                    model_rows == rows@.map_values(|row: Vec<char>| row@),
                    target == padded_rows(model_rows),
                    row@.len() == x,
                    forall|k: int| 0 <= k < x ==> #[trigger] row@[k] == target[y as int][k],
                decreases width - x,
            {
                let c: char = if y < rows.len() && x < rows[y].len() {
                    rows[y][x]
                } else {
                    ' '
                };
                proof {
                    assert(target[y as int][x as int] == (
                        if y < model_rows.len() && x < model_rows[y as int].len() {
                            model_rows[y as int][x as int]
                        } else {
                            ' '
                        }));
                }
                row.push(c);
                x = x + 1;
            }
            proof {
                assert(row@ =~= target[y as int]);
            }
            cells.push(row);
            y = y + 1;
        }
        let s = FungeSpace { width, height, cells };
        proof {
            assert(s@ =~~= target);
        }
        s
    }

    /// The symbol at column `x` of row `y`; the caller has already wrapped
    /// both coordinates into range.
    pub fn get_symbol_at(&self, x: usize, y: usize) -> (c: char)
        requires
            self.wf(),
            x < self.spec_width(),
            y < self.spec_height(),
        ensures
            c == self@[y as int][x as int],
    {
        self.cells[y][x]
    }
}

} // verus!
