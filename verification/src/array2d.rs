use vstd::prelude::*;

verus! {

/// A dense two-dimensional array stored row by row: cell `(x, y)` lives at
/// position `y * size_x + x` of `data`.
#[derive(Debug, PartialEq, Eq, Clone)]
pub struct Array2d<T> {
    pub data: Vec<T>,
    pub size_x: usize,
    pub size_y: usize,
}

/// Position in the row-major storage of cell `(x, y)` in an array whose rows
/// are `size_x` cells long.
pub open spec fn flat_index(size_x: int, x: int, y: int) -> int {
    y * size_x + x
}

impl<T> Array2d<T> {
    /// The storage holds exactly one cell per coordinate pair.
    pub open spec fn wf(&self) -> bool {
        self.data@.len() == self.size_x * self.size_y
    }

    /// The cell that `(x, y)` designates.
    pub open spec fn cell(&self, x: int, y: int) -> T {
        self.data@[flat_index(self.size_x as int, x, y)]
    }

    /// Whether `(x, y)` designates a stored cell.
    pub open spec fn reaches(&self, x: int, y: int) -> bool {
        0 <= flat_index(self.size_x as int, x, y) < self.data@.len()
    }
}

impl<T> Array2d<T> {
    /// The array whose row `y` is `rows[y]`: rows are laid one after the
    /// other, so cell `(x, y)` holds `rows[y][x]`.
    pub fn from_rows(rows: Vec<Vec<T>>, size_x: usize) -> (r: Array2d<T>)
        requires
            forall|y: int| 0 <= y < rows@.len() ==> (#[trigger] rows@[y])@.len() == size_x,
        ensures
            r.wf(),
            r.size_x == size_x,
            r.size_y == rows@.len(),
            forall|x: int, y: int|
                0 <= x < size_x && 0 <= y < rows@.len() ==> #[trigger] r.cell(x, y) == rows@[y]@[x],
    {
        let size_y = rows.len();
        let ghost rs = rows@;
        let mut data: Vec<T> = Vec::new();
        let mut done: usize = 0;
        for row in it: rows.into_iter()
            invariant
                it.seq() == rs,
                done == it.index(),
                rs.len() == size_y,
                forall|y: int| 0 <= y < rs.len() ==> (#[trigger] rs[y])@.len() == size_x,
                data@.len() == size_x * done,
                forall|x: int, y: int|
                    0 <= x < size_x && 0 <= y < done ==> #[trigger] data@[flat_index(size_x as int, x, y)]
                        == rs[y]@[x],
        {
            let ghost before = data@;
            let ghost y0 = done as int;
            let mut row = row;
            assert(row == rs[y0]);
            data.append(&mut row);
            proof {
                assert(data@ =~= before + rs[y0]@);
                assert(data@.len() == size_x * (done + 1)) by (nonlinear_arith)
                    requires
                        data@.len() == before.len() + size_x,
                        before.len() == size_x * done,
                ;
                assert forall|x: int, y: int|
                    0 <= x < size_x && 0 <= y < done + 1 implies #[trigger] data@[flat_index(
                    size_x as int,
                    x,
                    y,
                )] == rs[y]@[x] by {
                    law_flat_index_in_range(size_x as int, done + 1, x, y);
                    if y < done {
                        law_flat_index_in_range(size_x as int, done as int, x, y);
                        assert(data@[flat_index(size_x as int, x, y)] == before[flat_index(
                            size_x as int,
                            x,
                            y,
                        )]);
                    } else {
                        assert(flat_index(size_x as int, x, y) == before.len() + x) by (nonlinear_arith)
                            requires
                                y == done,
                                before.len() == size_x * done,
                        ;
                    }
                }
            }
            done = done + 1;
        }
        proof {
            assert(data@.len() == size_x * size_y) by (nonlinear_arith)
                requires
                    data@.len() == size_x * done,
                    done == size_y,
            ;
        }
        Array2d { data, size_x, size_y }
    }
}

impl<T: Clone + Default> Array2d<T> {
    /// Position of `(x, y)` in the row-major storage.
    pub fn index_1d(&self, x: usize, y: usize) -> (r: usize)
        requires
            flat_index(self.size_x as int, x as int, y as int) <= usize::MAX,
        ensures
            r == flat_index(self.size_x as int, x as int, y as int),
    {
        proof {
            assert(0 <= y * self.size_x) by (nonlinear_arith);
        }
        y * self.size_x + x
    }

    /// Number of cells.
    pub fn size(&self) -> (r: usize)
        requires
            self.size_x * self.size_y <= usize::MAX,
        ensures
            r == self.size_x * self.size_y,
    {
        self.size_x * self.size_y
    }

    /// A `size_x` by `size_y` array whose cells all hold one value made by
    /// `T::default()`: every cell but the last holds a clone of it, and the
    /// last cell holds the value itself.
    pub fn new(size_x: usize, size_y: usize) -> (r: Array2d<T>)
        requires
            size_x * size_y <= usize::MAX,
        ensures
            r.wf(),
            r.size_x == size_x,
            r.size_y == size_y,
            exists|d: T|
                {
                    &&& call_ensures(T::default, (), d)
                    &&& forall|i: int|
                        0 <= i < r.data@.len() - 1 ==> #[trigger] cloned(d, r.data@[i])
                    &&& r.data@.len() > 0 ==> r.data@[r.data@.len() - 1] == d
                },
    {
        let n = size_x * size_y;
        let d = T::default();
        let mut data: Vec<T> = Vec::new();
        if n > 0 {
            let mut i: usize = 0;
            while i < n - 1
                invariant
                    n > 0,
                    i <= n - 1,
                    data@.len() == i,
                    forall|j: int| 0 <= j < data@.len() ==> #[trigger] cloned(d, data@[j]),
                decreases n - 1 - i,
            {
                data.push(d.clone());
                i = i + 1;
            }
            data.push(d);
        }
        Array2d { data, size_x, size_y }
    }

    /// Read access to cell `(x, y)`.
    pub fn index(&self, x: usize, y: usize) -> (r: &T)
        requires
            self.reaches(x as int, y as int),
        ensures
            *r == self.cell(x as int, y as int),
    {
        let _len = self.data.len();
        let i = self.index_1d(x, y);
        &self.data[i]
    }

    /// Write access to cell `(x, y)`; every other cell keeps its value.
    pub fn index_mut(&mut self, x: usize, y: usize) -> (r: &mut T)
        requires
            old(self).reaches(x as int, y as int),
        ensures
            *r == old(self).cell(x as int, y as int),
            final(self).size_x == old(self).size_x,
            final(self).size_y == old(self).size_y,
            final(self).data@ == old(self).data@.update(
                flat_index(old(self).size_x as int, x as int, y as int),
                *final(r),
            ),
    {
        let _len = self.data.len();
        let i = self.index_1d(x, y);
        &mut self.data[i]
    }
}

/// Distinct coordinates inside the grid designate distinct cells.
pub proof fn law_flat_index_injective(size_x: int, x1: int, y1: int, x2: int, y2: int)
    requires
        0 <= x1 < size_x,
        0 <= x2 < size_x,
        0 <= y1,
        0 <= y2,
        flat_index(size_x, x1, y1) == flat_index(size_x, x2, y2),
    ensures
        x1 == x2,
        y1 == y2,
{
    if y1 < y2 {
        assert(y1 * size_x + size_x <= y2 * size_x) by (nonlinear_arith)
            requires
                y1 < y2,
                0 <= size_x,
        ;
    } else if y2 < y1 {
        assert(y2 * size_x + size_x <= y1 * size_x) by (nonlinear_arith)
            requires
                y2 < y1,
                0 <= size_x,
        ;
    }
}

/// Every coordinate pair inside a `size_x` by `size_y` grid designates a
/// cell of its row-major storage.
pub proof fn law_flat_index_in_range(size_x: int, size_y: int, x: int, y: int)
    requires
        0 <= x < size_x,
        0 <= y < size_y,
    ensures
        0 <= flat_index(size_x, x, y) < size_x * size_y,
{
    assert(0 <= y * size_x) by (nonlinear_arith)
        requires
            0 <= y,
            0 <= x < size_x,
    ;
    assert(y * size_x + size_x <= size_x * size_y) by (nonlinear_arith)
        requires
            0 <= y < size_y,
            0 <= x < size_x,
    ;
}

/// Writing `v` through `index_mut(x, y)` and then reading `(x, y)` gives `v`;
/// reading any other cell of the grid gives what it held before the write.
pub proof fn law_write_then_read<T>(
    data: Seq<T>,
    size_x: int,
    size_y: int,
    x: int,
    y: int,
    v: T,
    x2: int,
    y2: int,
)
    requires
        data.len() == size_x * size_y,
        0 <= x < size_x,
        0 <= y < size_y,
        0 <= x2 < size_x,
        0 <= y2 < size_y,
    ensures
        data.update(flat_index(size_x, x, y), v)[flat_index(size_x, x, y)] == v,
        (x2 != x || y2 != y) ==> data.update(flat_index(size_x, x, y), v)[flat_index(size_x, x2, y2)]
            == data[flat_index(size_x, x2, y2)],
{
    law_flat_index_in_range(size_x, size_y, x, y);
    law_flat_index_in_range(size_x, size_y, x2, y2);
    if (x2 != x || y2 != y) && flat_index(size_x, x, y) == flat_index(size_x, x2, y2) {
        law_flat_index_injective(size_x, x, y, x2, y2);
    }
}

} // verus!
