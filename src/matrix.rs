use vstd::prelude::*;

verus! {

/// A 4x4 matrix held in column-major order, the layout a uniform upload expects.
pub struct Mat4<T> {
    values: [T; 16],
}

impl<T: Copy> Mat4<T> {
    /// The sixteen entries, column after column.
    pub closed spec fn column_major(&self) -> Seq<T> {
        self.values@
    }

    /// The entry in row `row` and column `col`.
    pub open spec fn entry(&self, row: int, col: int) -> T {
        self.column_major()[4 * col + row]
    }

    /// The values written for a matrix, read back column after column, give
    /// every entry of the matrix in its place: entry (row, col) is value
    /// `4 * col + row`, and a matrix rebuilt from them equals the given one
    /// entry by entry.
    pub proof fn lemma_read_back(&self, read_back: Mat4<T>)
        requires
            read_back.column_major() == self.column_major(),
        ensures
            self.column_major().len() == 16,
            forall|i: int, j: int|
                0 <= i < 4 && 0 <= j < 4 ==> #[trigger] read_back.entry(i, j) == self.entry(i, j)
                    && self.column_major()[4 * j + i] == self.entry(i, j),
    {
    }

    /// A matrix from its entries listed column after column.
    pub fn from_column_major(values: [T; 16]) -> (r: Self)
        ensures
            r.column_major() == values@,
    {
        Mat4 { values }
    }

    /// A matrix from its rows.
    pub fn from_rows(rows: [[T; 4]; 4]) -> (r: Self)
        ensures
            r.column_major().len() == 16,
            forall|i: int, j: int| 0 <= i < 4 && 0 <= j < 4 ==> #[trigger] r.entry(i, j) == rows@[i]@[j],
    {
        let values = [
            rows[0][0], rows[1][0], rows[2][0], rows[3][0],
            rows[0][1], rows[1][1], rows[2][1], rows[3][1],
            rows[0][2], rows[1][2], rows[2][2], rows[3][2],
            rows[0][3], rows[1][3], rows[2][3], rows[3][3],
        ];
        let r = Mat4 { values };
        assert forall|i: int, j: int| 0 <= i < 4 && 0 <= j < 4 implies #[trigger] r.entry(i, j)
            == rows@[i]@[j] by {
            assert(0 <= j <= 3);
            if j == 0 {} else if j == 1 {} else if j == 2 {} else {}
        }
        r
    }

    /// The entry in row `row` and column `col`.
    pub fn get(&self, row: usize, col: usize) -> (r: T)
        requires
            row < 4,
            col < 4,
        ensures
            r == self.entry(row as int, col as int),
    {
        self.values[4 * col + row]
    }

    /// The sixteen entries, column after column.
    pub fn to_column_major(&self) -> (r: [T; 16])
        ensures
            r@ == self.column_major(),
    {
        self.values
    }
}

} // verus!
