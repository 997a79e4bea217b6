//! Furnishing a chunk: the floor tiles and wall segments that stand for its
//! cells in the world, and the order in which they are placed.

use crate::level::Chunk;
use vstd::prelude::*;
use vstd::seq_lib::lemma_seq_concat_contains_all_elements;

verus! {

/// One thing to put into the world for a chunk. A piece stands at the cell in
/// column `column` of row `row`.
#[derive(Clone, Copy, Debug, PartialEq, Eq, Structural)]
pub enum Piece {
    /// A wall segment on the edge between two neighbouring cells of which
    /// exactly one is open. It stands at the one of the two that comes first
    /// in their row or column. `turned` is `false` for the edge towards the
    /// next column and `true`, a quarter turn about the vertical axis, for the
    /// edge towards the next row.
    Wall { column: usize, row: usize, turned: bool },
    /// The floor tile of an open cell.
    Floor { column: usize, row: usize },
}

impl Piece {
    /// The row of the cell at which the piece stands.
    pub open spec fn row(self) -> int {
        match self {
            Piece::Wall { row, .. } => row as int,
            Piece::Floor { row, .. } => row as int,
        }
    }

    /// The column of the cell at which the piece stands.
    pub open spec fn column(self) -> int {
        match self {
            Piece::Wall { column, .. } => column as int,
            Piece::Floor { column, .. } => column as int,
        }
    }

    /// The rank of the piece among the pieces of its cell: the wall towards
    /// the next column comes first, the wall towards the next row second, the
    /// floor tile last.
    pub open spec fn rank(self) -> int {
        match self {
            Piece::Wall { turned, .. } => if turned {
                1
            } else {
                0
            },
            Piece::Floor { .. } => 2,
        }
    }

    /// Whether `self` is placed before `other`: in an earlier row, or in the
    /// same row at an earlier column, or at the same cell with a lower rank.
    pub open spec fn before(self, other: Piece) -> bool {
        ||| self.row() < other.row()
        ||| self.row() == other.row() && self.column() < other.column()
        ||| self.row() == other.row() && self.column() == other.column() && self.rank()
            < other.rank()
    }
}

/// Where one sequence of pieces is in order, a second one is too, and
/// every piece of the first is placed before every piece of the second,
/// the two in a row are in order.
proof fn lemma_in_order_joined(earlier: Seq<Piece>, later: Seq<Piece>, i: int, j: int)
    requires
        forall|a: int, b: int| 0 <= a < b < earlier.len() ==> earlier[a].before(earlier[b]),
        forall|a: int, b: int| 0 <= a < b < later.len() ==> later[a].before(later[b]),
        forall|a: int, b: int|
            0 <= a < earlier.len() && 0 <= b < later.len() ==> earlier[a].before(later[b]),
        0 <= i < j < (earlier + later).len(),
    ensures
        (earlier + later)[i].before((earlier + later)[j]),
{
    if j < earlier.len() {
        assert(earlier[i].before(earlier[j]));
    } else if i < earlier.len() {
        assert(earlier[i].before(later[j - earlier.len()]));
    } else {
        assert(later[i - earlier.len()].before(later[j - earlier.len()]));
    }
}

impl<const WIDTH: usize, const HEIGHT: usize> Chunk<WIDTH, HEIGHT> {
    /// The cell that stands at the origin of the world when the chunk is
    /// centred on it: column `WIDTH / 2` of row `HEIGHT / 2`.
    pub fn origin() -> (cell: (usize, usize))
        ensures
            cell.0 == WIDTH / 2,
            cell.1 == HEIGHT / 2,
    {
        (WIDTH / 2, HEIGHT / 2)
    }

    /// Whether a wall stands between the cell at (`row`, `column`) and its
    /// neighbour in the next column: the neighbour exists and exactly one of
    /// the two is open.
    pub open spec fn wall_beside(&self, row: int, column: int) -> bool {
        column + 1 < WIDTH && self.grid[row][column] != self.grid[row][column + 1]
    }

    /// Whether a wall stands between the cell at (`row`, `column`) and its
    /// neighbour in the next row: the neighbour exists and exactly one of the
    /// two is open.
    pub open spec fn wall_below(&self, row: int, column: int) -> bool {
        row + 1 < HEIGHT && self.grid[row][column] != self.grid[row + 1][column]
    }

    /// The pieces that stand at one cell, in the order in which they are
    /// placed: the wall towards the next column, the wall towards the next
    /// row, the floor tile.
    pub open spec fn cell_pieces(&self, row: int, column: int) -> Seq<Piece> {
        let beside = if self.wall_beside(row, column) {
            seq![Piece::Wall { column: column as usize, row: row as usize, turned: false }]
        } else {
            Seq::empty()
        };
        let below = if self.wall_below(row, column) {
            seq![Piece::Wall { column: column as usize, row: row as usize, turned: true }]
        } else {
            Seq::empty()
        };
        let floor = if self.grid[row][column] {
            seq![Piece::Floor { column: column as usize, row: row as usize }]
        } else {
            Seq::empty()
        };
        beside + below + floor
    }

    /// The pieces of the first `columns` cells of row `row`.
    pub open spec fn row_pieces(&self, row: int, columns: int) -> Seq<Piece>
        decreases columns,
    {
        if columns <= 0 {
            Seq::empty()
        } else {
            self.row_pieces(row, columns - 1) + self.cell_pieces(row, columns - 1)
        }
    }

    /// The pieces of the first `rows` rows.
    pub open spec fn rows_pieces(&self, rows: int) -> Seq<Piece>
        decreases rows,
    {
        if rows <= 0 {
            Seq::empty()
        } else {
            self.rows_pieces(rows - 1) + self.row_pieces(rows - 1, WIDTH as int)
        }
    }

    /// Every piece of the chunk, cell by cell along each row, from the first
    /// row on.
    pub open spec fn pieces(&self) -> Seq<Piece> {
        self.rows_pieces(HEIGHT as int)
    }

    /// Whether the chunk calls for `piece`: a floor tile where a cell is open,
    /// a wall where a cell and its neighbour in the next column or row differ.
    pub open spec fn places(&self, piece: Piece) -> bool {
        match piece {
            Piece::Wall { column, row, turned } => {
                &&& row < HEIGHT
                &&& column < WIDTH
                &&& if turned {
                    self.wall_below(row as int, column as int)
                } else {
                    self.wall_beside(row as int, column as int)
                }
            },
            Piece::Floor { column, row } => {
                &&& row < HEIGHT
                &&& column < WIDTH
                &&& self.grid[row as int][column as int]
            },
        }
    }

    /// The pieces of a cell are the pieces called for that stand at that cell.
    proof fn lemma_cell_pieces(&self, row: int, column: int, piece: Piece)
        requires
            0 <= row < HEIGHT,
            0 <= column < WIDTH,
        ensures
            self.cell_pieces(row, column).contains(piece) <==> self.places(piece) && piece.row()
                == row && piece.column() == column,
    {
        let beside = Piece::Wall { column: column as usize, row: row as usize, turned: false };
        let below = Piece::Wall { column: column as usize, row: row as usize, turned: true };
        let floor = Piece::Floor { column: column as usize, row: row as usize };
        let a: Seq<Piece> = if self.wall_beside(row, column) {
            seq![beside]
        } else {
            Seq::empty()
        };
        let b: Seq<Piece> = if self.wall_below(row, column) {
            seq![below]
        } else {
            Seq::empty()
        };
        let c: Seq<Piece> = if self.grid[row][column] {
            seq![floor]
        } else {
            Seq::empty()
        };
        assert(self.cell_pieces(row, column) == a + b + c);
        lemma_seq_concat_contains_all_elements(a + b, c, piece);
        lemma_seq_concat_contains_all_elements(a, b, piece);
        assert(a.contains(piece) <==> self.wall_beside(row, column) && piece == beside) by {
            if self.wall_beside(row, column) {
                assert(a[0] == beside);
            }
        }
        assert(b.contains(piece) <==> self.wall_below(row, column) && piece == below) by {
            if self.wall_below(row, column) {
                assert(b[0] == below);
            }
        }
        assert(c.contains(piece) <==> self.grid[row][column] && piece == floor) by {
            if self.grid[row][column] {
                assert(c[0] == floor);
            }
        }
    }

    /// The pieces of the first `columns` cells of a row are the pieces called
    /// for that stand in that row, in one of those columns.
    proof fn lemma_row_pieces(&self, row: int, columns: int, piece: Piece)
        requires
            0 <= row < HEIGHT,
            0 <= columns <= WIDTH,
        ensures
            self.row_pieces(row, columns).contains(piece) <==> self.places(piece) && piece.row()
                == row && piece.column() < columns,
        decreases columns,
    {
        if columns > 0 {
            self.lemma_row_pieces(row, columns - 1, piece);
            self.lemma_cell_pieces(row, columns - 1, piece);
            lemma_seq_concat_contains_all_elements(
                self.row_pieces(row, columns - 1),
                self.cell_pieces(row, columns - 1),
                piece,
            );
        }
    }

    /// The pieces of the first `rows` rows are the pieces called for that stand
    /// in one of those rows.
    proof fn lemma_rows_pieces(&self, rows: int, piece: Piece)
        requires
            0 <= rows <= HEIGHT,
        ensures
            self.rows_pieces(rows).contains(piece) <==> self.places(piece) && piece.row() < rows,
        decreases rows,
    {
        if rows > 0 {
            self.lemma_rows_pieces(rows - 1, piece);
            self.lemma_row_pieces(rows - 1, WIDTH as int, piece);
            lemma_seq_concat_contains_all_elements(
                self.rows_pieces(rows - 1),
                self.row_pieces(rows - 1, WIDTH as int),
                piece,
            );
        }
    }

    /// The layout holds exactly the pieces that the chunk calls for: a piece
    /// is listed if and only if its cell lies inside the chunk and the cells
    /// around it ask for it.
    pub proof fn lemma_pieces_are_those_placed(&self, piece: Piece)
        ensures
            self.pieces().contains(piece) <==> self.places(piece),
    {
        self.lemma_rows_pieces(HEIGHT as int, piece);
    }

    /// The pieces of one cell stand in the order of their ranks.
    proof fn lemma_cell_pieces_in_order(&self, row: int, column: int, i: int, j: int)
        requires
            0 <= row < HEIGHT,
            0 <= column < WIDTH,
            0 <= i < j < self.cell_pieces(row, column).len(),
        ensures
            self.cell_pieces(row, column)[i].before(self.cell_pieces(row, column)[j]),
    {
        let beside: Seq<Piece> = if self.wall_beside(row, column) {
            seq![Piece::Wall { column: column as usize, row: row as usize, turned: false }]
        } else {
            Seq::empty()
        };
        let below: Seq<Piece> = if self.wall_below(row, column) {
            seq![Piece::Wall { column: column as usize, row: row as usize, turned: true }]
        } else {
            Seq::empty()
        };
        let floor: Seq<Piece> = if self.grid[row][column] {
            seq![Piece::Floor { column: column as usize, row: row as usize }]
        } else {
            Seq::empty()
        };
        assert(self.cell_pieces(row, column) == beside + below + floor);
    }

    /// The pieces of the first `columns` cells of a row stand in order.
    proof fn lemma_row_pieces_in_order(&self, row: int, columns: int, i: int, j: int)
        requires
            0 <= row < HEIGHT,
            0 <= columns <= WIDTH,
            0 <= i < j < self.row_pieces(row, columns).len(),
        ensures
            self.row_pieces(row, columns)[i].before(self.row_pieces(row, columns)[j]),
        decreases columns,
    {
        if columns > 0 {
            let earlier = self.row_pieces(row, columns - 1);
            let last = self.cell_pieces(row, columns - 1);
            assert forall|a: int, b: int| 0 <= a < b < earlier.len() implies earlier[a].before(
                earlier[b],
            ) by {
                self.lemma_row_pieces_in_order(row, columns - 1, a, b);
            }
            assert forall|a: int, b: int| 0 <= a < b < last.len() implies last[a].before(
                last[b],
            ) by {
                self.lemma_cell_pieces_in_order(row, columns - 1, a, b);
            }
            assert forall|a: int, b: int|
                0 <= a < earlier.len() && 0 <= b < last.len() implies earlier[a].before(
                last[b],
            ) by {
                assert(earlier.contains(earlier[a]));
                assert(last.contains(last[b]));
                self.lemma_row_pieces(row, columns - 1, earlier[a]);
                self.lemma_cell_pieces(row, columns - 1, last[b]);
            }
            lemma_in_order_joined(earlier, last, i, j);
        }
    }

    /// The pieces of the first `rows` rows stand in order.
    proof fn lemma_rows_pieces_in_order(&self, rows: int, i: int, j: int)
        requires
            0 <= rows <= HEIGHT,
            0 <= i < j < self.rows_pieces(rows).len(),
        ensures
            self.rows_pieces(rows)[i].before(self.rows_pieces(rows)[j]),
        decreases rows,
    {
        if rows > 0 {
            let earlier = self.rows_pieces(rows - 1);
            let last = self.row_pieces(rows - 1, WIDTH as int);
            assert forall|a: int, b: int| 0 <= a < b < earlier.len() implies earlier[a].before(
                earlier[b],
            ) by {
                self.lemma_rows_pieces_in_order(rows - 1, a, b);
            }
            assert forall|a: int, b: int| 0 <= a < b < last.len() implies last[a].before(
                last[b],
            ) by {
                self.lemma_row_pieces_in_order(rows - 1, WIDTH as int, a, b);
            }
            assert forall|a: int, b: int|
                0 <= a < earlier.len() && 0 <= b < last.len() implies earlier[a].before(
                last[b],
            ) by {
                assert(earlier.contains(earlier[a]));
                assert(last.contains(last[b]));
                self.lemma_rows_pieces(rows - 1, earlier[a]);
                self.lemma_row_pieces(rows - 1, WIDTH as int, last[b]);
            }
            lemma_in_order_joined(earlier, last, i, j);
        }
    }

    /// The layout lists its pieces row by row, along each row column by
    /// column, and at each cell in the order of their ranks: of any two
    /// pieces, the one listed first is placed before the other.
    pub proof fn lemma_pieces_are_in_order(&self, i: int, j: int)
        requires
            0 <= i < j < self.pieces().len(),
        ensures
            self.pieces()[i].before(self.pieces()[j]),
    {
        self.lemma_rows_pieces_in_order(HEIGHT as int, i, j);
    }

    /// The layout lists no piece twice.
    pub proof fn lemma_pieces_are_distinct(&self)
        ensures
            self.pieces().no_duplicates(),
    {
        assert forall|i: int, j: int|
            0 <= i < self.pieces().len() && 0 <= j < self.pieces().len() && i != j implies self.pieces()[i]
            != self.pieces()[j] by {
            if i < j {
                self.lemma_pieces_are_in_order(i, j);
            } else {
                self.lemma_pieces_are_in_order(j, i);
            }
        }
    }

    /// Appends the pieces that stand at one cell to `placed`.
    fn place_cell(&self, row: usize, column: usize, placed: &mut Vec<Piece>)
        requires
            row < HEIGHT,
            column < WIDTH,
        ensures
            final(placed)@ == old(placed)@ + self.cell_pieces(row as int, column as int),
    {
        let open = self.grid[row][column];
        let ghost before = placed@;
        let ghost beside: Seq<Piece> = Seq::empty();
        let ghost below: Seq<Piece> = Seq::empty();
        let ghost floor: Seq<Piece> = Seq::empty();
        if column + 1 < WIDTH && open != self.grid[row][column + 1] {
            let piece = Piece::Wall { column, row, turned: false };
            placed.push(piece);
            proof {
                beside = seq![piece];
            }
        }
        assert(placed@ == before + beside);
        if row + 1 < HEIGHT && open != self.grid[row + 1][column] {
            let piece = Piece::Wall { column, row, turned: true };
            placed.push(piece);
            proof {
                below = seq![piece];
            }
        }
        assert(placed@ == before + (beside + below));
        if open {
            let piece = Piece::Floor { column, row };
            placed.push(piece);
            proof {
                floor = seq![piece];
            }
        }
        assert(placed@ == before + (beside + below + floor));
        assert(self.cell_pieces(row as int, column as int) == beside + below + floor);
    }

    /// Lists the pieces that furnish the chunk: a floor tile on every open
    /// cell and a wall segment wherever an open cell borders a void one inside
    /// the chunk.
    pub fn layout(&self) -> (placed: Vec<Piece>)
        ensures
            placed@ == self.pieces(),
    {
        let mut placed: Vec<Piece> = Vec::new();
        for z in 0..HEIGHT
            invariant
                placed@ == self.rows_pieces(z as int),
        {
            let ghost before = placed@;
            for x in 0..WIDTH
                invariant
                    z < HEIGHT,
                    placed@ == before + self.row_pieces(z as int, x as int),
            {
                let ghost row_so_far = self.row_pieces(z as int, x as int);
                let ghost cell = self.cell_pieces(z as int, x as int);
                self.place_cell(z, x, &mut placed);
                assert(self.row_pieces(z as int, x + 1) == row_so_far + cell);
                assert(before + row_so_far + cell == before + (row_so_far + cell));
            }
        }
        placed
    }
}

} // verus!
