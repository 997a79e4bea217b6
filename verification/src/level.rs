//! The level grid: a fixed-size chunk of cells, each either open ground or
//! void, and the ways to make one.

use crate::chance::Coin;
use vstd::arithmetic::div_mod::lemma_div_pos_is_pos;
use vstd::arithmetic::div_mod::lemma_fundamental_div_mod;
use vstd::arithmetic::div_mod::lemma_fundamental_div_mod_converse;
use vstd::arithmetic::div_mod::lemma_mod_bound;
use vstd::arithmetic::div_mod::lemma_multiply_divide_lt;
use vstd::prelude::*;

verus! {

/// A `WIDTH` by `HEIGHT` block of cells. `grid[row][column]` is `true` where the
/// cell is open ground and `false` where it is void.
pub struct Chunk<const WIDTH: usize, const HEIGHT: usize> {
    pub grid: [[bool; WIDTH]; HEIGHT],
}

/// A cell inside a grid has a place in the row-by-row listing of its cells.
proof fn lemma_cell_index_in_bounds(row: int, column: int, width: int, height: int)
    requires
        0 <= row < height,
        0 <= column < width,
    ensures
        0 <= row * width + column < height * width,
{
    assert(0 <= row * width && (row + 1) * width <= height * width && (row + 1) * width == row
        * width + width) by (nonlinear_arith)
        requires
            0 <= row,
            row + 1 <= height,
            0 <= width,
    ;
}

impl<const WIDTH: usize, const HEIGHT: usize> Chunk<WIDTH, HEIGHT> {
    /// The cells of the chunk in one sequence, row by row from the first row
    /// on: `true` for open ground, `false` for void.
    pub open spec fn cells(&self) -> Seq<bool> {
        Seq::new(
            (HEIGHT * WIDTH) as nat,
            |at: int| self.grid[at / (WIDTH as int)][at % (WIDTH as int)],
        )
    }

    /// The cell in column `column` of row `row` stands at place
    /// `row * WIDTH + column` of the listing of the cells.
    pub proof fn lemma_cell_in_cells(&self, row: int, column: int)
        requires
            0 <= row < HEIGHT,
            0 <= column < WIDTH,
        ensures
            0 <= row * WIDTH + column < self.cells().len(),
            self.cells()[row * WIDTH + column] == self.grid[row][column],
    {
        lemma_cell_index_in_bounds(row, column, WIDTH as int, HEIGHT as int);
        lemma_fundamental_div_mod_converse(row * WIDTH + column, WIDTH as int, row, column);
    }

    /// Place `at` of the listing of the cells holds the cell in column
    /// `at % WIDTH` of row `at / WIDTH`, which lies inside the chunk.
    proof fn lemma_place_in_grid(at: int)
        requires
            0 <= at < HEIGHT * WIDTH,
        ensures
            0 < WIDTH,
            0 <= at / (WIDTH as int) < HEIGHT,
            0 <= at % (WIDTH as int) < WIDTH,
            (at / (WIDTH as int)) * WIDTH + at % (WIDTH as int) == at,
    {
        if WIDTH == 0 {
            assert(HEIGHT * WIDTH == 0) by (nonlinear_arith)
                requires
                    WIDTH == 0,
            ;
        }
        let width = WIDTH as int;
        lemma_fundamental_div_mod(at, width);
        lemma_mod_bound(at, width);
        lemma_div_pos_is_pos(at, width);
        assert(width * HEIGHT == HEIGHT * WIDTH) by (nonlinear_arith)
            requires
                width == WIDTH,
        ;
        lemma_multiply_divide_lt(at, width, HEIGHT as int);
        assert((at / width) * width == width * (at / width)) by (nonlinear_arith);
    }

    /// A chunk is known by the listing of its cells: two chunks that list the
    /// same cells have the same grid.
    pub proof fn lemma_cells_tell_chunks_apart(&self, other: &Chunk<WIDTH, HEIGHT>)
        requires
            self.cells() == other.cells(),
        ensures
            self.grid == other.grid,
    {
        assert forall|row: int| 0 <= row < HEIGHT implies self.grid[row] == other.grid[row] by {
            assert forall|column: int| 0 <= column < WIDTH implies self.grid[row][column]
                == other.grid[row][column] by {
                self.lemma_cell_in_cells(row, column);
                other.lemma_cell_in_cells(row, column);
            }
            assert(self.grid[row] =~= other.grid[row]);
        }
        assert(self.grid =~= other.grid);
    }

    /// Whether (`row`, `column`) lies strictly inside the outermost ring of cells.
    pub open spec fn is_interior(row: int, column: int) -> bool {
        0 < row < HEIGHT - 1 && 0 < column < WIDTH - 1
    }

    /// A square arena: open ground everywhere but on the outermost ring of
    /// cells, which is void.
    pub fn arena() -> (chunk: Chunk<WIDTH, HEIGHT>)
        requires
            WIDTH == HEIGHT,
        ensures
            forall|row: int, column: int|
                0 <= row < HEIGHT && 0 <= column < WIDTH ==> #[trigger] chunk.grid[row][column]
                    == Self::is_interior(row, column),
    {
        let mut grid = [[true; WIDTH]; HEIGHT];
        for x in 0..WIDTH
            invariant
                WIDTH == HEIGHT,
                forall|row: int, column: int|
                    0 <= row < HEIGHT && 0 <= column < WIDTH ==> #[trigger] grid[row][column] == (
                    row >= x || 0 < column < WIDTH - 1),
        {
            grid[x][0] = false;
            grid[x][HEIGHT - 1] = false;
        }
        for y in 0..HEIGHT
            invariant
                WIDTH == HEIGHT,
                forall|row: int, column: int|
                    0 <= row < HEIGHT && 0 <= column < WIDTH ==> #[trigger] grid[row][column] == (
                    0 < column < WIDTH - 1 && (column >= y || 0 < row < HEIGHT - 1)),
        {
            grid[0][y] = false;
            grid[WIDTH - 1][y] = false;
        }
        Chunk { grid }
    }

    /// The chunk whose cells are `cells`, read row by row from the first row
    /// on. `None` unless `cells` holds exactly one value per cell.
    pub fn from_cells(cells: &[bool]) -> (result: Option<Chunk<WIDTH, HEIGHT>>)
        ensures
            result is Some <==> cells@.len() == HEIGHT * WIDTH,
            result matches Some(chunk) ==> chunk.cells() == cells@,
            result matches Some(chunk) ==> forall|row: int, column: int|
                0 <= row < HEIGHT && 0 <= column < WIDTH ==> #[trigger] chunk.grid[row][column]
                    == cells@[row * WIDTH + column],
    {
        let given: usize = cells.len();
        let total: usize = match HEIGHT.checked_mul(WIDTH) {
            Some(total) => total,
            None => {
                return None;
            },
        };
        if given != total {
            return None;
        }
        let mut grid = [[false; WIDTH]; HEIGHT];
        let mut next: usize = 0;
        assert(0 * WIDTH == 0) by (nonlinear_arith);
        for y in 0..HEIGHT
            invariant
                cells@.len() == HEIGHT * WIDTH,
                next == y * WIDTH,
                forall|row: int, column: int|
                    0 <= row < y && 0 <= column < WIDTH ==> #[trigger] grid[row][column]
                        == cells@[row * WIDTH + column],
        {
            for x in 0..WIDTH
                invariant
                    y < HEIGHT,
                    cells@.len() == HEIGHT * WIDTH,
                    next == y * WIDTH + x,
                    forall|row: int, column: int|
                        0 <= row < y && 0 <= column < WIDTH ==> #[trigger] grid[row][column]
                            == cells@[row * WIDTH + column],
                    forall|column: int|
                        0 <= column < x ==> #[trigger] grid[y as int][column] == cells@[y
                            * WIDTH + column],
            {
                proof {
                    lemma_cell_index_in_bounds(y as int, x as int, WIDTH as int, HEIGHT as int);
                }
                grid[y][x] = cells[next];
                next = next + 1;
            }
            assert((y + 1) * WIDTH == y * WIDTH + WIDTH) by (nonlinear_arith);
        }
        let chunk = Chunk { grid };
        assert forall|at: int| 0 <= at < HEIGHT * WIDTH implies chunk.cells()[at] == cells@[at] by {
            Self::lemma_place_in_grid(at);
        }
        assert(chunk.cells() =~= cells@);
        Some(chunk)
    }

    /// A chunk in which every cell is open or void on the toss of a coin: one
    /// toss for each cell, row by row from the first row on. How the coin
    /// lands is left to it; the chunk holds exactly what this call added to
    /// the record of its tosses.
    pub fn random(coin: &mut Coin) -> (chunk: Chunk<WIDTH, HEIGHT>)
        ensures
            final(coin)@ == old(coin)@ + chunk.cells(),
    {
        let ghost before = coin@;
        let mut cells: Vec<bool> = Vec::new();
        assert(0 * WIDTH == 0) by (nonlinear_arith);
        for y in 0..HEIGHT
            invariant
                cells@.len() == y * WIDTH,
                coin@ == before + cells@,
        {
            for x in 0..WIDTH
                invariant
                    cells@.len() == y * WIDTH + x,
                    coin@ == before + cells@,
            {
                let ghost tossed = cells@;
                let open = coin.toss();
                cells.push(open);
                assert((before + tossed).push(open) == before + tossed.push(open));
            }
            assert((y + 1) * WIDTH == y * WIDTH + WIDTH) by (nonlinear_arith);
        }
        Self::from_cells(cells.as_slice()).unwrap()
    }
}

} // verus!
