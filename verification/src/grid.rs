//! The canvas: a fixed grid of characters onto which stars are plotted.

use vstd::prelude::*;

verus! {

/// Number of columns of the canvas.
pub const GRID_WIDTH: usize = 22;

/// Number of rows of the canvas.
pub const GRID_HEIGHT: usize = 10;

/// What a star is, mathematically: a column, a row and the glyph shown there.
pub struct StarView {
    pub x: nat,
    pub y: nat,
    pub glyph: char,
}

impl StarView {
    /// The star lies on the canvas.
    pub open spec fn in_bounds(self) -> bool {
        self.x < GRID_WIDTH && self.y < GRID_HEIGHT
    }

    /// The star sits in the given row and column.
    pub open spec fn is_at(self, row: int, col: int) -> bool {
        self.y == row && self.x == col
    }
}

/// The character shown at `(row, col)` once `stars` have been plotted in
/// order: the glyph of the last star placed there, or a space where there is
/// none.
pub open spec fn cell(stars: Seq<StarView>, row: int, col: int) -> char
    decreases stars.len(),
{
    if stars.len() == 0 {
        ' '
    } else if stars.last().is_at(row, col) {
        stars.last().glyph
    } else {
        cell(stars.drop_last(), row, col)
    }
}

/// One row of the canvas after plotting `stars`.
pub open spec fn grid_row(stars: Seq<StarView>, row: int) -> Seq<char> {
    Seq::new(GRID_WIDTH as nat, |col: int| cell(stars, row, col))
}

/// The whole canvas after plotting `stars`, row by row.
pub open spec fn grid_of(stars: Seq<StarView>) -> Seq<Seq<char>> {
    Seq::new(GRID_HEIGHT as nat, |row: int| grid_row(stars, row))
}

/// A cell at which no star was placed shows a space.
pub proof fn lemma_cell_without_star(stars: Seq<StarView>, row: int, col: int)
    requires
        forall|i: int| 0 <= i < stars.len() ==> !(#[trigger] stars[i]).is_at(row, col),
    ensures
        cell(stars, row, col) == ' ',
    decreases stars.len(),
{
    if stars.len() > 0 {
        let rest = stars.drop_last();
        assert(!stars[stars.len() - 1].is_at(row, col));
        assert forall|i: int| 0 <= i < rest.len() implies !(#[trigger] rest[i]).is_at(row, col) by {
            assert(rest[i] == stars[i]);
        }
        lemma_cell_without_star(rest, row, col);
    }
}

/// A cell shows the glyph of the star at index `i` if that star was placed
/// there and no later star was.
pub proof fn lemma_cell_of_last_star(stars: Seq<StarView>, i: int, row: int, col: int)
    requires
        0 <= i < stars.len(),
        stars[i].is_at(row, col),
        forall|j: int| i < j < stars.len() ==> !(#[trigger] stars[j]).is_at(row, col),
    ensures
        cell(stars, row, col) == stars[i].glyph,
    decreases stars.len(),
{
    if i < stars.len() - 1 {
        let rest = stars.drop_last();
        assert(!stars[stars.len() - 1].is_at(row, col));
        assert(rest[i] == stars[i]);
        assert forall|j: int| i < j < rest.len() implies !(#[trigger] rest[j]).is_at(row, col) by {
            assert(rest[j] == stars[j]);
        }
        lemma_cell_of_last_star(rest, i, row, col);
    }
}

/// Where the star at index `i` was placed, the cell shows its glyph or that
/// of a later star placed on the same cell: the last of them.
pub proof fn lemma_cell_of_star(stars: Seq<StarView>, i: int) -> (last: int)
    requires
        0 <= i < stars.len(),
    ensures
        i <= last < stars.len(),
        stars[last].is_at(stars[i].y as int, stars[i].x as int),
        forall|j: int|
            last < j < stars.len() ==> !(#[trigger] stars[j]).is_at(
                stars[i].y as int,
                stars[i].x as int,
            ),
        cell(stars, stars[i].y as int, stars[i].x as int) == stars[last].glyph,
    decreases stars.len() - i,
{
    let row = stars[i].y as int;
    let col = stars[i].x as int;
    if exists|j: int| i < j < stars.len() && (#[trigger] stars[j]).is_at(row, col) {
        let j = choose|j: int| i < j < stars.len() && (#[trigger] stars[j]).is_at(row, col);
        let last = lemma_cell_of_star(stars, j);
        last
    } else {
        lemma_cell_of_last_star(stars, i, row, col);
        i
    }
}

/// A star that lies on the canvas.
#[derive(Clone, Copy, Debug, PartialEq, Eq)]
pub struct Star {
    x: u8,
    y: u8,
    glyph: char,
}

impl View for Star {
    type V = StarView;

    closed spec fn view(&self) -> StarView {
        StarView { x: self.x as nat, y: self.y as nat, glyph: self.glyph }
    }
}

impl Star {
    #[verifier::type_invariant]
    spec fn on_canvas(self) -> bool {
        self.x < GRID_WIDTH && self.y < GRID_HEIGHT
    }

    /// Places a star, if the position lies on the canvas.
    pub fn new(x: u8, y: u8, glyph: char) -> (star: Option<Star>)
        ensures
            match star {
                Some(s) => s@ == (StarView { x: x as nat, y: y as nat, glyph }) && s@.in_bounds(),
                None => !(StarView { x: x as nat, y: y as nat, glyph }).in_bounds(),
            },
    {
        if (x as usize) < GRID_WIDTH && (y as usize) < GRID_HEIGHT {
            Some(Star { x, y, glyph })
        } else {
            None
        }
    }

    /// The column, counted from the left.
    pub fn x(&self) -> (x: u8)
        ensures
            x == self@.x,
            self@.in_bounds(),
    {
        proof {
            use_type_invariant(self);
        }
        self.x
    }

    /// The row, counted from the top.
    pub fn y(&self) -> (y: u8)
        ensures
            y == self@.y,
            self@.in_bounds(),
    {
        proof {
            use_type_invariant(self);
        }
        self.y
    }

    /// The character drawn for this star.
    pub fn glyph(&self) -> (glyph: char)
        ensures
            glyph == self@.glyph,
    {
        self.glyph
    }
}

/// The canvas itself: `GRID_HEIGHT` rows of `GRID_WIDTH` characters each.
pub struct Grid {
    cells: Vec<char>,
}

impl View for Grid {
    type V = Seq<Seq<char>>;

    closed spec fn view(&self) -> Seq<Seq<char>> {
        Seq::new(
            GRID_HEIGHT as nat,
            |row: int| Seq::new(GRID_WIDTH as nat, |col: int| self.cells@[row * GRID_WIDTH + col]),
        )
    }
}

impl Grid {
    #[verifier::type_invariant]
    spec fn full_size(self) -> bool {
        self.cells@.len() == GRID_WIDTH * GRID_HEIGHT
    }

    /// Every view of a canvas has the fixed number of rows and columns.
    pub proof fn lemma_dimensions(self)
        ensures
            self@.len() == GRID_HEIGHT,
            forall|row: int| 0 <= row < GRID_HEIGHT ==> (#[trigger] self@[row]).len() == GRID_WIDTH,
    {
    }

    /// A canvas of spaces.
    pub fn blank() -> (grid: Grid)
        ensures
            grid@ == grid_of(Seq::<StarView>::empty()),
    {
        let mut cells: Vec<char> = Vec::new();
        let mut i: usize = 0;
        while i < GRID_WIDTH * GRID_HEIGHT
            invariant
                i <= GRID_WIDTH * GRID_HEIGHT,
                cells@.len() == i,
                forall|k: int| 0 <= k < i ==> cells@[k] == ' ',
            decreases GRID_WIDTH * GRID_HEIGHT - i,
        {
            cells.push(' ');
            i += 1;
        }
        let grid = Grid { cells };
        assert(grid@ =~~= grid_of(Seq::<StarView>::empty()));
        grid
    }

    /// Draws one star, over whatever the cell held before.
    pub fn plot(self, star: &Star) -> (grid: Grid)
        ensures
            star@.in_bounds(),
            grid@ == self@.update(
                star@.y as int,
                self@[star@.y as int].update(star@.x as int, star@.glyph),
            ),
    {
        proof {
            use_type_invariant(&self);
        }
        let row: usize = star.y() as usize;
        let col: usize = star.x() as usize;
        let mut cells = self.cells;
        cells.set(row * GRID_WIDTH + col, star.glyph());
        let grid = Grid { cells };
        assert(grid@ =~~= self@.update(
            row as int,
            self@[row as int].update(col as int, star@.glyph),
        ));
        grid
    }

    /// The canvas with all of `stars` drawn in order, later ones over earlier ones.
    pub fn of(stars: &Vec<Star>) -> (grid: Grid)
        ensures
            grid@ == grid_of(stars@.map_values(|s: Star| s@)),
    {
        let ghost views = stars@.map_values(|s: Star| s@);
        let mut grid = Grid::blank();
        let mut i: usize = 0;
        assert(views.take(0) =~= Seq::<StarView>::empty());
        while i < stars.len()
            invariant
                i <= stars.len(),
                views == stars@.map_values(|s: Star| s@),
                grid@ == grid_of(views.take(i as int)),
            decreases stars.len() - i,
        {
            grid = grid.plot(&stars[i]);
            proof {
                let before = views.take(i as int);
                let after = views.take(i + 1);
                assert(after.drop_last() =~= before);
                assert(after.last() == stars@[i as int]@);
                assert(grid@ =~~= grid_of(after));
            }
            i += 1;
        }
        assert(views.take(i as int) =~= views);
        grid
    }

    /// The character at the given row and column.
    pub fn get(&self, row: usize, col: usize) -> (c: char)
        requires
            row < GRID_HEIGHT,
            col < GRID_WIDTH,
        ensures
            c == self@[row as int][col as int],
    {
        proof {
            use_type_invariant(self);
        }
        self.cells[row * GRID_WIDTH + col]
    }
}

} // verus!
