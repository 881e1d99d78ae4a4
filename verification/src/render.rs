//! Drawing a constellation: the framed canvas with the descriptive lines
//! beside it.

use vstd::prelude::*;
use vstd::string::*;

use crate::grid::{
    cell, grid_of, grid_row, lemma_cell_of_star, lemma_cell_without_star, Grid, GRID_HEIGHT,
    GRID_WIDTH,
};
use crate::record::{Constellation, ConstellationView};
use crate::style::{bold_white_prefix, emphasize, emphasized, style_reset, Emphasis};
use crate::text::{join_lines, joined, lacks, lemma_joined_line_feeds, occurrences};

verus! {

/// Corners and edges of the frame.
pub const TOP_LEFT: char = '┌';

pub const TOP_RIGHT: char = '┐';

pub const BOTTOM_LEFT: char = '└';

pub const BOTTOM_RIGHT: char = '┘';

pub const HORIZONTAL: char = '─';

pub const VERTICAL: char = '│';

/// Number of lines of a drawing: the two borders and the rows between them.
pub const LINE_COUNT: usize = 12;

/// The blanks between the frame and a descriptive line.
pub open spec fn indent() -> Seq<char> {
    "      "@
}

/// What stands between a label and its value.
pub open spec fn separator() -> Seq<char> {
    ": "@
}

/// The label shown beside the given row, for the rows that carry one.
pub open spec fn label(row: int) -> Seq<char> {
    if row == 3 {
        "Quadrant"@
    } else if row == 4 {
        "Right ascension"@
    } else if row == 5 {
        "Declination"@
    } else if row == 6 {
        "Area"@
    } else {
        "Main stars"@
    }
}

/// The field of the constellation shown beside the given row: the name in
/// the second row, the five descriptive fields in the fourth to eighth.
pub open spec fn field(c: ConstellationView, row: int) -> Seq<char> {
    if row == 1 {
        c.name
    } else if row == 3 {
        c.quadrant
    } else if row == 4 {
        c.right_ascension
    } else if row == 5 {
        c.declination
    } else if row == 6 {
        c.area
    } else {
        c.main_stars
    }
}

/// Whether a row has a label and a value beside it.
pub open spec fn is_labelled(row: int) -> bool {
    3 <= row <= 7
}

/// What follows the frame in the given row: the emphasised name, a label
/// with its value, or nothing.
pub open spec fn caption(c: ConstellationView, row: int, emphasis: Emphasis) -> Seq<char> {
    if row == 1 {
        indent() + emphasized(c.name, emphasis)
    } else if is_labelled(row) {
        indent() + emphasized(label(row), emphasis) + separator() + field(c, row)
    } else {
        Seq::empty()
    }
}

/// The top border: the title between two corners.
pub open spec fn top_line(c: ConstellationView) -> Seq<char> {
    seq![TOP_LEFT] + c.title + seq![TOP_RIGHT]
}

/// One row of the canvas between the frame's edges.
pub open spec fn framed_row(c: ConstellationView, row: int) -> Seq<char> {
    seq![VERTICAL] + grid_row(c.stars, row) + seq![VERTICAL]
}

/// A whole row: the framed canvas row and what is written beside it.
pub open spec fn row_line(c: ConstellationView, row: int, emphasis: Emphasis) -> Seq<char> {
    framed_row(c, row) + caption(c, row, emphasis)
}

/// The bottom border.
pub open spec fn bottom_line() -> Seq<char> {
    seq![BOTTOM_LEFT] + Seq::new(GRID_WIDTH as nat, |i: int| HORIZONTAL) + seq![BOTTOM_RIGHT]
}

/// The lines of a drawing, without their line feeds: the top border, the
/// rows from the top down, the bottom border.
pub open spec fn rendered_lines(c: ConstellationView, emphasis: Emphasis) -> Seq<Seq<char>> {
    Seq::new(
        LINE_COUNT as nat,
        |i: int|
            if i == 0 {
                top_line(c)
            } else if i <= GRID_HEIGHT {
                row_line(c, i - 1, emphasis)
            } else {
                bottom_line()
            },
    )
}

/// The drawing as one text, every line ended by a line feed.
pub open spec fn rendered(c: ConstellationView, emphasis: Emphasis) -> Seq<char> {
    joined(rendered_lines(c, emphasis))
}

impl Constellation {
    /// The top border.
    fn top_border(&self) -> (line: String)
        ensures
            line@ == top_line(self@),
    {
        let mut line = String::new();
        line.push(TOP_LEFT);
        line.append(self.title.as_str());
        line.push(TOP_RIGHT);
        line
    }

    /// The bottom border.
    fn bottom_border() -> (line: String)
        ensures
            line@ == bottom_line(),
    {
        let mut line = String::new();
        line.push(BOTTOM_LEFT);
        let mut i: usize = 0;
        while i < GRID_WIDTH
            invariant
                i <= GRID_WIDTH,
                line@ == seq![BOTTOM_LEFT] + Seq::new(i as nat, |k: int| HORIZONTAL),
            decreases GRID_WIDTH - i,
        {
            line.push(HORIZONTAL);
            assert(line@ =~= seq![BOTTOM_LEFT] + Seq::new((i + 1) as nat, |k: int| HORIZONTAL));
            i += 1;
        }
        line.push(BOTTOM_RIGHT);
        line
    }

    /// A label with its value, as it stands beside a row.
    fn labelled(label: &str, value: &String, emphasis: Emphasis, line: &mut String)
        ensures
            final(line)@ == old(line)@ + indent() + emphasized(label@, emphasis) + separator()
                + value@,
    {
        line.append("      ");
        let shown = emphasize(label, emphasis);
        line.append(shown.as_str());
        line.append(": ");
        line.append(value.as_str());
    }

    /// One row of the drawing.
    fn row(&self, grid: &Grid, row: usize, emphasis: Emphasis) -> (line: String)
        requires
            row < GRID_HEIGHT,
            grid@ == grid_of(self@.stars),
        ensures
            line@ == row_line(self@, row as int, emphasis),
    {
        let mut line = String::new();
        line.push(VERTICAL);
        let mut col: usize = 0;
        while col < GRID_WIDTH
            invariant
                col <= GRID_WIDTH,
                row < GRID_HEIGHT,
                grid@ == grid_of(self@.stars),
                line@ == seq![VERTICAL] + grid_row(self@.stars, row as int).take(col as int),
            decreases GRID_WIDTH - col,
        {
            line.push(grid.get(row, col));
            assert(line@ =~= seq![VERTICAL] + grid_row(self@.stars, row as int).take(col + 1));
            col += 1;
        }
        assert(grid_row(self@.stars, row as int).take(GRID_WIDTH as int) =~= grid_row(
            self@.stars,
            row as int,
        ));
        line.push(VERTICAL);
        assert(line@ == framed_row(self@, row as int));
        if row == 1 {
            line.append("      ");
            let shown = emphasize(self.name.as_str(), emphasis);
            line.append(shown.as_str());
        } else if row == 3 {
            Self::labelled("Quadrant", &self.quadrant, emphasis, &mut line);
        } else if row == 4 {
            Self::labelled("Right ascension", &self.right_ascension, emphasis, &mut line);
        } else if row == 5 {
            Self::labelled("Declination", &self.declination, emphasis, &mut line);
        } else if row == 6 {
            Self::labelled("Area", &self.area, emphasis, &mut line);
        } else if row == 7 {
            Self::labelled("Main stars", &self.main_stars, emphasis, &mut line);
        }
        assert(line@ =~= row_line(self@, row as int, emphasis));
        line
    }

    /// Draws the constellation, line by line and without line feeds: the top
    /// border with the title, the rows of the canvas with the name and the
    /// descriptive fields beside them, and the bottom border.
    pub fn render_lines(&self, emphasis: Emphasis) -> (lines: Vec<String>)
        ensures
            lines@.len() == LINE_COUNT,
            lines@.map_values(|line: String| line@) == rendered_lines(self@, emphasis),
    {
        let grid = Grid::of(&self.graph);
        let mut lines: Vec<String> = Vec::new();
        lines.push(self.top_border());
        let mut row: usize = 0;
        while row < GRID_HEIGHT
            invariant
                row <= GRID_HEIGHT,
                grid@ == grid_of(self@.stars),
                lines@.len() == row + 1,
                forall|i: int|
                    0 <= i <= row ==> (#[trigger] lines@[i])@ == rendered_lines(self@, emphasis)[i],
            decreases GRID_HEIGHT - row,
        {
            let line = self.row(&grid, row, emphasis);
            lines.push(line);
            row += 1;
        }
        lines.push(Self::bottom_border());
        assert(lines@.map_values(|line: String| line@) =~= rendered_lines(self@, emphasis));
        lines
    }

    /// Draws the constellation as one text, every line ended by a line feed.
    pub fn render(&self, emphasis: Emphasis) -> (text: String)
        ensures
            text@ == rendered(self@, emphasis),
    {
        let lines = self.render_lines(emphasis);
        join_lines(&lines)
    }
}

/// The drawing has twelve lines.  Each of the ten between the borders starts
/// with the frame's edge, then holds the canvas row, exactly as wide as the
/// canvas, and the edge again.
pub proof fn lemma_frame(c: ConstellationView, emphasis: Emphasis, row: int)
    requires
        0 <= row < GRID_HEIGHT,
    ensures
        rendered_lines(c, emphasis).len() == 12,
        rendered_lines(c, emphasis)[row + 1].len() >= GRID_WIDTH + 2,
        rendered_lines(c, emphasis)[row + 1][0] == VERTICAL,
        rendered_lines(c, emphasis)[row + 1][GRID_WIDTH + 1] == VERTICAL,
        rendered_lines(c, emphasis)[row + 1].subrange(1, GRID_WIDTH + 1) == grid_row(c.stars, row),
        grid_row(c.stars, row).len() == 22,
{
    let line = rendered_lines(c, emphasis)[row + 1];
    assert(line == framed_row(c, row) + caption(c, row, emphasis));
    assert(line.subrange(1, GRID_WIDTH + 1) =~= grid_row(c.stars, row));
}

/// The character of the drawing that stands for the canvas cell at `row` and
/// `col` is what that cell shows.
pub proof fn lemma_rendered_cell(c: ConstellationView, emphasis: Emphasis, row: int, col: int)
    requires
        0 <= row < GRID_HEIGHT,
        0 <= col < GRID_WIDTH,
    ensures
        rendered_lines(c, emphasis)[row + 1][col + 1] == cell(c.stars, row, col),
{
    let line = rendered_lines(c, emphasis)[row + 1];
    assert(line == framed_row(c, row) + caption(c, row, emphasis));
}

/// Every star on the canvas is drawn where it was placed: the drawing shows
/// there its glyph, or the glyph of the last star placed on the same cell.
pub proof fn lemma_star_is_drawn(c: ConstellationView, emphasis: Emphasis, i: int) -> (last: int)
    requires
        0 <= i < c.stars.len(),
        c.stars[i].in_bounds(),
    ensures
        i <= last < c.stars.len(),
        c.stars[last].is_at(c.stars[i].y as int, c.stars[i].x as int),
        forall|j: int|
            last < j < c.stars.len() ==> !(#[trigger] c.stars[j]).is_at(
                c.stars[i].y as int,
                c.stars[i].x as int,
            ),
        rendered_lines(c, emphasis)[c.stars[i].y as int + 1][c.stars[i].x as int + 1]
            == c.stars[last].glyph,
{
    let last = lemma_cell_of_star(c.stars, i);
    lemma_rendered_cell(c, emphasis, c.stars[i].y as int, c.stars[i].x as int);
    last
}

/// A cell of the canvas on which no star was placed is drawn as a space.
pub proof fn lemma_empty_cell_is_blank(c: ConstellationView, emphasis: Emphasis, row: int, col: int)
    requires
        0 <= row < GRID_HEIGHT,
        0 <= col < GRID_WIDTH,
        forall|i: int| 0 <= i < c.stars.len() ==> !(#[trigger] c.stars[i]).is_at(row, col),
    ensures
        rendered_lines(c, emphasis)[row + 1][col + 1] == ' ',
{
    lemma_cell_without_star(c.stars, row, col);
    lemma_rendered_cell(c, emphasis, row, col);
}

/// Whether a row shows one of the constellation's fields beside the canvas.
pub open spec fn shows_field(row: int) -> bool {
    row == 1 || is_labelled(row)
}

/// What precedes the field in a row that shows one.
pub open spec fn before_field(c: ConstellationView, row: int, emphasis: Emphasis) -> Seq<char> {
    if row == 1 {
        framed_row(c, row) + indent() + match emphasis {
            Emphasis::Plain => Seq::empty(),
            Emphasis::Ansi => bold_white_prefix(),
        }
    } else {
        framed_row(c, row) + indent() + emphasized(label(row), emphasis) + separator()
    }
}

/// What follows the field in a row that shows one: nothing, but for the
/// end of the emphasis after the name.
pub open spec fn after_field(row: int, emphasis: Emphasis) -> Seq<char> {
    if row == 1 && emphasis == Emphasis::Ansi {
        style_reset()
    } else {
        Seq::empty()
    }
}

/// The rows that show a field hold the field's text exactly as it is: the
/// line is what precedes the field, the field itself, and what follows it.
/// A labelled row ends with its field.
pub proof fn lemma_field_is_shown(c: ConstellationView, emphasis: Emphasis, row: int)
    requires
        shows_field(row),
    ensures
        rendered_lines(c, emphasis)[row + 1] == before_field(c, row, emphasis) + field(c, row)
            + after_field(row, emphasis),
        is_labelled(row) ==> after_field(row, emphasis).len() == 0,
{
    let line = rendered_lines(c, emphasis)[row + 1];
    assert(line == framed_row(c, row) + caption(c, row, emphasis));
    assert(line =~= before_field(c, row, emphasis) + field(c, row) + after_field(row, emphasis));
}

/// Nothing that is drawn holds a line feed: neither the title, nor a field,
/// nor a cell of the canvas.
pub open spec fn free_of_line_feeds(c: ConstellationView) -> bool {
    &&& lacks(c.title, '\n')
    &&& lacks(c.name, '\n')
    &&& lacks(c.quadrant, '\n')
    &&& lacks(c.right_ascension, '\n')
    &&& lacks(c.declination, '\n')
    &&& lacks(c.area, '\n')
    &&& lacks(c.main_stars, '\n')
    &&& forall|row: int, col: int|
        0 <= row < GRID_HEIGHT && 0 <= col < GRID_WIDTH ==> #[trigger] cell(c.stars, row, col)
            != '\n'
}

/// Emphasis adds no line feed.
proof fn lemma_emphasized_lacks_line_feed(text: Seq<char>, emphasis: Emphasis)
    requires
        lacks(text, '\n'),
    ensures
        lacks(emphasized(text, emphasis), '\n'),
{
}

/// No label holds a line feed, nor do the indent and the separator.
proof fn lemma_fixed_texts_lack_line_feed(row: int)
    ensures
        lacks(label(row), '\n'),
        lacks(indent(), '\n'),
        lacks(separator(), '\n'),
{
    reveal_strlit("Quadrant");
    reveal_strlit("Right ascension");
    reveal_strlit("Declination");
    reveal_strlit("Area");
    reveal_strlit("Main stars");
    reveal_strlit("      ");
    reveal_strlit(": ");
}

/// A drawing of which no part holds a line feed is a text of exactly twelve
/// lines: none of its lines holds a line feed, and the whole text holds
/// twelve of them, one at the end of each line.
pub proof fn lemma_twelve_lines(c: ConstellationView, emphasis: Emphasis)
    requires
        free_of_line_feeds(c),
    ensures
        forall|i: int| 0 <= i < 12 ==> lacks(#[trigger] rendered_lines(c, emphasis)[i], '\n'),
        occurrences(rendered(c, emphasis), '\n') == 12,
{
    let lines = rendered_lines(c, emphasis);
    assert forall|i: int| 0 <= i < lines.len() implies lacks(#[trigger] lines[i], '\n') by {
        if i == 0 {
        } else if i <= GRID_HEIGHT {
            let row = i - 1;
            lemma_fixed_texts_lack_line_feed(row);
            lemma_emphasized_lacks_line_feed(c.name, emphasis);
            lemma_emphasized_lacks_line_feed(label(row), emphasis);
            assert(lacks(field(c, row), '\n'));
            assert(lacks(caption(c, row, emphasis), '\n'));
            assert forall|k: int| 0 <= k < framed_row(c, row).len() implies framed_row(c, row)[k]
                != '\n' by {
                if 1 <= k <= GRID_WIDTH {
                    assert(framed_row(c, row)[k] == cell(c.stars, row, k - 1));
                }
            }
        } else {
        }
    }
    lemma_joined_line_feeds(lines);
}

} // verus!
