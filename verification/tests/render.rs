use starfetch::grid::{Grid, Star};
use starfetch::record::{Constellation, Record};
use starfetch::style::Emphasis;

fn sample(graph: Vec<(u8, u8, char)>) -> Constellation {
    Constellation::from_record(Record {
        title: String::from("── X ──"),
        graph,
        name: String::from("Xenon"),
        quadrant: String::from("NQ1"),
        right_ascension: String::from("01h to 02h"),
        declination: String::from("+10° to +20°"),
        area: String::from("100 sq. deg. (50th)"),
        main_stars: String::from("4, 9"),
    })
    .unwrap()
}

fn blank_row() -> String {
    format!("│{}│", " ".repeat(22))
}

#[test]
fn renders_the_whole_block_plainly() {
    let c = sample(vec![(4, 2, '✦'), (14, 4, '✦')]);
    let expected = [
        "┌── X ──┐",
        "│                      │",
        "│                      │      Xenon",
        "│    ✦                 │",
        "│                      │      Quadrant: NQ1",
        "│              ✦       │      Right ascension: 01h to 02h",
        "│                      │      Declination: +10° to +20°",
        "│                      │      Area: 100 sq. deg. (50th)",
        "│                      │      Main stars: 4, 9",
        "│                      │",
        "│                      │",
        "└──────────────────────┘",
    ];
    let lines = c.render_lines(Emphasis::Plain);
    assert_eq!(lines.len(), 12);
    for (line, want) in lines.iter().zip(expected.iter()) {
        assert_eq!(line, want);
    }
    let mut text = String::new();
    for want in expected.iter() {
        text.push_str(want);
        text.push('\n');
    }
    assert_eq!(c.render(Emphasis::Plain), text);
}

#[test]
fn example_row_two_holds_the_star_and_row_one_the_name() {
    let c = sample(vec![(4, 2, '✦'), (14, 4, '✦')]);
    let lines = c.render_lines(Emphasis::Plain);
    let row_two: Vec<char> = lines[3].chars().collect();
    assert_eq!(row_two.len(), 24);
    assert_eq!(row_two[0], '│');
    assert_eq!(row_two[23], '│');
    for col in 0..22 {
        let want = if col == 4 { '✦' } else { ' ' };
        assert_eq!(row_two[1 + col], want);
    }
    let row_one = &lines[2];
    assert_eq!(row_one.strip_prefix(blank_row().as_str()), Some("      Xenon"));
}

#[test]
fn render_has_twelve_line_feeds_and_rows_of_twenty_two_cells() {
    let c = sample(vec![(0, 0, 'a'), (21, 9, 'z')]);
    let text = c.render(Emphasis::Ansi);
    assert_eq!(text.matches('\n').count(), 12);
    assert!(text.ends_with('\n'));
    let lines: Vec<&str> = text.lines().collect();
    assert_eq!(lines.len(), 12);
    for row in 0..10 {
        let chars: Vec<char> = lines[row + 1].chars().collect();
        assert_eq!(chars[0], '│');
        assert_eq!(chars[23], '│');
    }
    let first: Vec<char> = lines[1].chars().collect();
    assert_eq!(first[1], 'a');
    let last: Vec<char> = lines[10].chars().collect();
    assert_eq!(last[22], 'z');
}

#[test]
fn a_title_with_a_line_feed_breaks_the_line_count() {
    let mut c = sample(vec![]);
    c.title = String::from("a\nb");
    assert_eq!(c.render_lines(Emphasis::Plain).len(), 12);
    assert_eq!(c.render(Emphasis::Plain).matches('\n').count(), 13);
}

#[test]
fn later_star_overwrites_earlier_one() {
    let c = sample(vec![(3, 1, 'a'), (3, 1, 'b'), (5, 1, 'c'), (3, 1, 'd')]);
    let lines = c.render_lines(Emphasis::Plain);
    let row: Vec<char> = lines[2].chars().collect();
    assert_eq!(row[1 + 3], 'd');
    assert_eq!(row[1 + 5], 'c');
    assert_eq!(row.iter().filter(|ch| **ch != ' ').count(), 2 + 2 + 5);
}

#[test]
fn no_stars_render_blank_rows() {
    let c = sample(vec![]);
    let lines = c.render_lines(Emphasis::Plain);
    for row in [0usize, 2, 8, 9] {
        assert_eq!(lines[row + 1], blank_row());
    }
    assert_eq!(lines[11], "└──────────────────────┘");
}

#[test]
fn fields_are_shown_unchanged() {
    let mut c = sample(vec![]);
    c.name = String::from("  Name: with, odd (chars)  ");
    c.quadrant = String::from("");
    c.area = String::from("x".repeat(300));
    let lines = c.render_lines(Emphasis::Plain);
    assert_eq!(lines[2], format!("{}      {}", blank_row(), "  Name: with, odd (chars)  "));
    assert_eq!(lines[4], format!("{}      Quadrant: ", blank_row()));
    assert_eq!(lines[7], format!("{}      Area: {}", blank_row(), "x".repeat(300)));
    assert!(lines[5].ends_with("01h to 02h"));
    assert!(lines[6].ends_with("+10° to +20°"));
    assert!(lines[8].ends_with("4, 9"));
}

#[test]
fn emphasis_wraps_name_and_labels_only() {
    let c = sample(vec![(1, 1, '*')]);
    let lines = c.render_lines(Emphasis::Ansi);
    assert_eq!(lines[0], "┌── X ──┐");
    assert_eq!(
        lines[2],
        "│ *                    │      \u{1b}[1;37mXenon\u{1b}[0m"
    );
    assert_eq!(
        lines[4],
        format!("{}      \u{1b}[1;37mQuadrant\u{1b}[0m: NQ1", blank_row())
    );
    assert_eq!(
        lines[8],
        format!("{}      \u{1b}[1;37mMain stars\u{1b}[0m: 4, 9", blank_row())
    );
    assert_eq!(lines[1], blank_row());
}

#[test]
fn grid_plots_in_order() {
    let a = Star::new(2, 3, 'a').unwrap();
    let b = Star::new(2, 3, 'b').unwrap();
    let corner = Star::new(21, 9, 'c').unwrap();
    let grid = Grid::of(&vec![a, b, corner]);
    assert_eq!(grid.get(3, 2), 'b');
    assert_eq!(grid.get(9, 21), 'c');
    assert_eq!(grid.get(0, 0), ' ');
    let again = Grid::blank().plot(&b).plot(&a);
    assert_eq!(again.get(3, 2), 'a');
    assert_eq!(Grid::blank().get(3, 2), ' ');
}
