use starfetch::error::Error;
use starfetch::grid::Star;
use starfetch::record::{fetch_constellation, Constellation, ReadAttempt, Record};

fn record(graph: Vec<(u8, u8, char)>) -> Record {
    Record {
        title: String::from("title"),
        graph,
        name: String::from("name"),
        quadrant: String::from("quadrant"),
        right_ascension: String::from("ra"),
        declination: String::from("dec"),
        area: String::from("area"),
        main_stars: String::from("3"),
    }
}

#[test]
fn star_new_accepts_the_canvas_only() {
    let s = Star::new(21, 9, '*').unwrap();
    assert_eq!((s.x(), s.y(), s.glyph()), (21, 9, '*'));
    let origin = Star::new(0, 0, 'o').unwrap();
    assert_eq!((origin.x(), origin.y(), origin.glyph()), (0, 0, 'o'));
    assert_eq!(Star::new(22, 0, '*'), None);
    assert_eq!(Star::new(0, 10, '*'), None);
    assert_eq!(Star::new(255, 255, '*'), None);
}

#[test]
fn record_in_bounds_becomes_constellation() {
    let c = Constellation::from_record(record(vec![(0, 0, 'a'), (21, 9, 'b')])).unwrap();
    assert_eq!(c.title, "title");
    assert_eq!(c.name, "name");
    assert_eq!(c.quadrant, "quadrant");
    assert_eq!(c.right_ascension, "ra");
    assert_eq!(c.declination, "dec");
    assert_eq!(c.area, "area");
    assert_eq!(c.main_stars, "3");
    assert_eq!(c.graph, vec![Star::new(0, 0, 'a').unwrap(), Star::new(21, 9, 'b').unwrap()]);
}

#[test]
fn record_out_of_bounds_is_malformed() {
    assert_eq!(Constellation::from_record(record(vec![(22, 0, 'a')])), Err(Error::Malformed));
    assert_eq!(Constellation::from_record(record(vec![(0, 10, 'a')])), Err(Error::Malformed));
    assert_eq!(
        Constellation::from_record(record(vec![(1, 1, 'a'), (2, 2, 'b'), (200, 3, 'c')])),
        Err(Error::Malformed)
    );
}

#[test]
fn record_round_trip() {
    let stored = record(vec![(4, 2, '✦'), (14, 4, '✦'), (4, 2, 'x')]);
    let c = Constellation::from_record(stored.clone()).unwrap();
    assert_eq!(c.to_record(), stored);
    assert_eq!(Constellation::from_record(c.to_record()), Ok(c));
}

#[test]
fn fetch_reports_missing_file_as_not_found() {
    assert_eq!(fetch_constellation(ReadAttempt::Unreadable), Err(Error::NotFound));
}

#[test]
fn fetch_reports_bad_text_as_malformed() {
    assert_eq!(fetch_constellation(ReadAttempt::Unparsable), Err(Error::Malformed));
}

#[test]
fn fetch_decodes_a_parsed_record() {
    let r = record(vec![(1, 2, '*')]);
    let want = Constellation::from_record(r.clone());
    assert!(want.is_ok());
    assert_eq!(fetch_constellation(ReadAttempt::Parsed(r)), want);
    assert_eq!(
        fetch_constellation(ReadAttempt::Parsed(record(vec![(1, 20, '*')]))),
        Err(Error::Malformed)
    );
}

#[test]
fn error_messages() {
    assert_eq!(Error::Configuration.message(), "no resource directory found");
    assert_eq!(
        Error::NotFound.message(),
        "the requested constellation does not exist or is not readable"
    );
    assert_eq!(Error::Malformed.message(), "the constellation record could not be parsed");
    assert_eq!(Error::EmptyCollection.message(), "Constellations directory is empty");
    assert_ne!(Error::NotFound.message(), Error::Malformed.message());
}
