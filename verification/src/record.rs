//! Records as they are stored, and constellations as they are drawn.
//!
//! A [`Record`] holds what one file holds, unchecked.  A [`Constellation`] is
//! a record whose stars all lie on the canvas.

use vstd::prelude::*;

use crate::error::Error;
use crate::grid::{Star, StarView};

verus! {

/// What a stored record says, mathematically.
pub struct RecordView {
    pub title: Seq<char>,
    pub graph: Seq<(u8, u8, char)>,
    pub name: Seq<char>,
    pub quadrant: Seq<char>,
    pub right_ascension: Seq<char>,
    pub declination: Seq<char>,
    pub area: Seq<char>,
    pub main_stars: Seq<char>,
}

/// What a constellation is, mathematically.
pub struct ConstellationView {
    pub title: Seq<char>,
    pub stars: Seq<StarView>,
    pub name: Seq<char>,
    pub quadrant: Seq<char>,
    pub right_ascension: Seq<char>,
    pub declination: Seq<char>,
    pub area: Seq<char>,
    pub main_stars: Seq<char>,
}

/// The star that a stored triple of column, row and glyph stands for.
pub open spec fn star_of(entry: (u8, u8, char)) -> StarView {
    StarView { x: entry.0 as nat, y: entry.1 as nat, glyph: entry.2 }
}

/// The triple under which a star is stored.
pub open spec fn entry_of(star: StarView) -> (u8, u8, char) {
    (star.x as u8, star.y as u8, star.glyph)
}

impl RecordView {
    /// Every stored star lies on the canvas.
    pub open spec fn in_bounds(self) -> bool {
        forall|i: int| 0 <= i < self.graph.len() ==> star_of(#[trigger] self.graph[i]).in_bounds()
    }

    /// The constellation that this record describes; a record with a star off
    /// the canvas describes none.
    pub open spec fn decoded(self) -> Result<ConstellationView, Error> {
        if self.in_bounds() {
            Ok(
                ConstellationView {
                    title: self.title,
                    stars: self.graph.map_values(|entry: (u8, u8, char)| star_of(entry)),
                    name: self.name,
                    quadrant: self.quadrant,
                    right_ascension: self.right_ascension,
                    declination: self.declination,
                    area: self.area,
                    main_stars: self.main_stars,
                },
            )
        } else {
            Err(Error::Malformed)
        }
    }
}

impl ConstellationView {
    /// Every star lies on the canvas.
    pub open spec fn in_bounds(self) -> bool {
        forall|i: int| 0 <= i < self.stars.len() ==> (#[trigger] self.stars[i]).in_bounds()
    }

    /// The record under which this constellation is stored.
    pub open spec fn encoded(self) -> RecordView {
        RecordView {
            title: self.title,
            graph: self.stars.map_values(|star: StarView| entry_of(star)),
            name: self.name,
            quadrant: self.quadrant,
            right_ascension: self.right_ascension,
            declination: self.declination,
            area: self.area,
            main_stars: self.main_stars,
        }
    }
}

/// Storing a constellation and decoding the stored record gives the
/// constellation back, field by field.
pub proof fn lemma_encode_decode(c: ConstellationView)
    requires
        c.in_bounds(),
    ensures
        c.encoded().in_bounds(),
        c.encoded().decoded() == Ok::<ConstellationView, Error>(c),
{
    let r = c.encoded();
    assert forall|i: int| 0 <= i < r.graph.len() implies star_of(#[trigger] r.graph[i]) == c.stars[i] by {
        assert(c.stars[i].in_bounds());
    }
    assert(r.graph.map_values(|entry: (u8, u8, char)| star_of(entry)) =~= c.stars);
}

/// A decoded record stores back as itself.
pub proof fn lemma_decode_encode(r: RecordView)
    requires
        r.in_bounds(),
    ensures
        r.decoded() is Ok,
        r.decoded()->Ok_0.in_bounds(),
        r.decoded()->Ok_0.encoded() == r,
{
    let c = r.decoded()->Ok_0;
    assert forall|i: int| 0 <= i < c.stars.len() implies (#[trigger] c.stars[i]).in_bounds() by {
        assert(star_of(r.graph[i]).in_bounds());
    }
    assert(c.stars.map_values(|star: StarView| entry_of(star)) =~= r.graph);
}

/// One constellation as it is stored: nothing in it has been checked.
#[derive(Clone, Debug, PartialEq, Eq)]
pub struct Record {
    /// The top border's text, centred by whoever wrote the record.
    pub title: String,
    /// The stars, each as column, row and glyph.
    pub graph: Vec<(u8, u8, char)>,
    /// The name shown beside the canvas.
    pub name: String,
    /// The quadrant of the sky.
    pub quadrant: String,
    /// The range of right ascension.
    pub right_ascension: String,
    /// The range of declination.
    pub declination: String,
    /// The area, with its rank.
    pub area: String,
    /// The number of main stars.
    pub main_stars: String,
}

impl View for Record {
    type V = RecordView;

    open spec fn view(&self) -> RecordView {
        RecordView {
            title: self.title@,
            graph: self.graph@,
            name: self.name@,
            quadrant: self.quadrant@,
            right_ascension: self.right_ascension@,
            declination: self.declination@,
            area: self.area@,
            main_stars: self.main_stars@,
        }
    }
}

/// A constellation whose stars all lie on the canvas.
#[derive(Clone, Debug, PartialEq, Eq)]
pub struct Constellation {
    /// The top border's text, centred by whoever wrote the record.
    pub title: String,
    /// The stars, drawn in this order.
    pub graph: Vec<Star>,
    /// The name shown beside the canvas.
    pub name: String,
    /// The quadrant of the sky.
    pub quadrant: String,
    /// The range of right ascension.
    pub right_ascension: String,
    /// The range of declination.
    pub declination: String,
    /// The area, with its rank.
    pub area: String,
    /// The number of main stars.
    pub main_stars: String,
}

impl View for Constellation {
    type V = ConstellationView;

    open spec fn view(&self) -> ConstellationView {
        ConstellationView {
            title: self.title@,
            stars: self.graph@.map_values(|star: Star| star@),
            name: self.name@,
            quadrant: self.quadrant@,
            right_ascension: self.right_ascension@,
            declination: self.declination@,
            area: self.area@,
            main_stars: self.main_stars@,
        }
    }
}

impl Constellation {
    /// Checks a record: it is a constellation if every star lies on the
    /// canvas, and malformed otherwise.
    pub fn from_record(record: Record) -> (result: Result<Constellation, Error>)
        ensures
            match record@.decoded() {
                Ok(view) => result is Ok && result->Ok_0@ == view,
                Err(error) => result == Err::<Constellation, Error>(error),
            },
    {
        let mut graph: Vec<Star> = Vec::new();
        let mut i: usize = 0;
        while i < record.graph.len()
            invariant
                i <= record.graph.len(),
                graph@.len() == i,
                forall|k: int| 0 <= k < i ==> (#[trigger] graph@[k])@ == star_of(record.graph@[k]),
                forall|k: int| 0 <= k < i ==> star_of(#[trigger] record.graph@[k]).in_bounds(),
            decreases record.graph.len() - i,
        {
            let entry = record.graph[i];
            match Star::new(entry.0, entry.1, entry.2) {
                Some(star) => {
                    graph.push(star);
                },
                None => {
                    assert(!star_of(record.graph@[i as int]).in_bounds());
                    return Err(Error::Malformed);
                },
            }
            i += 1;
        }
        let constellation = Constellation {
            title: record.title,
            graph,
            name: record.name,
            quadrant: record.quadrant,
            right_ascension: record.right_ascension,
            declination: record.declination,
            area: record.area,
            main_stars: record.main_stars,
        };
        assert(constellation@.stars =~= record@.graph.map_values(
            |entry: (u8, u8, char)| star_of(entry),
        ));
        Ok(constellation)
    }

    /// The record under which this constellation is stored.
    pub fn to_record(&self) -> (record: Record)
        ensures
            self@.in_bounds(),
            record@ == self@.encoded(),
    {
        let mut graph: Vec<(u8, u8, char)> = Vec::new();
        let mut i: usize = 0;
        while i < self.graph.len()
            invariant
                i <= self.graph.len(),
                graph@.len() == i,
                forall|k: int| 0 <= k < i ==> #[trigger] graph@[k] == entry_of(self.graph@[k]@),
                forall|k: int| 0 <= k < i ==> (#[trigger] self.graph@[k])@.in_bounds(),
            decreases self.graph.len() - i,
        {
            let star = &self.graph[i];
            graph.push((star.x(), star.y(), star.glyph()));
            i += 1;
        }
        let record = Record {
            title: self.title.clone(),
            graph,
            name: self.name.clone(),
            quadrant: self.quadrant.clone(),
            right_ascension: self.right_ascension.clone(),
            declination: self.declination.clone(),
            area: self.area.clone(),
            main_stars: self.main_stars.clone(),
        };
        assert(record@.graph =~= self@.stars.map_values(|star: StarView| entry_of(star)));
        record
    }
}

/// What an attempt to read a record's file came to.
#[derive(Clone, Debug, PartialEq, Eq)]
pub enum ReadAttempt {
    /// The file is missing or could not be opened.
    Unreadable,
    /// The file was read, but its text is not a record.
    Unparsable,
    /// The file held this record.
    Parsed(Record),
}

/// The outcome of a lookup, mathematically: a missing file is reported as
/// not found, text that is no record as malformed, and a record is decoded.
pub open spec fn fetched(attempt: ReadAttempt) -> Result<ConstellationView, Error> {
    match attempt {
        ReadAttempt::Unreadable => Err(Error::NotFound),
        ReadAttempt::Unparsable => Err(Error::Malformed),
        ReadAttempt::Parsed(record) => record@.decoded(),
    }
}

/// Turns what reading a record's file came to into the constellation or the
/// failure to report.
pub fn fetch_constellation(attempt: ReadAttempt) -> (result: Result<Constellation, Error>)
    ensures
        match fetched(attempt) {
            Ok(view) => result is Ok && result->Ok_0@ == view,
            Err(error) => result == Err::<Constellation, Error>(error),
        },
{
    match attempt {
        ReadAttempt::Unreadable => Err(Error::NotFound),
        ReadAttempt::Unparsable => Err(Error::Malformed),
        ReadAttempt::Parsed(record) => Constellation::from_record(record),
    }
}

} // verus!
