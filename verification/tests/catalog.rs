use std::path::Path;

use starfetch::catalog::{
    drawn_name, pick_random, record_file_name, record_name, record_names, summary_line,
    DirectoryEntry,
};
use starfetch::error::Error;
use starfetch::record::{Constellation, Record};
use starfetch::style::{emphasize, Emphasis};

fn entry(file_name: &str, is_file: bool) -> DirectoryEntry {
    DirectoryEntry { file_name: String::from(file_name), is_file }
}

#[test]
fn file_name_appends_the_suffix() {
    assert_eq!(record_file_name("orion"), "orion.json");
    assert_eq!(record_file_name(""), ".json");
    assert_eq!(record_file_name("ursa major"), "ursa major.json");
}

#[test]
fn record_name_strips_the_suffix() {
    assert_eq!(record_name("orion.json"), Some(String::from("orion")));
    assert_eq!(record_name("a.b.json"), Some(String::from("a.b")));
    assert_eq!(record_name("..json"), Some(String::from(".")));
    assert_eq!(record_name("étoile✦.json"), Some(String::from("étoile✦")));
    assert_eq!(record_name(".json"), None);
    assert_eq!(record_name("json"), None);
    assert_eq!(record_name("orion.JSON"), None);
    assert_eq!(record_name("orion.json.bak"), None);
    assert_eq!(record_name("orion"), None);
    assert_eq!(record_name(""), None);
    assert_eq!(record_name("orionjson"), None);
}

#[test]
fn record_name_inverts_file_name() {
    for name in ["orion", "a", "ursa.major", "✦"] {
        assert_eq!(record_name(&record_file_name(name)), Some(String::from(name)));
    }
}

#[test]
fn record_name_agrees_with_path_extension_and_stem() {
    let names = [
        "orion.json", ".json", "a.b.json", "..json", "orion", "orion.txt", "x.json.", "json",
        "..", "a.jsonx", "é.json", " .json", "orion.Json",
    ];
    for file_name in names {
        let path = Path::new(file_name);
        let by_path = if path.extension().and_then(|e| e.to_str()) == Some("json") {
            path.file_stem().and_then(|s| s.to_str()).map(String::from)
        } else {
            None
        };
        assert_eq!(record_name(file_name), by_path);
    }
}

#[test]
fn listing_keeps_records_in_order_and_skips_the_rest() {
    let entries = vec![
        entry("zeta.json", true),
        entry("notes.txt", true),
        entry("alpha.json", true),
        entry("folder.json", false),
        entry(".json", true),
        entry("sub", false),
        entry("beta.json", true),
    ];
    assert_eq!(record_names(&entries), vec!["zeta", "alpha", "beta"]);
    assert_eq!(record_names(&Vec::new()), Vec::<String>::new());
    assert_eq!(record_names(&vec![entry("a.txt", true), entry("b.json", false)]), Vec::<String>::new());
}

#[test]
fn random_pick_is_one_of_the_names() {
    let names = vec![String::from("a"), String::from("b"), String::from("c")];
    let mut seen = [false; 3];
    for _ in 0..300 {
        let picked = pick_random(&names).unwrap();
        let at = names.iter().position(|n| *n == picked).unwrap();
        seen[at] = true;
    }
    assert!(seen.iter().all(|s| *s));
    assert_eq!(pick_random(&vec![String::from("only")]), Ok(String::from("only")));
}

#[test]
fn random_pick_of_nothing_fails() {
    assert_eq!(pick_random(&Vec::new()), Err(Error::EmptyCollection));
}

#[test]
fn drawn_name_maps_both_outcomes() {
    assert_eq!(drawn_name(Some(String::from("lyra"))), Ok(String::from("lyra")));
    assert_eq!(drawn_name(None), Err(Error::EmptyCollection));
}

#[test]
fn summary_line_formats_key_name_and_quadrant() {
    let c = Constellation::from_record(Record {
        title: String::new(),
        graph: Vec::new(),
        name: String::from("Orion"),
        quadrant: String::from("NQ1"),
        right_ascension: String::new(),
        declination: String::new(),
        area: String::new(),
        main_stars: String::new(),
    })
    .unwrap();
    assert_eq!(summary_line("orion", &c, Emphasis::Plain), "orion - Orion (NQ1)");
    assert_eq!(
        summary_line("orion", &c, Emphasis::Ansi),
        "\u{1b}[1;37morion\u{1b}[0m - Orion (NQ1)"
    );
}

#[test]
fn emphasize_plain_and_ansi() {
    assert_eq!(emphasize("text", Emphasis::Plain), "text");
    assert_eq!(emphasize("text", Emphasis::Ansi), "\u{1b}[1;37mtext\u{1b}[0m");
    assert_eq!(emphasize("", Emphasis::Ansi), "\u{1b}[1;37m\u{1b}[0m");
    assert_eq!(emphasize("", Emphasis::Plain), "");
}
