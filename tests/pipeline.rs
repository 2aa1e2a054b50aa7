use scraping::extract::{extract, Field, Record, ScrapeError};
use scraping::html::parse_page;
use scraping::json::serialize;
use scraping::page::{find, Node, Page, Pred, Query};
use scraping::run::{links_of, Action, Config, Event, Phase, Run};
use scraping::text::{foo, item_lines};

fn detail_html(name: &str) -> String {
    format!(
        "<html><body><h1>{}</h1><table class=\"vitals-table\"><tr><th>No</th><td>0001</td></tr>\
         <tr><td><a class=\"type-icon type-grass\">Grass</a> <a class=\"type-icon\">Poison</a></td></tr>\
         <tr><td>Seed Pokémon</td></tr><tr><td>0.7 m</td></tr><tr><td>6.9 kg</td></tr></table></body></html>",
        name
    )
}

fn listing_html() -> String {
    "<html><body><a class=\"ent-name\" href=\"/pokedex/1\">One</a>\
     <p>x</p><a class=\"other ent-name\" href=\"/pokedex/2\">Two</a></body></html>"
        .to_string()
}

fn expected_line(name: &str) -> String {
    format!(
        "{{\"name\":\"{}\",\"types\":[\"Grass\",\"Poison\"],\"species\":\"Seed Pokémon\",\"height\":\"0.7 m\",\"weight\":\"6.9 kg\"}}",
        name
    )
}

fn node(name: Option<&str>, classes: &[&str], text: &str, parent: Option<usize>) -> Node {
    Node {
        name: name.map(|s| s.to_string()),
        classes: classes.iter().map(|s| s.to_string()).collect(),
        href: None,
        text: text.to_string(),
        parent,
    }
}

#[test]
fn extracts_detail_fields() {
    let page = parse_page(&detail_html("Bulbasaur"));
    let rec = extract(&page).unwrap();
    assert_eq!(rec.name, "Bulbasaur");
    assert_eq!(rec.types, vec!["Grass".to_string(), "Poison".to_string()]);
    assert_eq!(rec.species, "Seed Pokémon");
    assert_eq!(rec.height, "0.7 m");
    assert_eq!(rec.weight, "6.9 kg");
}

#[test]
fn missing_heading_is_missing_name() {
    let page = parse_page("<html><body><table class=\"vitals-table\"><tr><td>a</td></tr></table></body></html>");
    assert_eq!(extract(&page), Err(ScrapeError::MissingField(Field::Name)));
}

#[test]
fn short_vitals_table_names_the_unfilled_slot() {
    let cells = |n: usize| {
        let tds: String = (0..n).map(|i| format!("<tr><td>c{}</td></tr>", i)).collect();
        parse_page(&format!("<h1>N</h1><table class=\"vitals-table\">{}</table>", tds))
    };
    assert_eq!(extract(&cells(0)), Err(ScrapeError::MissingField(Field::Species)));
    assert_eq!(extract(&cells(2)), Err(ScrapeError::MissingField(Field::Species)));
    assert_eq!(extract(&cells(3)), Err(ScrapeError::MissingField(Field::Height)));
    assert_eq!(extract(&cells(4)), Err(ScrapeError::MissingField(Field::Weight)));
    let rec = extract(&cells(5)).unwrap();
    assert_eq!((rec.species.as_str(), rec.height.as_str(), rec.weight.as_str()), ("c2", "c3", "c4"));
}

#[test]
fn types_come_only_from_inside_the_vitals_table() {
    // 0 body, 1 h1, 2 badge outside, 3 table, 4 badge, 5 td, 6 badge, 7-11 tds
    let mut nodes = vec![
        node(Some("body"), &[], "", None),
        node(Some("h1"), &[], "N", Some(0)),
        node(Some("span"), &["type-icon"], "Outside", Some(0)),
        node(Some("table"), &["vitals-table"], "", Some(0)),
        node(Some("span"), &["x", "type-icon"], "Fire", Some(3)),
        node(Some("td"), &[], "", Some(3)),
        node(Some("span"), &["type-icon"], "Flying", Some(5)),
    ];
    for i in 0..5 {
        nodes.push(node(Some("td"), &[], &format!("t{}", i), Some(3)));
    }
    let page = Page { nodes };
    let rec = extract(&page).unwrap();
    assert_eq!(rec.types, vec!["Fire".to_string(), "Flying".to_string()]);
    assert_eq!(rec.species, "t1");
}

#[test]
fn find_walks_in_document_order_and_restarts() {
    let page = parse_page(&listing_html());
    let q = Query::Is(Pred::Class("ent-name".to_string()));
    let a = find(&page, &q);
    let b = find(&page, &q);
    assert_eq!(a.len(), 2);
    assert_eq!(a, b);
    assert!(a[0] < a[1]);
    assert!(find(&page, &Query::Is(Pred::Name("h2".to_string()))).is_empty());
}

#[test]
fn listing_links_in_order() {
    let page = parse_page(&listing_html());
    assert_eq!(links_of(&page), Some(vec!["/pokedex/1".to_string(), "/pokedex/2".to_string()]));
    let bare = parse_page("<a class=\"ent-name\">x</a>");
    assert_eq!(links_of(&bare), None);
}

#[test]
fn serializes_in_field_order() {
    let rec = extract(&parse_page(&detail_html("Bulbasaur"))).unwrap();
    assert_eq!(serialize(&rec).unwrap(), expected_line("Bulbasaur"));
}

#[test]
fn serialization_escapes_and_round_trips() {
    let rec = Record {
        name: "a\"b\\c\nd\u{1}".to_string(),
        types: vec![],
        species: "tab\there".to_string(),
        height: "\u{8}\u{c}\r".to_string(),
        weight: "ü/€".to_string(),
    };
    let line = serialize(&rec).unwrap();
    assert_eq!(
        line,
        "{\"name\":\"a\\\"b\\\\c\\nd\\u0001\",\"types\":[],\"species\":\"tab\\there\",\"height\":\"\\b\\f\\r\",\"weight\":\"ü/€\"}"
    );
    let v: serde_json::Value = serde_json::from_str(&line).unwrap();
    assert_eq!(v["name"].as_str(), Some(rec.name.as_str()));
    assert_eq!(v["types"].as_array().map(|a| a.len()), Some(0));
    assert_eq!(v["species"].as_str(), Some(rec.species.as_str()));
    assert_eq!(v["height"].as_str(), Some(rec.height.as_str()));
    assert_eq!(v["weight"].as_str(), Some(rec.weight.as_str()));
}

/// Drives a run over fixed pages, returning the emitted lines, the pauses
/// between fetches and the final action.
fn drive(pages: &[(&str, String)]) -> (Vec<String>, Vec<String>, Action) {
    let cfg = Config::standard();
    let (mut run, mut action) = Run::start(&cfg);
    let mut lines = Vec::new();
    let mut log = Vec::new();
    loop {
        let event = match action {
            Action::Fetch(url) => {
                log.push(format!("fetch {}", url));
                match pages.iter().find(|(u, _)| *u == url) {
                    Some((_, body)) => Event::Fetched(parse_page(body)),
                    None => Event::Failed(ScrapeError::Transport),
                }
            }
            Action::Emit(line) => {
                lines.push(line);
                Event::Done
            }
            Action::Pace(secs) => {
                log.push(format!("pace {}", secs));
                Event::Done
            }
            other => return (lines, log, other),
        };
        action = run.step(&cfg, event);
    }
}

#[test]
fn run_emits_one_record_per_link_in_order() {
    let pages = [
        ("https://pokemondb.net/pokedex/national", listing_html()),
        ("https://pokemondb.net/pokedex/1", detail_html("NameA")),
        ("https://pokemondb.net/pokedex/2", detail_html("NameB")),
    ];
    let (lines, log, last) = drive(&pages);
    assert_eq!(lines, vec![expected_line("NameA"), expected_line("NameB")]);
    assert_eq!(last, Action::Finish);
    assert_eq!(
        log,
        vec![
            "fetch https://pokemondb.net/pokedex/national",
            "fetch https://pokemondb.net/pokedex/1",
            "pace 1",
            "fetch https://pokemondb.net/pokedex/2",
            "pace 1",
        ]
    );
}

#[test]
fn run_aborts_on_missing_heading() {
    let pages = [
        ("https://pokemondb.net/pokedex/national", listing_html()),
        ("https://pokemondb.net/pokedex/1", "<p>no heading</p>".to_string()),
        ("https://pokemondb.net/pokedex/2", detail_html("NameB")),
    ];
    let (lines, log, last) = drive(&pages);
    assert!(lines.is_empty());
    assert_eq!(last, Action::Fail(ScrapeError::MissingField(Field::Name)));
    assert_eq!(log.len(), 2);
}

#[test]
fn run_aborts_on_transport_failure_after_a_prefix() {
    let pages = [
        ("https://pokemondb.net/pokedex/national", listing_html()),
        ("https://pokemondb.net/pokedex/1", detail_html("NameA")),
    ];
    let (lines, _, last) = drive(&pages);
    assert_eq!(lines, vec![expected_line("NameA")]);
    assert_eq!(last, Action::Fail(ScrapeError::Transport));
}

#[test]
fn run_with_empty_listing_finishes_at_once() {
    let pages = [("https://pokemondb.net/pokedex/national", "<p>none</p>".to_string())];
    let (lines, log, last) = drive(&pages);
    assert!(lines.is_empty());
    assert_eq!(last, Action::Finish);
    assert_eq!(log.len(), 1);
}

#[test]
fn run_fails_on_entry_without_link() {
    let pages = [("https://pokemondb.net/pokedex/national", "<a class=\"ent-name\">x</a>".to_string())];
    let (_, _, last) = drive(&pages);
    assert_eq!(last, Action::Fail(ScrapeError::MissingLink));
}

#[test]
fn out_of_phase_event_is_ignored() {
    let cfg = Config::standard();
    let (mut run, _) = Run::start(&cfg);
    assert_eq!(run.step(&cfg, Event::Done), Action::Idle);
    assert_eq!(run.phase, Phase::Listing);
}

#[test]
fn foo_renders_the_pair() {
    assert_eq!(foo(), vec!["(true, false)".to_string()]);
    assert_eq!(item_lines(&[false, true]), vec!["false".to_string(), "true".to_string()]);
}

#[test]
fn absolute_links_are_fetched_as_they_are() {
    let pages = [
        (
            "https://pokemondb.net/pokedex/national",
            "<a class=\"ent-name\" href=\"https://example.org/p/1\">x</a>".to_string(),
        ),
        ("https://example.org/p/1", detail_html("NameA")),
    ];
    let (lines, log, last) = drive(&pages);
    assert_eq!(lines, vec![expected_line("NameA")]);
    assert_eq!(last, Action::Finish);
    assert_eq!(log[1], "fetch https://example.org/p/1");
}

#[test]
fn prefix_test_compares_characters() {
    assert!(scraping::run::starts_with("https://a", "https://"));
    assert!(!scraping::run::starts_with("/pokedex/1", "http://"));
    assert!(!scraping::run::starts_with("http", "http://"));
    assert!(scraping::run::starts_with("ü", ""));
}
