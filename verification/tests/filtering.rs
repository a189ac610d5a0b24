use gimoji::emoji::Emoji;
use gimoji::filter::{filter, select_matching};
use gimoji::pattern::{compile, QueryError};

fn sample() -> Vec<Emoji> {
    vec![
        Emoji {
            code: ":art:",
            description: "Improve structure / format of the code.",
            emoji: "🎨",
            entity: "&#x1f3a8;",
            name: "art",
        },
        Emoji {
            code: ":zap:",
            description: "Improve performance.",
            emoji: "⚡️",
            entity: "&#x26a1;",
            name: "zap",
        },
        Emoji {
            code: ":fire:",
            description: "Remove code or files.",
            emoji: "🔥",
            entity: "&#x1f525;",
            name: "fire",
        },
        Emoji {
            code: ":bug:",
            description: "Fix a bug.",
            emoji: "🐛",
            entity: "&#x1f41b;",
            name: "bug",
        },
    ]
}

fn codes(rows: &[&Emoji]) -> Vec<&'static str> {
    rows.iter().map(|row| row.code).collect()
}

fn only(field: usize, text: &'static str) -> Emoji {
    let mut fields = ["-"; 5];
    fields[field] = text;
    Emoji {
        code: fields[0],
        description: fields[1],
        emoji: fields[2],
        entity: fields[3],
        name: fields[4],
    }
}

#[test]
fn empty_query_returns_whole_catalog_in_order() {
    let catalog = sample();
    let rows = filter(&catalog, "").unwrap();
    assert_eq!(codes(&rows), vec![":art:", ":zap:", ":fire:", ":bug:"]);
}

#[test]
fn query_keeps_matching_rows_in_catalog_order() {
    let catalog = sample();
    let rows = filter(&catalog, "improve").unwrap();
    assert_eq!(codes(&rows), vec![":art:", ":zap:"]);
    let rows = filter(&catalog, "code").unwrap();
    assert_eq!(codes(&rows), vec![":art:", ":fire:"]);
}

#[test]
fn rows_point_into_the_catalog() {
    let catalog = sample();
    let rows = filter(&catalog, "fire").unwrap();
    assert_eq!(rows.len(), 1);
    assert!(std::ptr::eq(rows[0], &catalog[2]));
}

#[test]
fn matching_ignores_case() {
    let catalog = sample();
    assert_eq!(codes(&filter(&catalog, "BUG").unwrap()), vec![":bug:"]);
    assert_eq!(codes(&filter(&catalog, "iMpRoVe").unwrap()), vec![":art:", ":zap:"]);
    assert_eq!(codes(&filter(&catalog, "1F525").unwrap()), vec![":fire:"]);
}

#[test]
fn query_is_a_regular_expression() {
    let catalog = sample();
    assert_eq!(codes(&filter(&catalog, "^:z").unwrap()), vec![":zap:"]);
    assert_eq!(codes(&filter(&catalog, "b.g").unwrap()), vec![":bug:"]);
    assert_eq!(codes(&filter(&catalog, "art|fire").unwrap()), vec![":art:", ":fire:"]);
    assert_eq!(codes(&filter(&catalog, "files\\.$").unwrap()), vec![":fire:"]);
}

#[test]
fn query_can_match_the_emoji_itself() {
    let catalog = sample();
    assert_eq!(codes(&filter(&catalog, "🔥").unwrap()), vec![":fire:"]);
}

#[test]
fn query_without_match_returns_no_rows() {
    let catalog = sample();
    assert!(filter(&catalog, "zzzzz").unwrap().is_empty());
}

#[test]
fn filter_of_empty_catalog_is_empty() {
    let catalog: Vec<Emoji> = Vec::new();
    assert!(filter(&catalog, "").unwrap().is_empty());
    assert!(filter(&catalog, "a").unwrap().is_empty());
}

#[test]
fn malformed_query_is_an_error() {
    let catalog = sample();
    for query in ["(", ")", "[", "a{2", "*", "+", "?", "\\", "(?P<n", "[z-a]"] {
        assert_eq!(filter(&catalog, query).err(), Some(QueryError::InvalidPattern), "{query}");
        assert_eq!(compile(query).err(), Some(QueryError::InvalidPattern), "{query}");
    }
}

#[test]
fn oversized_query_is_an_error() {
    let catalog = sample();
    assert_eq!(filter(&catalog, "\\w{1000}").err(), Some(QueryError::InvalidPattern));
}

#[test]
fn filtering_twice_gives_the_same_rows() {
    let catalog = sample();
    for query in ["", "o", "improve", "zzzzz"] {
        let first = filter(&catalog, query).unwrap();
        let second = filter(&catalog, query).unwrap();
        assert_eq!(codes(&first), codes(&second));
    }
    assert_eq!(filter(&catalog, "(").err(), filter(&catalog, "(").err());
}

#[test]
fn filtered_rows_are_a_subsequence_of_the_catalog() {
    let catalog = sample();
    let all = codes(&filter(&catalog, "").unwrap());
    for query in ["e", "i", "r", "a|u", "x1f", "^:"] {
        let rows = codes(&filter(&catalog, query).unwrap());
        let mut next = 0;
        for code in rows {
            let found = all[next..].iter().position(|c| *c == code);
            assert!(found.is_some(), "{query}: {code} out of order");
            next += found.unwrap() + 1;
        }
    }
}

#[test]
fn select_matching_keeps_exactly_the_matching_rows() {
    let catalog = sample();
    let pattern = compile("re").unwrap();
    let rows = select_matching(&catalog, &pattern);
    // "structure", "Improve ... performance" has no "re"; "fire" and "Remove".
    assert_eq!(codes(&rows), vec![":art:", ":fire:"]);
    for record in catalog.iter() {
        let shown = rows.iter().any(|row| std::ptr::eq(*row, record));
        assert_eq!(shown, record.contains(&pattern));
    }
}

#[test]
fn contains_matches_any_one_field() {
    let pattern = compile("needle").unwrap();
    for field in 0..5 {
        assert!(only(field, "a needle here").contains(&pattern), "field {field}");
    }
    let none = Emoji { code: "a", description: "b", emoji: "c", entity: "d", name: "e" };
    assert!(!none.contains(&pattern));
}

#[test]
fn contains_does_not_join_fields() {
    let pattern = compile("ab").unwrap();
    let split = Emoji { code: "a", description: "b", emoji: "a", entity: "b", name: "-" };
    assert!(!split.contains(&pattern));
}

#[test]
fn contains_works_with_a_pattern_built_elsewhere() {
    let sensitive = regex::Regex::new("BUG").unwrap();
    let catalog = sample();
    assert!(!catalog[3].contains(&sensitive));
    let insensitive = compile("BUG").unwrap();
    assert!(catalog[3].contains(&insensitive));
}

#[test]
fn empty_pattern_matches_every_record() {
    let pattern = compile("").unwrap();
    for record in sample().iter() {
        assert!(record.contains(&pattern));
    }
    let blank = Emoji { code: "", description: "", emoji: "", entity: "", name: "" };
    assert!(blank.contains(&pattern));
}
