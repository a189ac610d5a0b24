use gimoji::search_entry::SearchEntry;

#[test]
fn new_entry_is_empty() {
    let entry = SearchEntry::new();
    assert_eq!(entry.text(), "");
}

#[test]
fn push_appends_in_order() {
    let mut entry = SearchEntry::new();
    entry.push('a');
    assert_eq!(entry.text(), "a");
    entry.push('b');
    entry.push('c');
    assert_eq!(entry.text(), "abc");
}

#[test]
fn pop_removes_the_last_character() {
    let mut entry = SearchEntry::new();
    entry.push('a');
    entry.push('b');
    entry.pop();
    assert_eq!(entry.text(), "a");
    entry.pop();
    assert_eq!(entry.text(), "");
}

#[test]
fn pop_on_empty_entry_does_nothing() {
    let mut entry = SearchEntry::new();
    entry.pop();
    assert_eq!(entry.text(), "");
    entry.push('x');
    entry.pop();
    entry.pop();
    assert_eq!(entry.text(), "");
}

#[test]
fn pop_removes_a_whole_multi_byte_character() {
    let mut entry = SearchEntry::new();
    entry.push('a');
    entry.push('🐛');
    assert_eq!(entry.text(), "a🐛");
    entry.pop();
    assert_eq!(entry.text(), "a");
    entry.push('é');
    entry.push('z');
    entry.pop();
    assert_eq!(entry.text(), "aé");
}

#[test]
fn clear_empties_and_is_idempotent() {
    let mut entry = SearchEntry::new();
    entry.push('x');
    entry.push('y');
    entry.clear();
    assert_eq!(entry.text(), "");
    entry.clear();
    assert_eq!(entry.text(), "");
    entry.push('z');
    assert_eq!(entry.text(), "z");
}

#[test]
fn pattern_characters_are_accepted_as_text() {
    let mut entry = SearchEntry::new();
    for ch in "(.*[\\+?".chars() {
        entry.push(ch);
    }
    assert_eq!(entry.text(), "(.*[\\+?");
}
