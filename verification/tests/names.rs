use flexible_database::names::{matches_word, reserved, valid_identifier};

#[test]
fn letters_digits_and_underscores_make_an_identifier() {
    assert!(valid_identifier("a"));
    assert!(valid_identifier("person"));
    assert!(valid_identifier("_"));
    assert!(valid_identifier("_a1"));
    assert!(valid_identifier("A_Z09"));
    assert!(valid_identifier("azAZ09_"));
}

#[test]
fn the_empty_name_is_no_identifier() {
    assert!(!valid_identifier(""));
}

#[test]
fn a_leading_digit_makes_no_identifier() {
    assert!(!valid_identifier("1a"));
    assert!(!valid_identifier("0"));
    assert!(!valid_identifier("9_"));
}

#[test]
fn any_other_character_makes_no_identifier() {
    assert!(!valid_identifier("a b"));
    assert!(!valid_identifier("a-b"));
    assert!(!valid_identifier("a;"));
    assert!(!valid_identifier("a'"));
    assert!(!valid_identifier("\"a\""));
    assert!(!valid_identifier("a)"));
    assert!(!valid_identifier("a,b"));
    assert!(!valid_identifier("a=b"));
    assert!(!valid_identifier("a?"));
    assert!(!valid_identifier("caf\u{e9}"));
    assert!(!valid_identifier("\u{e9}"));
    assert!(!valid_identifier("a\n"));
    assert!(!valid_identifier("a\0"));
    assert!(!valid_identifier("`a`"));
    assert!(!valid_identifier("["));
    assert!(!valid_identifier("{"));
    assert!(!valid_identifier("@"));
    assert!(!valid_identifier("/"));
    assert!(!valid_identifier(":"));
}

#[test]
fn a_keyword_of_the_engine_is_reserved_in_any_case() {
    for word in ["select", "SELECT", "Select", "sElEcT", "table", "from", "where", "order", "group"] {
        assert!(reserved(word), "{}", word);
        assert!(!valid_identifier(word), "{}", word);
    }
    for word in ["abort", "CURRENT_TIMESTAMP", "current_date", "Without", "with", "pragma", "KEY"] {
        assert!(reserved(word), "{}", word);
        assert!(!valid_identifier(word), "{}", word);
    }
    for word in ["do", "if", "in", "is", "no", "of", "on", "or", "to", "as", "by"] {
        assert!(reserved(word), "{}", word);
    }
}

#[test]
fn the_first_and_the_last_keyword_of_each_letter_are_reserved() {
    let words = [
        "ABORT", "AUTOINCREMENT", "BEFORE", "BY", "CASCADE", "CURRENT_TIMESTAMP", "DATABASE",
        "DROP", "EACH", "EXPLAIN", "FAIL", "FULL", "GENERATED", "GROUPS", "HAVING", "IF", "ISNULL",
        "JOIN", "KEY", "LAST", "LIMIT", "MATCH", "MATERIALIZED", "NATURAL", "NULLS", "OF", "OVER",
        "PARTITION", "PRIMARY", "QUERY", "RAISE", "ROWS", "SAVEPOINT", "SET", "TABLE", "TRIGGER",
        "UNBOUNDED", "USING", "VACUUM", "VIRTUAL", "WHEN", "WITHOUT",
    ];
    for word in words {
        assert!(reserved(word), "{}", word);
        assert!(reserved(&word.to_lowercase()), "{}", word);
    }
}

#[test]
fn the_name_of_the_identity_column_is_reserved() {
    assert!(reserved("id"));
    assert!(reserved("ID"));
    assert!(reserved("Id"));
    assert!(reserved("iD"));
    assert!(!valid_identifier("id"));
    assert!(!reserved("ids"));
    assert!(!reserved("i"));
    assert!(!reserved("_id"));
    assert!(valid_identifier("person_id"));
}

#[test]
fn a_name_that_only_resembles_a_keyword_is_not_reserved() {
    for word in ["selects", "selec", "select_", "_select", "tables", "fro", "orders", "", "x"] {
        assert!(!reserved(word), "{}", word);
    }
    assert!(valid_identifier("selects"));
    assert!(valid_identifier("orders"));
    assert!(valid_identifier("name"));
    assert!(valid_identifier("age"));
    assert!(valid_identifier("active"));
    assert!(!reserved("s\u{e9}lect"));
    assert!(!reserved("select "));
}

#[test]
fn words_match_whatever_the_case_of_their_letters() {
    assert!(matches_word("", ""));
    assert!(matches_word("abc", "ABC"));
    assert!(matches_word("aBc", "AbC"));
    assert!(matches_word("a_1", "A_1"));
    assert!(!matches_word("abc", "abd"));
    assert!(!matches_word("abc", "ab"));
    assert!(!matches_word("ab", "abc"));
    assert!(!matches_word("a", "\u{e1}"));
    assert!(!matches_word("@", "`"));
    assert!(!matches_word("[", "{"));
    assert!(!matches_word("0", "P"));
    assert!(matches_word("\u{e9}", "\u{e9}"));
    assert!(!matches_word("\u{e9}", "\u{c9}"));
}
