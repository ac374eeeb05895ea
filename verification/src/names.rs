//! The grammar of the names that may be written into statement text.

use vstd::prelude::*;

verus! {

/// Whether `c` is an ASCII decimal digit.
pub open spec fn is_digit(c: char) -> bool {
    '0' <= c && c <= '9'
}

/// Whether `c` may stand in a name: an ASCII letter, an ASCII digit or an
/// underscore.
pub open spec fn is_name_char(c: char) -> bool {
    ('a' <= c && c <= 'z') || ('A' <= c && c <= 'Z') || is_digit(c) || c == '_'
}

/// The code of `c`, with a small ASCII letter taken as its capital.
pub open spec fn upper_code(c: char) -> int {
    if 'a' <= c && c <= 'z' {
        c as int - 32
    } else {
        c as int
    }
}

/// Whether two words are the same but for the case of their ASCII letters.
pub open spec fn same_word(a: Seq<char>, b: Seq<char>) -> bool {
    &&& a.len() == b.len()
    &&& forall|i: int| 0 <= i < a.len() ==> upper_code(#[trigger] a[i]) == upper_code(b[i])
}

/// Whether `s` is, in any case of letters, a keyword of the storage engine
/// that begins with A to C.
pub open spec fn is_keyword_a_to_c(s: Seq<char>) -> bool {
    ||| same_word(s, "ABORT"@)
    ||| same_word(s, "ACTION"@)
    ||| same_word(s, "ADD"@)
    ||| same_word(s, "AFTER"@)
    ||| same_word(s, "ALL"@)
    ||| same_word(s, "ALTER"@)
    ||| same_word(s, "ALWAYS"@)
    ||| same_word(s, "ANALYZE"@)
    ||| same_word(s, "AND"@)
    ||| same_word(s, "AS"@)
    ||| same_word(s, "ASC"@)
    ||| same_word(s, "ATTACH"@)
    ||| same_word(s, "AUTOINCREMENT"@)
    ||| same_word(s, "BEFORE"@)
    ||| same_word(s, "BEGIN"@)
    ||| same_word(s, "BETWEEN"@)
    ||| same_word(s, "BY"@)
    ||| same_word(s, "CASCADE"@)
    ||| same_word(s, "CASE"@)
    ||| same_word(s, "CAST"@)
    ||| same_word(s, "CHECK"@)
    ||| same_word(s, "COLLATE"@)
    ||| same_word(s, "COLUMN"@)
    ||| same_word(s, "COMMIT"@)
    ||| same_word(s, "CONFLICT"@)
    ||| same_word(s, "CONSTRAINT"@)
    ||| same_word(s, "CREATE"@)
    ||| same_word(s, "CROSS"@)
    ||| same_word(s, "CURRENT"@)
    ||| same_word(s, "CURRENT_DATE"@)
    ||| same_word(s, "CURRENT_TIME"@)
    ||| same_word(s, "CURRENT_TIMESTAMP"@)
}

/// Whether `s` is, in any case of letters, a keyword of the storage engine
/// that begins with D to F.
pub open spec fn is_keyword_d_to_f(s: Seq<char>) -> bool {
    ||| same_word(s, "DATABASE"@)
    ||| same_word(s, "DEFAULT"@)
    ||| same_word(s, "DEFERRABLE"@)
    ||| same_word(s, "DEFERRED"@)
    ||| same_word(s, "DELETE"@)
    ||| same_word(s, "DESC"@)
    ||| same_word(s, "DETACH"@)
    ||| same_word(s, "DISTINCT"@)
    ||| same_word(s, "DO"@)
    ||| same_word(s, "DROP"@)
    ||| same_word(s, "EACH"@)
    ||| same_word(s, "ELSE"@)
    ||| same_word(s, "END"@)
    ||| same_word(s, "ESCAPE"@)
    ||| same_word(s, "EXCEPT"@)
    ||| same_word(s, "EXCLUDE"@)
    ||| same_word(s, "EXCLUSIVE"@)
    ||| same_word(s, "EXISTS"@)
    ||| same_word(s, "EXPLAIN"@)
    ||| same_word(s, "FAIL"@)
    ||| same_word(s, "FILTER"@)
    ||| same_word(s, "FIRST"@)
    ||| same_word(s, "FOLLOWING"@)
    ||| same_word(s, "FOR"@)
    ||| same_word(s, "FOREIGN"@)
    ||| same_word(s, "FROM"@)
    ||| same_word(s, "FULL"@)
}

/// Whether `s` is, in any case of letters, a keyword of the storage engine
/// that begins with G to L.
pub open spec fn is_keyword_g_to_l(s: Seq<char>) -> bool {
    ||| same_word(s, "GENERATED"@)
    ||| same_word(s, "GLOB"@)
    ||| same_word(s, "GROUP"@)
    ||| same_word(s, "GROUPS"@)
    ||| same_word(s, "HAVING"@)
    ||| same_word(s, "IF"@)
    ||| same_word(s, "IGNORE"@)
    ||| same_word(s, "IMMEDIATE"@)
    ||| same_word(s, "IN"@)
    ||| same_word(s, "INDEX"@)
    ||| same_word(s, "INDEXED"@)
    ||| same_word(s, "INITIALLY"@)
    ||| same_word(s, "INNER"@)
    ||| same_word(s, "INSERT"@)
    ||| same_word(s, "INSTEAD"@)
    ||| same_word(s, "INTERSECT"@)
    ||| same_word(s, "INTO"@)
    ||| same_word(s, "IS"@)
    ||| same_word(s, "ISNULL"@)
    ||| same_word(s, "JOIN"@)
    ||| same_word(s, "KEY"@)
    ||| same_word(s, "LAST"@)
    ||| same_word(s, "LEFT"@)
    ||| same_word(s, "LIKE"@)
    ||| same_word(s, "LIMIT"@)
}

/// Whether `s` is, in any case of letters, a keyword of the storage engine
/// that begins with M to Q.
pub open spec fn is_keyword_m_to_q(s: Seq<char>) -> bool {
    ||| same_word(s, "MATCH"@)
    ||| same_word(s, "MATERIALIZED"@)
    ||| same_word(s, "NATURAL"@)
    ||| same_word(s, "NO"@)
    ||| same_word(s, "NOT"@)
    ||| same_word(s, "NOTHING"@)
    ||| same_word(s, "NOTNULL"@)
    ||| same_word(s, "NULL"@)
    ||| same_word(s, "NULLS"@)
    ||| same_word(s, "OF"@)
    ||| same_word(s, "OFFSET"@)
    ||| same_word(s, "ON"@)
    ||| same_word(s, "OR"@)
    ||| same_word(s, "ORDER"@)
    ||| same_word(s, "OTHERS"@)
    ||| same_word(s, "OUTER"@)
    ||| same_word(s, "OVER"@)
    ||| same_word(s, "PARTITION"@)
    ||| same_word(s, "PLAN"@)
    ||| same_word(s, "PRAGMA"@)
    ||| same_word(s, "PRECEDING"@)
    ||| same_word(s, "PRIMARY"@)
    ||| same_word(s, "QUERY"@)
}

/// Whether `s` is, in any case of letters, a keyword of the storage engine
/// that begins with R and S.
pub open spec fn is_keyword_r_to_s(s: Seq<char>) -> bool {
    ||| same_word(s, "RAISE"@)
    ||| same_word(s, "RANGE"@)
    ||| same_word(s, "RECURSIVE"@)
    ||| same_word(s, "REFERENCES"@)
    ||| same_word(s, "REGEXP"@)
    ||| same_word(s, "REINDEX"@)
    ||| same_word(s, "RELEASE"@)
    ||| same_word(s, "RENAME"@)
    ||| same_word(s, "REPLACE"@)
    ||| same_word(s, "RESTRICT"@)
    ||| same_word(s, "RETURNING"@)
    ||| same_word(s, "RIGHT"@)
    ||| same_word(s, "ROLLBACK"@)
    ||| same_word(s, "ROW"@)
    ||| same_word(s, "ROWS"@)
    ||| same_word(s, "SAVEPOINT"@)
    ||| same_word(s, "SELECT"@)
    ||| same_word(s, "SET"@)
}

/// Whether `s` is, in any case of letters, a keyword of the storage engine
/// that begins with T to W.
pub open spec fn is_keyword_t_to_w(s: Seq<char>) -> bool {
    ||| same_word(s, "TABLE"@)
    ||| same_word(s, "TEMP"@)
    ||| same_word(s, "TEMPORARY"@)
    ||| same_word(s, "THEN"@)
    ||| same_word(s, "TIES"@)
    ||| same_word(s, "TO"@)
    ||| same_word(s, "TRANSACTION"@)
    ||| same_word(s, "TRIGGER"@)
    ||| same_word(s, "UNBOUNDED"@)
    ||| same_word(s, "UNION"@)
    ||| same_word(s, "UNIQUE"@)
    ||| same_word(s, "UPDATE"@)
    ||| same_word(s, "USING"@)
    ||| same_word(s, "VACUUM"@)
    ||| same_word(s, "VALUES"@)
    ||| same_word(s, "VIEW"@)
    ||| same_word(s, "VIRTUAL"@)
    ||| same_word(s, "WHEN"@)
    ||| same_word(s, "WHERE"@)
    ||| same_word(s, "WINDOW"@)
    ||| same_word(s, "WITH"@)
    ||| same_word(s, "WITHOUT"@)
}

/// Whether `s` is reserved, in any case of letters: a keyword of the storage
/// engine, or `id`, the name of the identity column of every table.
#[verifier::opaque]
pub open spec fn is_reserved(s: Seq<char>) -> bool {
    ||| is_keyword_a_to_c(s)
    ||| is_keyword_d_to_f(s)
    ||| is_keyword_g_to_l(s)
    ||| is_keyword_m_to_q(s)
    ||| is_keyword_r_to_s(s)
    ||| is_keyword_t_to_w(s)
    ||| same_word(s, "ID"@)
}

/// The names that are written into statement text as they are: not empty,
/// made of name characters only, not starting with a digit, and not
/// reserved.
pub open spec fn is_identifier(s: Seq<char>) -> bool {
    &&& s.len() > 0
    &&& !is_digit(s[0])
    &&& forall|i: int| 0 <= i < s.len() ==> is_name_char(#[trigger] s[i])
    &&& !is_reserved(s)
}

fn name_char(c: char) -> (ok: bool)
    ensures
        ok == is_name_char(c),
{
    (c >= 'a' && c <= 'z') || (c >= 'A' && c <= 'Z') || (c >= '0' && c <= '9') || c == '_'
}

fn upper(c: char) -> (code: u32)
    ensures
        code == upper_code(c),
{
    let code: u32 = c as u32;
    if c >= 'a' && c <= 'z' {
        code - 32
    } else {
        code
    }
}

/// Decides whether two words are the same but for the case of their ASCII
/// letters.
pub fn matches_word(name: &str, word: &str) -> (same: bool)
    ensures
        same == same_word(name@, word@),
{
    let n: usize = name.unicode_len();
    if n != word.unicode_len() {
        return false;
    }
    let mut i: usize = 0;
    while i < n
        invariant
            n == name@.len(),
            n == word@.len(),
            i <= n,
            forall|j: int| 0 <= j < i ==> upper_code(#[trigger] name@[j]) == upper_code(word@[j]),
        decreases n - i,
    {
        if upper(name.get_char(i)) != upper(word.get_char(i)) {
            return false;
        }
        i = i + 1;
    }
    true
}

fn keyword_a_to_c(name: &str) -> (found: bool)
    ensures
        found == is_keyword_a_to_c(name@),
{
    matches_word(name, "ABORT")
    || matches_word(name, "ACTION")
    || matches_word(name, "ADD")
    || matches_word(name, "AFTER")
    || matches_word(name, "ALL")
    || matches_word(name, "ALTER")
    || matches_word(name, "ALWAYS")
    || matches_word(name, "ANALYZE")
    || matches_word(name, "AND")
    || matches_word(name, "AS")
    || matches_word(name, "ASC")
    || matches_word(name, "ATTACH")
    || matches_word(name, "AUTOINCREMENT")
    || matches_word(name, "BEFORE")
    || matches_word(name, "BEGIN")
    || matches_word(name, "BETWEEN")
    || matches_word(name, "BY")
    || matches_word(name, "CASCADE")
    || matches_word(name, "CASE")
    || matches_word(name, "CAST")
    || matches_word(name, "CHECK")
    || matches_word(name, "COLLATE")
    || matches_word(name, "COLUMN")
    || matches_word(name, "COMMIT")
    || matches_word(name, "CONFLICT")
    || matches_word(name, "CONSTRAINT")
    || matches_word(name, "CREATE")
    || matches_word(name, "CROSS")
    || matches_word(name, "CURRENT")
    || matches_word(name, "CURRENT_DATE")
    || matches_word(name, "CURRENT_TIME")
    || matches_word(name, "CURRENT_TIMESTAMP")
}

fn keyword_d_to_f(name: &str) -> (found: bool)
    ensures
        found == is_keyword_d_to_f(name@),
{
    matches_word(name, "DATABASE")
    || matches_word(name, "DEFAULT")
    || matches_word(name, "DEFERRABLE")
    || matches_word(name, "DEFERRED")
    || matches_word(name, "DELETE")
    || matches_word(name, "DESC")
    || matches_word(name, "DETACH")
    || matches_word(name, "DISTINCT")
    || matches_word(name, "DO")
    || matches_word(name, "DROP")
    || matches_word(name, "EACH")
    || matches_word(name, "ELSE")
    || matches_word(name, "END")
    || matches_word(name, "ESCAPE")
    || matches_word(name, "EXCEPT")
    || matches_word(name, "EXCLUDE")
    || matches_word(name, "EXCLUSIVE")
    || matches_word(name, "EXISTS")
    || matches_word(name, "EXPLAIN")
    || matches_word(name, "FAIL")
    || matches_word(name, "FILTER")
    || matches_word(name, "FIRST")
    || matches_word(name, "FOLLOWING")
    || matches_word(name, "FOR")
    || matches_word(name, "FOREIGN")
    || matches_word(name, "FROM")
    || matches_word(name, "FULL")
}

fn keyword_g_to_l(name: &str) -> (found: bool)
    ensures
        found == is_keyword_g_to_l(name@),
{
    matches_word(name, "GENERATED")
    || matches_word(name, "GLOB")
    || matches_word(name, "GROUP")
    || matches_word(name, "GROUPS")
    || matches_word(name, "HAVING")
    || matches_word(name, "IF")
    || matches_word(name, "IGNORE")
    || matches_word(name, "IMMEDIATE")
    || matches_word(name, "IN")
    || matches_word(name, "INDEX")
    || matches_word(name, "INDEXED")
    || matches_word(name, "INITIALLY")
    || matches_word(name, "INNER")
    || matches_word(name, "INSERT")
    || matches_word(name, "INSTEAD")
    || matches_word(name, "INTERSECT")
    || matches_word(name, "INTO")
    || matches_word(name, "IS")
    || matches_word(name, "ISNULL")
    || matches_word(name, "JOIN")
    || matches_word(name, "KEY")
    || matches_word(name, "LAST")
    || matches_word(name, "LEFT")
    || matches_word(name, "LIKE")
    || matches_word(name, "LIMIT")
}

fn keyword_m_to_q(name: &str) -> (found: bool)
    ensures
        found == is_keyword_m_to_q(name@),
{
    matches_word(name, "MATCH")
    || matches_word(name, "MATERIALIZED")
    || matches_word(name, "NATURAL")
    || matches_word(name, "NO")
    || matches_word(name, "NOT")
    || matches_word(name, "NOTHING")
    || matches_word(name, "NOTNULL")
    || matches_word(name, "NULL")
    || matches_word(name, "NULLS")
    || matches_word(name, "OF")
    || matches_word(name, "OFFSET")
    || matches_word(name, "ON")
    || matches_word(name, "OR")
    || matches_word(name, "ORDER")
    || matches_word(name, "OTHERS")
    || matches_word(name, "OUTER")
    || matches_word(name, "OVER")
    || matches_word(name, "PARTITION")
    || matches_word(name, "PLAN")
    || matches_word(name, "PRAGMA")
    || matches_word(name, "PRECEDING")
    || matches_word(name, "PRIMARY")
    || matches_word(name, "QUERY")
}

fn keyword_r_to_s(name: &str) -> (found: bool)
    ensures
        found == is_keyword_r_to_s(name@),
{
    matches_word(name, "RAISE")
    || matches_word(name, "RANGE")
    || matches_word(name, "RECURSIVE")
    || matches_word(name, "REFERENCES")
    || matches_word(name, "REGEXP")
    || matches_word(name, "REINDEX")
    || matches_word(name, "RELEASE")
    || matches_word(name, "RENAME")
    || matches_word(name, "REPLACE")
    || matches_word(name, "RESTRICT")
    || matches_word(name, "RETURNING")
    || matches_word(name, "RIGHT")
    || matches_word(name, "ROLLBACK")
    || matches_word(name, "ROW")
    || matches_word(name, "ROWS")
    || matches_word(name, "SAVEPOINT")
    || matches_word(name, "SELECT")
    || matches_word(name, "SET")
}

fn keyword_t_to_w(name: &str) -> (found: bool)
    ensures
        found == is_keyword_t_to_w(name@),
{
    matches_word(name, "TABLE")
    || matches_word(name, "TEMP")
    || matches_word(name, "TEMPORARY")
    || matches_word(name, "THEN")
    || matches_word(name, "TIES")
    || matches_word(name, "TO")
    || matches_word(name, "TRANSACTION")
    || matches_word(name, "TRIGGER")
    || matches_word(name, "UNBOUNDED")
    || matches_word(name, "UNION")
    || matches_word(name, "UNIQUE")
    || matches_word(name, "UPDATE")
    || matches_word(name, "USING")
    || matches_word(name, "VACUUM")
    || matches_word(name, "VALUES")
    || matches_word(name, "VIEW")
    || matches_word(name, "VIRTUAL")
    || matches_word(name, "WHEN")
    || matches_word(name, "WHERE")
    || matches_word(name, "WINDOW")
    || matches_word(name, "WITH")
    || matches_word(name, "WITHOUT")
}

/// Decides whether `name` is reserved.
pub fn reserved(name: &str) -> (found: bool)
    ensures
        found == is_reserved(name@),
{
    reveal(is_reserved);
    keyword_a_to_c(name) || keyword_d_to_f(name) || keyword_g_to_l(name) || keyword_m_to_q(name)
        || keyword_r_to_s(name) || keyword_t_to_w(name) || matches_word(name, "ID")
}

/// Decides whether `name` is an identifier.
pub fn valid_identifier(name: &str) -> (ok: bool)
    ensures
        ok == is_identifier(name@),
{
    let n: usize = name.unicode_len();
    if n == 0 {
        return false;
    }
    let first = name.get_char(0);
    if first >= '0' && first <= '9' {
        return false;
    }
    let mut i: usize = 0;
    while i < n
        invariant
            n == name@.len(),
            i <= n,
            forall|j: int| 0 <= j < i ==> is_name_char(#[trigger] name@[j]),
        decreases n - i,
    {
        if !name_char(name.get_char(i)) {
            return false;
        }
        i = i + 1;
    }
    !reserved(name)
}

} // verus!
