//! Pragma helpers: validation of pragma names and quoting of schema names
//! when building `PRAGMA` statements.

use vstd::prelude::*;
use vstd::string::StrSliceExecFns;
use vstd::string::StringExecFns;
use crate::codes;
use crate::util::{string_push, push_decimal, decimal, str_from_utf8, decode_utf8_encode_utf8_text};
use vstd::utf8::{valid_utf8, decode_utf8};
use crate::types::ValueRef;

verus! {

/// A database name: the main database, the temporary database or an
/// attached database.
#[derive(Clone, Copy, Debug, PartialEq)]
pub enum DatabaseName<'a> {
    /// The main database.
    Main,
    /// The temporary database (e.g., any "CREATE TEMPORARY TABLE" tables).
    Temp,
    /// A database that has been attached via "ATTACH DATABASE ...".
    Attached(&'a str),
}

/// An SQLite failure: a result code and an optional message.
#[derive(Debug, PartialEq)]
pub struct SqliteFailure {
    pub code: i32,
    pub message: Option<String>,
}

/// A character that may start an unquoted identifier.
pub open spec fn spec_is_identifier_start(c: char) -> bool {
    ('A' <= c <= 'Z') || c == '_' || ('a' <= c <= 'z') || c > '\x7F'
}

/// A character that may continue an unquoted identifier.
pub open spec fn spec_is_identifier_continue(c: char) -> bool {
    c == '$' || ('0' <= c <= '9') || ('A' <= c <= 'Z') || c == '_' || ('a' <= c <= 'z') || c > '\x7F'
}

/// Text that can stand unquoted as an identifier (the empty text included).
pub open spec fn spec_is_identifier(s: Seq<char>) -> bool {
    &&& s.len() > 0 ==> spec_is_identifier_start(s[0])
    &&& forall|i: int| 1 <= i < s.len() ==> spec_is_identifier_continue(s[i])
}

/// How one character is written inside a quoted name: the quote character
/// is doubled.
pub open spec fn escape_char(c: char, quote: char) -> Seq<char> {
    if c == quote { seq![c, c] } else { seq![c] }
}

/// The body of a quoted name: each quote character doubled.
pub open spec fn escaped(s: Seq<char>, quote: char) -> Seq<char>
    decreases s.len(),
{
    if s.len() == 0 {
        Seq::empty()
    } else {
        escaped(s.drop_last(), quote) + escape_char(s.last(), quote)
    }
}

/// The text between the quotes read back: a doubled quote stands for one.
pub open spec fn unescaped(t: Seq<char>, quote: char) -> Seq<char>
    decreases t.len(),
{
    if t.len() == 0 {
        Seq::empty()
    } else if t[0] == quote && t.len() >= 2 && t[1] == quote {
        seq![quote] + unescaped(t.skip(2), quote)
    } else {
        seq![t[0]] + unescaped(t.drop_first(), quote)
    }
}

/// `s` wrapped in `quote`s with the quotes inside doubled.
pub open spec fn quoted(s: Seq<char>, quote: char) -> Seq<char> {
    seq![quote] + escaped(s, quote) + seq![quote]
}

/// The text a schema name takes in SQL: `main`, `temp`, or the attached
/// name, double-quoted unless it is an identifier.
pub open spec fn schema_text(name: DatabaseName) -> Seq<char> {
    match name {
        DatabaseName::Main => "main"@,
        DatabaseName::Temp => "temp"@,
        DatabaseName::Attached(s) => if spec_is_identifier(s@) { s@ } else { quoted(s@, '"') },
    }
}

/// The `PRAGMA` statement querying `pragma_name` (in `schema`, if given).
pub open spec fn pragma_query_text(schema: Option<DatabaseName>, pragma_name: Seq<char>) -> Seq<char> {
    match schema {
        Some(s) => "PRAGMA "@ + schema_text(s) + seq!['.'] + pragma_name,
        None => "PRAGMA "@ + pragma_name,
    }
}

/// Whether the character may start an unquoted identifier.
pub fn is_identifier_start(c: char) -> (b: bool)
    ensures
        b == spec_is_identifier_start(c),
{
    (c >= 'A' && c <= 'Z') || c == '_' || (c >= 'a' && c <= 'z') || c > '\x7F'
}

/// Whether the character may continue an unquoted identifier.
pub fn is_identifier_continue(c: char) -> (b: bool)
    ensures
        b == spec_is_identifier_continue(c),
{
    c == '$' || (c >= '0' && c <= '9') || (c >= 'A' && c <= 'Z') || c == '_' || (c >= 'a' && c <= 'z')
        || c > '\x7F'
}

/// Whether the text can stand unquoted as an identifier.
pub fn is_identifier(s: &str) -> (b: bool)
    ensures
        b == spec_is_identifier(s@),
{
    let n = s.unicode_len();
    let mut i: usize = 0;
    while i < n
        invariant
            n == s@.len(),
            i <= n,
            i > 0 ==> spec_is_identifier_start(s@[0]),
            forall|j: int| 1 <= j < i ==> spec_is_identifier_continue(s@[j]),
        decreases n - i,
    {
        let ch = s.get_char(i);
        if i == 0 {
            if !is_identifier_start(ch) {
                return false;
            }
        } else if !is_identifier_continue(ch) {
            return false;
        }
        i = i + 1;
    }
    true
}

/// Appends `s` wrapped in `quote`s, doubling the quotes inside.
pub fn wrap_and_escape(query: &mut String, s: &str, quote: char)
    ensures
        final(query)@ == old(query)@ + quoted(s@, quote),
{
    string_push(query, quote);
    let n = s.unicode_len();
    let mut i: usize = 0;
    while i < n
        invariant
            n == s@.len(),
            i <= n,
            query@ == old(query)@ + seq![quote] + escaped(s@.take(i as int), quote),
        decreases n - i,
    {
        let ch = s.get_char(i);
        proof {
            assert(s@.take(i + 1).drop_last() =~= s@.take(i as int));
        }
        if ch == quote {
            string_push(query, ch);
        }
        string_push(query, ch);
        proof {
            assert(query@ =~= old(query)@ + seq![quote] + escaped(s@.take(i + 1), quote));
        }
        i = i + 1;
    }
    assert(s@.take(n as int) =~= s@);
    string_push(query, quote);
    assert(query@ =~= old(query)@ + quoted(s@, quote));
}

/// Appends the SQL text of a schema name.
pub fn double_quote(query: &mut String, schema_name: DatabaseName)
    ensures
        final(query)@ == old(query)@ + schema_text(schema_name),
{
    match schema_name {
        DatabaseName::Main => {
            proof { reveal_strlit("main"); }
            query.append("main");
        },
        DatabaseName::Temp => {
            proof { reveal_strlit("temp"); }
            query.append("temp");
        },
        DatabaseName::Attached(s) => {
            if is_identifier(s) {
                query.append(s);
            } else {
                wrap_and_escape(query, s, '"');
            }
        },
    }
}

/// The message for a pragma name that is empty or not an identifier.
pub open spec fn invalid_pragma_msg(pragma_name: Seq<char>) -> Seq<char> {
    "Invalid pragma \""@ + pragma_name + seq!['"']
}

/// Builds the statement `PRAGMA [schema.]pragma_name`. Fails with
/// `SQLITE_MISUSE` and `Invalid pragma "<name>"` when the pragma name is
/// empty or not an identifier.
pub fn pragma_query_sql(schema_name: Option<DatabaseName>, pragma_name: &str) -> (r: Result<String, SqliteFailure>)
    ensures
        (pragma_name@.len() == 0 || !spec_is_identifier(pragma_name@)) <==> r is Err,
        r matches Ok(sql) ==> sql@ == pragma_query_text(schema_name, pragma_name@),
        r matches Err(e) ==> e.code == codes::SQLITE_MISUSE && (e.message matches Some(m)
            && m@ == invalid_pragma_msg(pragma_name@)),
{
    if pragma_name.unicode_len() == 0 || !is_identifier(pragma_name) {
        proof { reveal_strlit("Invalid pragma \""); }
        let mut msg = String::from_str("Invalid pragma \"");
        msg.append(pragma_name);
        string_push(&mut msg, '"');
        return Err(SqliteFailure { code: codes::SQLITE_MISUSE, message: Some(msg) });
    }
    let mut query = String::from_str("PRAGMA ");
    proof { reveal_strlit("PRAGMA "); }
    match schema_name {
        Some(schema) => {
            double_quote(&mut query, schema);
            string_push(&mut query, '.');
        },
        None => {},
    }
    query.append(pragma_name);
    Ok(query)
}

/// The bytes as a `Debug` list writes them: decimal numbers separated by
/// ", ".
pub open spec fn byte_list(b: Seq<u8>) -> Seq<char>
    decreases b.len(),
{
    if b.len() == 0 {
        Seq::empty()
    } else if b.len() == 1 {
        decimal(b[0] as int)
    } else {
        byte_list(b.drop_last()) + ", "@ + decimal(b.last() as int)
    }
}

/// A value as its `Debug` form writes it.
pub open spec fn value_debug(v: ValueRef) -> Seq<char> {
    match v {
        ValueRef::Null => "Null"@,
        ValueRef::Integer(i) => "Integer("@ + decimal(i as int) + seq![')'],
        ValueRef::Text(b) => "Text(["@ + byte_list(b@) + "])"@,
        ValueRef::Blob(b) => "Blob(["@ + byte_list(b@) + "])"@,
    }
}

/// The message for a value a pragma cannot take.
pub open spec fn invalid_pragma_value_msg(v: ValueRef) -> Seq<char> {
    "Invalid pragma value \""@ + value_debug(v) + seq!['"']
}

/// Appends the `Debug` list of `b` to `s`.
fn push_byte_list(s: &mut String, b: &[u8])
    ensures
        final(s)@ == old(s)@ + byte_list(b@),
{
    proof { reveal_strlit(", "); }
    let mut i: usize = 0;
    while i < b.len()
        invariant
            i <= b@.len(),
            s@ == old(s)@ + byte_list(b@.take(i as int)),
        decreases b@.len() - i,
    {
        let ghost before = s@;
        if i > 0 {
            s.append(", ");
        }
        push_decimal(s, b[i] as i64);
        proof {
            let t = b@.take(i as int + 1);
            assert(t.drop_last() =~= b@.take(i as int));
            assert(t.last() == b@[i as int]);
            if i == 0 {
                assert(b@.take(0) =~= Seq::<u8>::empty());
            }
            assert(s@ =~= old(s)@ + byte_list(t));
        }
        i = i + 1;
    }
    assert(b@.take(b@.len() as int) =~= b@);
}

/// `Invalid pragma value "<value>"`, with the value as its `Debug` form.
fn invalid_value_message(v: ValueRef) -> (m: String)
    ensures
        m@ == invalid_pragma_value_msg(v),
{
    proof {
        reveal_strlit("Invalid pragma value \"");
        reveal_strlit("Null");
        reveal_strlit("Integer(");
        reveal_strlit("Text([");
        reveal_strlit("Blob([");
        reveal_strlit("])");
    }
    let mut m = String::from_str("Invalid pragma value \"");
    match v {
        ValueRef::Null => m.append("Null"),
        ValueRef::Integer(i) => {
            m.append("Integer(");
            push_decimal(&mut m, i);
            string_push(&mut m, ')');
        },
        ValueRef::Text(b) => {
            m.append("Text([");
            push_byte_list(&mut m, b);
            m.append("])");
        },
        ValueRef::Blob(b) => {
            m.append("Blob([");
            push_byte_list(&mut m, b);
            m.append("])");
        },
    }
    string_push(&mut m, '"');
    m
}

/// The text a pragma value takes in the statement, when it can take one.
pub open spec fn value_text(v: ValueRef) -> Option<Seq<char>> {
    match v {
        ValueRef::Integer(i) => Some(decimal(i as int)),
        ValueRef::Text(b) => if valid_utf8(b@) { Some(decode_utf8(b@)) } else { None },
        _ => None,
    }
}

/// The `PRAGMA` statement setting `pragma_name` to the value text `value`.
pub open spec fn pragma_update_text(schema: Option<DatabaseName>, pragma_name: Seq<char>, value: Seq<char>) -> Seq<char> {
    pragma_query_text(schema, pragma_name) + seq!['('] + value + seq![')']
}

/// Builds the statement `PRAGMA [schema.]pragma_name(value)`. Fails with
/// `SQLITE_MISUSE` when the pragma name is empty or not an identifier
/// (`Invalid pragma "<name>"`), or when the value is `NULL`, a blob or
/// text that is not UTF-8 (`Invalid pragma value "<value>"`, the value as
/// its `Debug` form writes it).
pub fn pragma_update_sql(schema_name: Option<DatabaseName>, pragma_name: &str, pragma_value: ValueRef) -> (r: Result<String, SqliteFailure>)
    ensures
        (pragma_name@.len() == 0 || !spec_is_identifier(pragma_name@) || value_text(pragma_value) is None) <==> r is Err,
        r matches Ok(sql) ==> sql@ == pragma_update_text(schema_name, pragma_name@, value_text(pragma_value)->0),
        r matches Err(e) ==> e.code == codes::SQLITE_MISUSE,
        (pragma_name@.len() == 0 || !spec_is_identifier(pragma_name@)) ==> (r matches Err(e)
            && e.message matches Some(m) && m@ == invalid_pragma_msg(pragma_name@)),
        !(pragma_name@.len() == 0 || !spec_is_identifier(pragma_name@)) && value_text(pragma_value) is None
            ==> (r matches Err(e) && e.message matches Some(m) && m@ == invalid_pragma_value_msg(pragma_value)),
{
    let mut sql = match pragma_query_sql(schema_name, pragma_name) {
        Ok(q) => q,
        Err(e) => return Err(e),
    };
    string_push(&mut sql, '(');
    match pragma_value {
        ValueRef::Integer(i) => push_decimal(&mut sql, i),
        ValueRef::Text(b) => match str_from_utf8(b) {
            Ok(s) => {
                proof { decode_utf8_encode_utf8_text(s); }
                sql.append(s)
            },
            Err(_) => {
                let msg = invalid_value_message(pragma_value);
                return Err(SqliteFailure { code: codes::SQLITE_MISUSE, message: Some(msg) });
            },
        },
        _ => {
            let msg = invalid_value_message(pragma_value);
            return Err(SqliteFailure { code: codes::SQLITE_MISUSE, message: Some(msg) });
        },
    }
    string_push(&mut sql, ')');
    Ok(sql)
}

/// `escaped` of a text that starts with `c` is the escape of `c` followed
/// by the escape of the rest.
proof fn lemma_escaped_front(s: Seq<char>, quote: char)
    requires
        s.len() > 0,
    ensures
        escaped(s, quote) == escape_char(s[0], quote) + escaped(s.drop_first(), quote),
    decreases s.len(),
{
    if s.len() == 1 {
        assert(s.drop_last() =~= Seq::<char>::empty());
        assert(s.drop_first() =~= Seq::<char>::empty());
        assert(escaped(s.drop_first(), quote) =~= Seq::<char>::empty());
        assert(escaped(s, quote) =~= escape_char(s[0], quote));
    } else {
        let init = s.drop_last();
        lemma_escaped_front(init, quote);
        assert(init.drop_first() =~= s.drop_first().drop_last());
        assert(s.drop_first().last() == s.last());
        assert(escaped(s, quote) =~= escape_char(s[0], quote) + escaped(s.drop_first(), quote));
    }
}

/// Reading a quoted name back gives the name itself: unescaping the
/// escaped body is the identity.
pub proof fn lemma_unescape_escaped(s: Seq<char>, quote: char)
    ensures
        unescaped(escaped(s, quote), quote) == s,
    decreases s.len(),
{
    if s.len() == 0 {
        assert(escaped(s, quote) =~= Seq::<char>::empty());
    } else {
        lemma_escaped_front(s, quote);
        let rest = s.drop_first();
        lemma_unescape_escaped(rest, quote);
        let t = escaped(s, quote);
        if s[0] == quote {
            assert(t.skip(2) =~= escaped(rest, quote));
            assert(unescaped(t, quote) =~= seq![quote] + rest);
        } else {
            assert(t.drop_first() =~= escaped(rest, quote));
            assert(unescaped(t, quote) =~= seq![s[0]] + rest);
        }
        assert(s =~= seq![s[0]] + rest);
    }
}


/// The name a schema text stands for in SQL: a double-quoted text read
/// back with its doubled quotes undone, any other text as it is.
pub open spec fn sql_name(t: Seq<char>) -> Seq<char> {
    if t.len() >= 2 && t[0] == '"' && t[t.len() - 1] == '"' {
        unescaped(t.subrange(1, t.len() - 1), '"')
    } else {
        t
    }
}

/// The schema part of a `PRAGMA` statement names the schema asked for: an
/// attached database's text, read as SQL reads a name, is the attached
/// name itself, whatever characters it holds; it is the bare name when
/// that is an identifier; `Main` and `Temp` are `main` and `temp`; and the
/// statement is `PRAGMA `, that text, a dot and the pragma's name.
pub proof fn lemma_schema_names(s: &str, pragma_name: Seq<char>)
    ensures
        sql_name(schema_text(DatabaseName::Attached(s))) == s@,
        spec_is_identifier(s@) ==> schema_text(DatabaseName::Attached(s)) == s@,
        sql_name(schema_text(DatabaseName::Main)) == "main"@,
        sql_name(schema_text(DatabaseName::Temp)) == "temp"@,
        pragma_query_text(Some(DatabaseName::Attached(s)), pragma_name)
            == "PRAGMA "@ + schema_text(DatabaseName::Attached(s)) + seq!['.'] + pragma_name,
{
    reveal_strlit("main");
    reveal_strlit("temp");
    let n = s@;
    if spec_is_identifier(n) {
        if n.len() >= 2 {
            assert(spec_is_identifier_start(n[0]));
            assert(n[0] != '"');
        }
    } else {
        let t = quoted(n, '"');
        assert(t.len() >= 2);
        assert(t[0] == '"');
        assert(t[t.len() - 1] == '"');
        assert(t.subrange(1, t.len() - 1) =~= escaped(n, '"'));
        lemma_unescape_escaped(n, '"');
    }
}

} // verus!
