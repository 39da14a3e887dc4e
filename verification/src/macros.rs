//! What the `__bind!` and `__single!` macros check of an SQL literal: it
//! must hold exactly one statement; and, for binding, its parameters must
//! be all named or all numbered, and the named ones are bound in order.

use vstd::prelude::*;
use vstd::string::StrSliceExecFns;
use vstd::string::StringExecFns;
use sqlite3_parser::ast::fmt::ToTokens;
use sqlite3_parser::ast::{Cmd, ParameterInfo};
use sqlite3_parser::lexer::sql::Parser;
use sqlite3_parser::Bump;
use fallible_iterator::FallibleIterator;

verus! {

#[verifier::external_type_specification]
#[verifier::external_body]
pub struct ExBump<const MIN_ALIGN: usize>(Bump<MIN_ALIGN>);

#[verifier::external_type_specification]
#[verifier::external_body]
pub struct ExParser<'input>(Parser<'input>);

#[verifier::external_type_specification]
#[verifier::external_body]
pub struct ExCmd<'bump>(Cmd<'bump>);

/// `Bump::new`: an empty arena for the parser's syntax trees.
#[verifier::external_body]
fn bump_new() -> Bump {
    Bump::new()
}

/// `Parser::new` over the bytes of `sql`.
#[verifier::external_body]
fn parser_new<'a>(bump: &'a Bump, sql: &'a str) -> Parser<'a> {
    Parser::new(bump, sql.as_bytes())
}

/// What the parser's `next` gives the `index`-th time (counting from 0) it
/// is called on a parser over `sql`: a statement (`Ok(Some(()))`), the end
/// of the input (`Ok(None)`), or the error's message. Parsing reads
/// nothing but the text, so this is a function of `sql` and `index`.
pub uninterp spec fn sql_next_outcome(sql: Seq<char>, index: nat) -> Result<Option<()>, Seq<char>>;

/// What `ToTokens::to_tokens` records of the statement a parser over `sql`
/// gave the `index`-th time: the number of parameters and the distinct
/// parameter names in order of first appearance, or the error's message.
pub uninterp spec fn sql_statement_parameters(sql: Seq<char>, index: nat) -> Result<(u16, Seq<Seq<char>>), Seq<char>>;

/// A parser over one SQL text, with the text and the number of times it
/// has been asked for the next statement.
pub struct SqlParser<'a> {
    parser: Parser<'a>,
    sql: &'a str,
    calls: usize,
}

/// A statement a parser gave, with the text it was read from and which
/// call gave it.
pub struct SqlCommand<'a> {
    cmd: Cmd<'a>,
    sql: &'a str,
    index: usize,
}

impl<'a> SqlParser<'a> {
    /// The text being parsed.
    pub closed spec fn spec_sql(&self) -> Seq<char> {
        self.sql@
    }

    /// How many statements have been asked for.
    pub closed spec fn spec_calls(&self) -> nat {
        self.calls as nat
    }

    /// A parser at the start of `sql`, with its trees in `bump`.
    pub fn new(bump: &'a Bump, sql: &'a str) -> (p: Self)
        ensures
            p.spec_sql() == sql@,
            p.spec_calls() == 0,
    {
        SqlParser { parser: parser_new(bump, sql), sql, calls: 0 }
    }

    /// The next statement: the outcome of the parser's next call, as
    /// [`sql_next_outcome`] names it.
    pub fn next(&mut self) -> (r: Result<Option<SqlCommand<'a>>, String>)
        requires
            old(self).spec_calls() < usize::MAX,
        ensures
            final(self).spec_sql() == old(self).spec_sql(),
            final(self).spec_calls() == old(self).spec_calls() + 1,
            outcome_of(r) == sql_next_outcome(old(self).spec_sql(), old(self).spec_calls()),
            r matches Ok(Some(c)) ==> c.spec_sql() == old(self).spec_sql() && c.spec_index() == old(self).spec_calls(),
    {
        let r = parser_next(self);
        self.calls = self.calls + 1;
        r
    }
}

impl<'a> SqlCommand<'a> {
    /// The text the statement was read from.
    pub closed spec fn spec_sql(&self) -> Seq<char> {
        self.sql@
    }

    /// Which call of the parser gave the statement.
    pub closed spec fn spec_index(&self) -> nat {
        self.index as nat
    }
}

/// The plain outcome of asking for the next statement.
pub open spec fn outcome_of<T>(r: Result<Option<T>, String>) -> Result<Option<()>, Seq<char>> {
    match r {
        Ok(Some(_)) => Ok(Some(())),
        Ok(None) => Ok(None),
        Err(e) => Err(e@),
    }
}

/// `FallibleIterator::next` of the parser: the next statement (kept with
/// the text and the call's number), `None` at the end of the input, or the
/// parse error's message; this is the `calls`-th call on a parser over
/// `sql`. The parser itself is the only field it changes. Whether the
/// parser can panic on some malformed input is not settled by its source
/// (its generated tables and stack code use unchecked operations), so no
/// input is excluded here on that account.
#[verifier::external_body]
fn parser_next<'a>(p: &mut SqlParser<'a>) -> (r: Result<Option<SqlCommand<'a>>, String>)
    ensures
        final(p).sql == old(p).sql,
        final(p).calls == old(p).calls,
        outcome_of(r) == sql_next_outcome(old(p).sql@, old(p).calls as nat),
        r matches Ok(Some(c)) ==> c.sql == old(p).sql && c.index == old(p).calls,
{
    match p.parser.next() {
        Ok(Some(cmd)) => Ok(Some(SqlCommand { cmd, sql: p.sql, index: p.calls })),
        Ok(None) => Ok(None),
        Err(err) => Err(err.to_string()),
    }
}

/// A parameter name as the parser records it: it begins with `$`, `@`,
/// `#` or `:`.
pub open spec fn is_named_variable(name: Seq<char>) -> bool {
    name.len() > 0 && (name[0] == '$' || name[0] == '@' || name[0] == '#' || name[0] == ':')
}

/// The parameters as plain values.
pub open spec fn parameters_of(r: Result<(u16, Vec<String>), String>) -> Result<(u16, Seq<Seq<char>>), Seq<char>> {
    match r {
        Ok((count, names)) => Ok((count, names@.map_values(|n: String| n@))),
        Err(e) => Err(e@),
    }
}

/// `ToTokens::to_tokens` of the statement into a `ParameterInfo`: the
/// number of parameters and the distinct parameter names in order of first
/// appearance, or the error's message, as [`sql_statement_parameters`]
/// names them. Claimed besides: a recorded name is a variable token that
/// begins with `$`, `@`, `#` or `:` (the others are numbered and only
/// counted). As for `parser_next`, a panic inside the crate is not ruled
/// out by its source and no input is excluded on that account.
#[verifier::external_body]
fn cmd_parameters(cmd: &SqlCommand) -> (r: Result<(u16, Vec<String>), String>)
    ensures
        parameters_of(r) == sql_statement_parameters(cmd.sql@, cmd.index as nat),
        r matches Ok((count, names)) ==> forall|i: int| 0 <= i < names@.len() ==> is_named_variable(#[trigger] names@[i]@),
{
    let mut info = ParameterInfo::default();
    match cmd.cmd.to_tokens(&mut info) {
        Ok(()) => Ok((info.count, info.names.into_iter().collect())),
        Err(err) => Err(err.to_string()),
    }
}

/// The message when the input holds no statement.
pub open spec fn invalid_input_msg() -> Seq<char> {
    "Invalid input"@
}

/// The message when the input holds more than one statement.
pub open spec fn multiple_statements_msg() -> Seq<char> {
    "Multiple statements"@
}

/// The message when named and numbered parameters are mixed.
pub open spec fn mixing_msg() -> Seq<char> {
    "Mixing named and numbered parameters is not supported."@
}

/// The outcome of reading the first statement: the statement; `Invalid
/// input` when there is none; the parse error as it came.
pub fn first_statement<T>(first: Result<Option<T>, String>) -> (r: Result<T, String>)
    ensures
        first matches Ok(Some(x)) ==> r == Ok::<T, String>(x),
        first matches Ok(None) ==> (r matches Err(m) && m@ == invalid_input_msg()),
        first matches Err(e) ==> r == Err::<T, String>(e),
{
    match first {
        Ok(Some(x)) => Ok(x),
        Ok(None) => {
            proof { reveal_strlit("Invalid input"); }
            Err(String::from_str("Invalid input"))
        },
        Err(e) => Err(e),
    }
}

/// The outcome of looking for a second statement: none is fine; another
/// statement is `Multiple statements`; a parse error comes as it came.
pub fn no_further_statement<T>(second: Result<Option<T>, String>) -> (r: Result<(), String>)
    ensures
        second matches Ok(None) ==> r is Ok,
        second matches Ok(Some(_)) ==> (r matches Err(m) && m@ == multiple_statements_msg()),
        second matches Err(e) ==> r == Err::<(), String>(e),
{
    match second {
        Ok(None) => Ok(()),
        Ok(Some(_)) => {
            proof { reveal_strlit("Multiple statements"); }
            Err(String::from_str("Multiple statements"))
        },
        Err(e) => Err(e),
    }
}

/// The bindings a `__bind!` expands to: for the `i`-th named parameter,
/// position `i + 1` and the name without its sigil. None when there are no
/// parameters; an error when some are numbered (the count exceeds the
/// names).
pub fn bind_parameters(count: u16, names: Vec<String>) -> (r: Result<Vec<(usize, String)>, String>)
    requires
        forall|i: int| 0 <= i < names@.len() ==> is_named_variable(#[trigger] names@[i]@),
    ensures
        count == 0 ==> (r matches Ok(v) && v@.len() == 0),
        count != 0 && count != names@.len() ==> (r matches Err(m) && m@ == mixing_msg()),
        count != 0 && count == names@.len() ==> (r matches Ok(v) && v@.len() == names@.len() && forall|i: int|
            0 <= i < v@.len() ==> (#[trigger] v@[i]).0 == i + 1 && v@[i].1@ == names@[i]@.drop_first()),
{
    if count == 0 {
        return Ok(Vec::new());
    }
    if count as usize != names.len() {
        proof { reveal_strlit("Mixing named and numbered parameters is not supported."); }
        return Err(String::from_str("Mixing named and numbered parameters is not supported."));
    }
    let mut res: Vec<(usize, String)> = Vec::new();
    let n = names.len();
    let mut i: usize = 0;
    while i < n
        invariant
            n == names@.len(),
            i <= n,
            forall|k: int| 0 <= k < names@.len() ==> is_named_variable(#[trigger] names@[k]@),
            res@.len() == i,
            forall|k: int| 0 <= k < i ==> (#[trigger] res@[k]).0 == k + 1 && res@[k].1@ == names@[k]@.drop_first(),
        decreases n - i,
    {
        let name = names[i].as_str();
        assert(is_named_variable(names@[i as int]@));
        let len = name.unicode_len();
        let bare = name.substring_char(1, len);
        assert(bare@ =~= names@[i as int]@.drop_first());
        res.push((i + 1, String::from_str(bare)));
        i = i + 1;
    }
    Ok(res)
}

/// What `__single!` answers for `sql`: the parse error or `Invalid input`
/// when the first call gives no statement; the parse error or `Multiple
/// statements` when the second call gives anything but the end.
pub open spec fn single_outcome(sql: Seq<char>) -> Result<(), Seq<char>> {
    match sql_next_outcome(sql, 0) {
        Err(m) => Err(m),
        Ok(None) => Err(invalid_input_msg()),
        Ok(Some(_)) => match sql_next_outcome(sql, 1) {
            Ok(None) => Ok(()),
            Ok(Some(_)) => Err(multiple_statements_msg()),
            Err(m) => Err(m),
        },
    }
}

/// The bindings for `count` parameters with the named ones `names`: none
/// when there are no parameters, the mixing error when some are numbered,
/// else position `i + 1` for the `i`-th name without its sigil.
pub open spec fn bindings_of(count: u16, names: Seq<Seq<char>>) -> Result<Seq<(int, Seq<char>)>, Seq<char>> {
    if count == 0 {
        Ok(Seq::empty())
    } else if count != names.len() {
        Err(mixing_msg())
    } else {
        Ok(Seq::new(names.len(), |i: int| (i + 1, names[i].drop_first())))
    }
}

/// What `__bind!` answers for `sql`: the answer of `__single!` when that is
/// an error, else the error of reading the statement's parameters, else
/// its bindings.
pub open spec fn bind_outcome(sql: Seq<char>) -> Result<Seq<(int, Seq<char>)>, Seq<char>> {
    match single_outcome(sql) {
        Err(m) => Err(m),
        Ok(()) => match sql_statement_parameters(sql, 0) {
            Err(m) => Err(m),
            Ok((count, names)) => bindings_of(count, names),
        },
    }
}

/// Checks that `sql` holds exactly one statement (what `__single!` checks).
pub fn try_single(sql: &str) -> (r: Result<(), String>)
    ensures
        r is Ok <==> single_outcome(sql@) is Ok,
        r matches Err(m) ==> single_outcome(sql@) == Err::<(), Seq<char>>(m@),
{
    let bump = bump_new();
    let mut parser = SqlParser::new(&bump, sql);
    let first = parser.next();
    let _cmd = match first_statement(first) {
        Ok(cmd) => cmd,
        Err(e) => return Err(e),
    };
    let second = parser.next();
    no_further_statement(second)
}

/// What `__bind!` generates for `sql`: the list of `(position, variable)`
/// bindings, positions counting from 1; or the error message.
pub fn try_bind(sql: &str) -> (r: Result<Vec<(usize, String)>, String>)
    ensures
        bind_outcome(sql@) matches Ok(v) ==> (r matches Ok(w) && w@.len() == v.len() && forall|i: int|
            0 <= i < v.len() ==> (#[trigger] w@[i]).0 == v[i].0 && w@[i].1@ == v[i].1),
        bind_outcome(sql@) matches Err(m) ==> (r matches Err(e) && e@ == m),
        r matches Ok(v) ==> forall|i: int| 0 <= i < v@.len() ==> (#[trigger] v@[i]).0 == i + 1,
{
    let bump = bump_new();
    let mut parser = SqlParser::new(&bump, sql);
    let first = parser.next();
    let cmd = match first_statement(first) {
        Ok(cmd) => cmd,
        Err(e) => return Err(e),
    };
    let second = parser.next();
    match no_further_statement(second) {
        Ok(()) => {},
        Err(e) => return Err(e),
    }
    let params = cmd_parameters(&cmd);
    match params {
        Ok((count, names)) => {
            let ghost plain = names@.map_values(|n: String| n@);
            let r = bind_parameters(count, names);
            proof {
                assert forall|i: int| 0 <= i < plain.len() implies plain[i] == names@[i]@ by {}
            }
            r
        },
        Err(e) => Err(e),
    }
}

} // verus!
