//! Quoting of identifiers, the SQL text the explorer sends, and the
//! rendering of the values that come back.

use vstd::prelude::*;
use crate::numbers::{
    decimal, is_float_text, is_number_text, push_decimal, signed_decimal, signed_decimal_string,
};
use crate::text::{chars_of, push_char, starts_with};
use crate::schema::{index_info_statement, index_list_statement};
use crate::stats::{
    distinct_count_statement, length_stats_statement, null_count_statement,
    numeric_summary_statement, value_counts_statement, variance_statement,
};

verus! {

/// How one character of an identifier is written inside double quotes: a
/// double quote is doubled, any other character stands for itself.
pub open spec fn escape_char(c: char) -> Seq<char> {
    if c == '"' {
        seq!['"', '"']
    } else {
        seq![c]
    }
}

/// An identifier with every double quote doubled.
pub open spec fn escape(s: Seq<char>) -> Seq<char>
    decreases s.len(),
{
    if s.len() == 0 {
        seq![]
    } else {
        escape(s.drop_last()) + escape_char(s.last())
    }
}

/// An identifier written as an SQL quoted identifier.
pub open spec fn quote_ident(s: Seq<char>) -> Seq<char> {
    seq!['"'] + escape(s) + seq!['"']
}

/// How SQL reads the body of a double-quoted identifier, starting just after
/// its opening quote: two double quotes in a row stand for one, and a double
/// quote on its own closes the identifier. The result is the name read and
/// the number of characters before the closing quote, or `None` when the
/// text ends before a closing quote.
pub open spec fn read_quoted(t: Seq<char>) -> Option<(Seq<char>, nat)>
    decreases t.len(),
{
    if t.len() == 0 {
        None
    } else if t[0] == '"' {
        if t.len() >= 2 && t[1] == '"' {
            match read_quoted(t.skip(2)) {
                Some((name, k)) => Some((seq!['"'] + name, k + 2)),
                None => None,
            }
        } else {
            Some((seq![], 0))
        }
    } else {
        match read_quoted(t.skip(1)) {
            Some((name, k)) => Some((seq![t[0]] + name, k + 1)),
            None => None,
        }
    }
}

proof fn lemma_escape_concat(a: Seq<char>, b: Seq<char>)
    ensures
        escape(a + b) == escape(a) + escape(b),
    decreases b.len(),
{
    if b.len() == 0 {
        assert(a + b =~= a);
        assert(escape(a) + escape(b) =~= escape(a));
    } else {
        lemma_escape_concat(a, b.drop_last());
        assert((a + b).drop_last() =~= a + b.drop_last());
        assert((a + b).last() == b.last());
        assert(escape(a + b) =~= escape(a) + escape(b));
    }
}

proof fn lemma_escape_front(s: Seq<char>)
    requires
        s.len() > 0,
    ensures
        escape(s) == escape_char(s[0]) + escape(s.skip(1)),
{
    lemma_escape_concat(seq![s[0]], s.skip(1));
    assert(seq![s[0]] + s.skip(1) =~= s);
    assert(seq![s[0]].drop_last() =~= Seq::<char>::empty());
    assert(escape(Seq::<char>::empty()) =~= Seq::<char>::empty());
    assert(escape(seq![s[0]]) =~= escape_char(s[0]));
}

/// Escaping keeps SQL from being injected through a name: once a name is
/// escaped and closed with a double quote, SQL reads back exactly that name
/// and stops at that closing quote, whatever text follows, as long as that
/// text does not itself begin with a double quote.
pub proof fn lemma_quoted_identifier_reads_back(s: Seq<char>, rest: Seq<char>)
    requires
        rest.len() == 0 || rest[0] != '"',
    ensures
        read_quoted(escape(s) + seq!['"'] + rest) == Some((s, escape(s).len())),
    decreases s.len(),
{
    let t = escape(s) + seq!['"'] + rest;
    if s.len() == 0 {
        assert(escape(s) =~= Seq::<char>::empty());
        assert(t =~= seq!['"'] + rest);
        assert(t[0] == '"');
        if t.len() >= 2 {
            assert(t[1] == rest[0]);
        }
        assert(s =~= Seq::<char>::empty());
    } else {
        lemma_escape_front(s);
        lemma_quoted_identifier_reads_back(s.skip(1), rest);
        let tail = escape(s.skip(1)) + seq!['"'] + rest;
        if s[0] == '"' {
            assert(t =~= seq!['"', '"'] + tail);
            assert(t.skip(2) =~= tail);
            assert(seq!['"'] + s.skip(1) =~= s);
        } else {
            assert(t =~= seq![s[0]] + tail);
            assert(t[0] == s[0]);
            assert(t.skip(1) =~= tail);
            assert(seq![s[0]] + s.skip(1) =~= s);
        }
    }
}

/// Two different names are never written the same way once escaped.
pub proof fn lemma_escape_injective(a: Seq<char>, b: Seq<char>)
    requires
        escape(a) == escape(b),
    ensures
        a == b,
{
    lemma_quoted_identifier_reads_back(a, Seq::<char>::empty());
    lemma_quoted_identifier_reads_back(b, Seq::<char>::empty());
}

/// A name that holds no double quote is written unchanged.
pub proof fn lemma_escape_plain(s: Seq<char>)
    requires
        !s.contains('"'),
    ensures
        escape(s) == s,
    decreases s.len(),
{
    if s.len() > 0 {
        assert(!s.drop_last().contains('"')) by {
            if s.drop_last().contains('"') {
                let i = choose|i: int| 0 <= i < s.drop_last().len() && s.drop_last()[i] == '"';
                assert(s[i] == '"');
            }
        }
        lemma_escape_plain(s.drop_last());
        assert(s.last() != '"') by {
            assert(s[s.len() - 1] == s.last());
        }
        assert(escape(s) =~= s);
    }
}

/// Escapes a SQL identifier to prevent injection: every double quote is
/// doubled.
pub fn escape_identifier(name: &str) -> (r: String)
    ensures
        r@ == escape(name@),
{
    let cs = chars_of(name);
    let mut out = String::new();
    let mut i: usize = 0;
    while i < cs.len()
        invariant
            cs@ == name@,
            i <= cs.len(),
            out@ == escape(name@.subrange(0, i as int)),
        decreases cs.len() - i,
    {
        let c = cs[i];
        push_char(&mut out, c);
        if c == '"' {
            push_char(&mut out, '"');
        }
        assert(name@.subrange(0, i + 1).drop_last() =~= name@.subrange(0, i as int));
        i = i + 1;
    }
    assert(name@.subrange(0, cs.len() as int) =~= name@);
    out
}

/// Appends an identifier written as a quoted SQL identifier.
pub(crate) fn push_quoted(out: &mut String, name: &str)
    ensures
        final(out)@ == old(out)@ + quote_ident(name@),
{
    let e = escape_identifier(name);
    push_char(out, '"');
    out.append(e.as_str());
    push_char(out, '"');
}

/// The statement listing the user tables of a database by name: every table
/// but SQLite's own, whose names begin with "sqlite_" (the underscore is
/// escaped so that it matches only an underscore).
pub open spec fn list_tables_statement() -> Seq<char> {
    "SELECT name FROM sqlite_master WHERE type='table' AND name NOT LIKE 'sqlite\\_%' ESCAPE '\\' ORDER BY name"@
}

/// The statement listing the user tables of a database, by name.
pub fn list_tables_sql() -> (r: &'static str)
    ensures
        r@ == list_tables_statement(),
{
    "SELECT name FROM sqlite_master WHERE type='table' AND name NOT LIKE 'sqlite\\_%' ESCAPE '\\' ORDER BY name"
}

/// The statement counting the tables with a given name, passed as its one
/// parameter.
pub open spec fn table_exists_statement() -> Seq<char> {
    "SELECT COUNT(*) FROM sqlite_master WHERE type='table' AND name = ?"@
}

/// The statement counting the tables with a given name, passed as its one
/// parameter.
pub fn table_exists_sql() -> (r: &'static str)
    ensures
        r@ == table_exists_statement(),
{
    "SELECT COUNT(*) FROM sqlite_master WHERE type='table' AND name = ?"
}

/// The text of the statement that `row_count_sql` builds.
pub open spec fn row_count_statement(table: Seq<char>) -> Seq<char> {
    "SELECT COUNT(*) FROM "@ + quote_ident(table)
}

/// The statement counting the rows of a table.
pub fn row_count_sql(table: &str) -> (r: String)
    ensures
        r@ == row_count_statement(table@),
{
    let mut out = String::from_str("SELECT COUNT(*) FROM ");
    push_quoted(&mut out, table);
    out
}

/// The text of the statement that `table_info_sql` builds.
pub open spec fn table_info_statement(table: Seq<char>) -> Seq<char> {
    "PRAGMA table_info("@ + quote_ident(table) + ")"@
}

/// The statement listing the columns of a table.
pub fn table_info_sql(table: &str) -> (r: String)
    ensures
        r@ == table_info_statement(table@),
{
    let mut out = String::from_str("PRAGMA table_info(");
    push_quoted(&mut out, table);
    out.append(")");
    out
}

/// The text of the statement that `fetch_rows_sql` builds.
pub open spec fn fetch_rows_statement(table: Seq<char>, limit: usize, offset: usize) -> Seq<char> {
    "SELECT * FROM "@ + quote_ident(table) + " LIMIT "@ + decimal(limit as nat) + " OFFSET "@
        + decimal(offset as nat)
}

/// The statement reading a page of rows: at most `limit` rows after skipping
/// `offset` of them.
pub fn fetch_rows_sql(table: &str, limit: usize, offset: usize) -> (r: String)
    ensures
        r@ == fetch_rows_statement(table@, limit, offset),
{
    let mut out = String::from_str("SELECT * FROM ");
    push_quoted(&mut out, table);
    out.append(" LIMIT ");
    push_decimal(&mut out, limit as u64);
    out.append(" OFFSET ");
    push_decimal(&mut out, offset as u64);
    out
}

/// The text of the statement that `column_values_sql` builds.
pub open spec fn column_values_statement(table: Seq<char>, column: Seq<char>) -> Seq<char> {
    "SELECT "@ + quote_ident(column) + " FROM "@ + quote_ident(table) + " WHERE "@
        + quote_ident(column) + " IS NOT NULL AND typeof("@ + quote_ident(column)
        + ") IN ('integer', 'real')"@
}

/// The statement reading the non-null integer and real values of a column.
pub fn column_values_sql(table: &str, column: &str) -> (r: String)
    ensures
        r@ == column_values_statement(table@, column@),
{
    let mut out = String::from_str("SELECT ");
    push_quoted(&mut out, column);
    out.append(" FROM ");
    push_quoted(&mut out, table);
    out.append(" WHERE ");
    push_quoted(&mut out, column);
    out.append(" IS NOT NULL AND typeof(");
    push_quoted(&mut out, column);
    out.append(") IN ('integer', 'real')");
    out
}

/// Where a reader of SQL text stands: outside any quotes, inside a
/// double-quoted identifier, or inside a single-quoted string.
pub enum QuoteState {
    Outside,
    InIdentifier,
    InString,
}

/// How reading one more character moves the reader; a semicolon outside
/// quotes ends the statement, which is `None` here.
pub open spec fn scan_step(q: QuoteState, c: char) -> Option<QuoteState> {
    match q {
        QuoteState::Outside => if c == '"' {
            Some(QuoteState::InIdentifier)
        } else if c == '\'' {
            Some(QuoteState::InString)
        } else if c == ';' {
            None
        } else {
            Some(QuoteState::Outside)
        },
        QuoteState::InIdentifier => if c == '"' {
            Some(QuoteState::Outside)
        } else {
            Some(QuoteState::InIdentifier)
        },
        QuoteState::InString => if c == '\'' {
            Some(QuoteState::Outside)
        } else {
            Some(QuoteState::InString)
        },
    }
}

/// Where the reader stands after reading a text from state `q`, or `None`
/// when the text holds a semicolon outside quotes. A doubled quote inside
/// quotes leaves and re-enters them at once, so it needs no case of its own.
pub open spec fn scan(s: Seq<char>, q: QuoteState) -> Option<QuoteState>
    decreases s.len(),
{
    if s.len() == 0 {
        Some(q)
    } else {
        match scan(s.drop_last(), q) {
            Some(p) => scan_step(p, s.last()),
            None => None,
        }
    }
}

/// A text is one SQL statement: it holds no semicolon outside quoted
/// identifiers and strings, and closes every quote it opens.
pub open spec fn is_single_statement(s: Seq<char>) -> bool {
    scan(s, QuoteState::Outside) == Some(QuoteState::Outside)
}

/// A statement that only reads: a single statement that is a query or a
/// pragma that reports.
pub open spec fn is_read_statement(s: Seq<char>) -> bool {
    &&& starts_with(s, "SELECT "@) || starts_with(s, "PRAGMA "@)
    &&& is_single_statement(s)
}

/// A text with no quote and no semicolon.
pub open spec fn is_plain(s: Seq<char>) -> bool {
    forall|i: int| 0 <= i < s.len() ==> #[trigger] s[i] != '"' && s[i] != '\'' && s[i] != ';'
}

proof fn lemma_scan_concat(a: Seq<char>, b: Seq<char>, q: QuoteState)
    ensures
        scan(a + b, q) == (match scan(a, q) {
            Some(p) => scan(b, p),
            None => None,
        }),
    decreases b.len(),
{
    if b.len() == 0 {
        assert(a + b =~= a);
    } else {
        lemma_scan_concat(a, b.drop_last(), q);
        assert((a + b).drop_last() =~= a + b.drop_last());
        assert((a + b).last() == b.last());
    }
}

proof fn lemma_scan_one(c: char, q: QuoteState)
    ensures
        scan(seq![c], q) == scan_step(q, c),
{
    assert(seq![c].drop_last() =~= Seq::<char>::empty());
    assert(scan(Seq::<char>::empty(), q) == Some(q));
    assert(seq![c].last() == c);
}

proof fn lemma_scan_plain(s: Seq<char>)
    requires
        is_plain(s),
    ensures
        scan(s, QuoteState::Outside) == Some(QuoteState::Outside),
    decreases s.len(),
{
    if s.len() > 0 {
        assert(is_plain(s.drop_last())) by {
            assert forall|i: int| 0 <= i < s.drop_last().len() implies #[trigger] s.drop_last()[i] != '"'
                && s.drop_last()[i] != '\'' && s.drop_last()[i] != ';' by {
                assert(s.drop_last()[i] == s[i]);
            }
        }
        lemma_scan_plain(s.drop_last());
        assert(s.last() == s[s.len() - 1]);
    }
}

proof fn lemma_scan_escaped_in_identifier(x: Seq<char>)
    ensures
        scan(escape(x), QuoteState::InIdentifier) == Some(QuoteState::InIdentifier),
    decreases x.len(),
{
    if x.len() > 0 {
        lemma_scan_escaped_in_identifier(x.drop_last());
        let c = x.last();
        lemma_scan_concat(escape(x.drop_last()), escape_char(c), QuoteState::InIdentifier);
        if c == '"' {
            let e = seq!['"', '"'];
            lemma_scan_one('"', QuoteState::InIdentifier);
            lemma_scan_one('"', QuoteState::Outside);
            lemma_scan_concat(seq!['"'], seq!['"'], QuoteState::InIdentifier);
            assert(seq!['"'] + seq!['"'] =~= e);
        } else {
            lemma_scan_one(c, QuoteState::InIdentifier);
        }
    }
}

/// A quoted identifier, whatever name it holds, is read as one closed
/// identifier: a semicolon in a name cannot end the statement.
pub proof fn lemma_quoted_identifier_is_closed(x: Seq<char>)
    ensures
        scan(quote_ident(x), QuoteState::Outside) == Some(QuoteState::Outside),
{
    let open = seq!['"'];
    lemma_scan_one('"', QuoteState::Outside);
    lemma_scan_one('"', QuoteState::InIdentifier);
    lemma_scan_escaped_in_identifier(x);
    lemma_scan_concat(open, escape(x), QuoteState::Outside);
    lemma_scan_concat(open + escape(x), open, QuoteState::Outside);
}

proof fn lemma_scan_string_literal(inner: Seq<char>)
    requires
        forall|i: int| 0 <= i < inner.len() ==> #[trigger] inner[i] != '\'',
    ensures
        scan(seq!['\''] + inner + seq!['\''], QuoteState::Outside) == Some(QuoteState::Outside),
{
    let q = seq!['\''];
    lemma_scan_one('\'', QuoteState::Outside);
    lemma_scan_one('\'', QuoteState::InString);
    lemma_scan_inside_string(inner);
    lemma_scan_concat(q, inner, QuoteState::Outside);
    lemma_scan_concat(q + inner, q, QuoteState::Outside);
}

proof fn lemma_scan_inside_string(inner: Seq<char>)
    requires
        forall|i: int| 0 <= i < inner.len() ==> #[trigger] inner[i] != '\'',
    ensures
        scan(inner, QuoteState::InString) == Some(QuoteState::InString),
    decreases inner.len(),
{
    if inner.len() > 0 {
        assert forall|i: int| 0 <= i < inner.drop_last().len() implies #[trigger] inner.drop_last()[i]
            != '\'' by {
            assert(inner.drop_last()[i] == inner[i]);
        }
        lemma_scan_inside_string(inner.drop_last());
        assert(inner.last() == inner[inner.len() - 1]);
    }
}

proof fn lemma_decimal_plain(n: nat)
    ensures
        is_plain(decimal(n)),
    decreases n,
{
    if n >= 10 {
        lemma_decimal_plain(n / 10);
    }
}

proof fn lemma_number_text_plain(s: Seq<char>)
    requires
        is_number_text(s),
    ensures
        is_plain(s),
{
    if s.len() > 0 && s[0] == '-' {
        assert forall|i: int| 0 <= i < s.len() implies #[trigger] s[i] != '"' && s[i] != '\'' && s[i]
            != ';' by {
            if i > 0 {
                assert(s.skip(1)[i - 1] == s[i]);
            }
        }
    }
}

proof fn lemma_plain_literal(s: Seq<char>)
    requires
        is_plain(s),
    ensures
        is_single_statement(s),
{
    lemma_scan_plain(s);
}

/// Every piece of fixed text in the statements is itself a single statement
/// by the reader's count: plain words and symbols, and closed string literals.
proof fn lemma_literals_are_single()
    ensures
        is_single_statement("SELECT name FROM sqlite_master WHERE type='table' AND name NOT LIKE 'sqlite\\_%' ESCAPE '\\' ORDER BY name"@),
        is_single_statement("SELECT COUNT(*) FROM sqlite_master WHERE type='table' AND name = ?"@),
        is_single_statement(") IN ('integer', 'real')"@),
        is_single_statement("SELECT COUNT(*) FROM "@),
        is_single_statement("PRAGMA table_info("@),
        is_single_statement(")"@),
        is_single_statement("SELECT * FROM "@),
        is_single_statement(" LIMIT "@),
        is_single_statement(" OFFSET "@),
        is_single_statement("SELECT "@),
        is_single_statement(" FROM "@),
        is_single_statement(" WHERE "@),
        is_single_statement(" IS NOT NULL AND typeof("@),
        is_single_statement("PRAGMA index_list("@),
        is_single_statement("PRAGMA index_info("@),
        is_single_statement(" IS NULL"@),
        is_single_statement("SELECT COUNT(DISTINCT "@),
        is_single_statement(") FROM "@),
        is_single_statement("SELECT MIN("@),
        is_single_statement("), MAX("@),
        is_single_statement("), AVG("@),
        is_single_statement("), SUM("@),
        is_single_statement(" IS NOT NULL"@),
        is_single_statement("SELECT AVG(("@),
        is_single_statement(" - "@),
        is_single_statement(") * ("@),
        is_single_statement(")) FROM "@),
        is_single_statement("SELECT MIN(LENGTH("@),
        is_single_statement(")), MAX(LENGTH("@),
        is_single_statement(")), AVG(LENGTH("@),
        is_single_statement(")) FROM "@),
        is_single_statement(", COUNT(*) as cnt FROM "@),
        is_single_statement(" IS NOT NULL GROUP BY "@),
        is_single_statement(" ORDER BY cnt DESC LIMIT "@),
        is_single_statement(") IN ("@),
        is_single_statement(", "@),
        is_single_statement("SELECT COUNT(*) FROM sqlite_master WHERE type="@),
        is_single_statement(" AND name = ?"@),
        is_single_statement("SELECT name FROM sqlite_master WHERE type="@),
        is_single_statement(" AND name NOT LIKE "@),
        is_single_statement(" ESCAPE "@),
        is_single_statement(" ORDER BY name"@),
{
    reveal_strlit("SELECT COUNT(*) FROM ");
    lemma_plain_literal("SELECT COUNT(*) FROM "@);
    reveal_strlit("PRAGMA table_info(");
    lemma_plain_literal("PRAGMA table_info("@);
    reveal_strlit(")");
    lemma_plain_literal(")"@);
    reveal_strlit("SELECT * FROM ");
    lemma_plain_literal("SELECT * FROM "@);
    reveal_strlit(" LIMIT ");
    lemma_plain_literal(" LIMIT "@);
    reveal_strlit(" OFFSET ");
    lemma_plain_literal(" OFFSET "@);
    reveal_strlit("SELECT ");
    lemma_plain_literal("SELECT "@);
    reveal_strlit(" FROM ");
    lemma_plain_literal(" FROM "@);
    reveal_strlit(" WHERE ");
    lemma_plain_literal(" WHERE "@);
    reveal_strlit(" IS NOT NULL AND typeof(");
    lemma_plain_literal(" IS NOT NULL AND typeof("@);
    reveal_strlit("PRAGMA index_list(");
    lemma_plain_literal("PRAGMA index_list("@);
    reveal_strlit("PRAGMA index_info(");
    lemma_plain_literal("PRAGMA index_info("@);
    reveal_strlit(" IS NULL");
    lemma_plain_literal(" IS NULL"@);
    reveal_strlit("SELECT COUNT(DISTINCT ");
    lemma_plain_literal("SELECT COUNT(DISTINCT "@);
    reveal_strlit(") FROM ");
    lemma_plain_literal(") FROM "@);
    reveal_strlit("SELECT MIN(");
    lemma_plain_literal("SELECT MIN("@);
    reveal_strlit("), MAX(");
    lemma_plain_literal("), MAX("@);
    reveal_strlit("), AVG(");
    lemma_plain_literal("), AVG("@);
    reveal_strlit("), SUM(");
    lemma_plain_literal("), SUM("@);
    reveal_strlit(" IS NOT NULL");
    lemma_plain_literal(" IS NOT NULL"@);
    reveal_strlit("SELECT AVG((");
    lemma_plain_literal("SELECT AVG(("@);
    reveal_strlit(" - ");
    lemma_plain_literal(" - "@);
    reveal_strlit(") * (");
    lemma_plain_literal(") * ("@);
    reveal_strlit(")) FROM ");
    lemma_plain_literal(")) FROM "@);
    reveal_strlit("SELECT MIN(LENGTH(");
    lemma_plain_literal("SELECT MIN(LENGTH("@);
    reveal_strlit(")), MAX(LENGTH(");
    lemma_plain_literal(")), MAX(LENGTH("@);
    reveal_strlit(")), AVG(LENGTH(");
    lemma_plain_literal(")), AVG(LENGTH("@);
    reveal_strlit(")) FROM ");
    lemma_plain_literal(")) FROM "@);
    reveal_strlit(", COUNT(*) as cnt FROM ");
    lemma_plain_literal(", COUNT(*) as cnt FROM "@);
    reveal_strlit(" IS NOT NULL GROUP BY ");
    lemma_plain_literal(" IS NOT NULL GROUP BY "@);
    reveal_strlit(" ORDER BY cnt DESC LIMIT ");
    lemma_plain_literal(" ORDER BY cnt DESC LIMIT "@);
    reveal_strlit(") IN (");
    lemma_plain_literal(") IN ("@);
    reveal_strlit(", ");
    lemma_plain_literal(", "@);
    reveal_strlit("SELECT COUNT(*) FROM sqlite_master WHERE type=");
    lemma_plain_literal("SELECT COUNT(*) FROM sqlite_master WHERE type="@);
    reveal_strlit(" AND name = ?");
    lemma_plain_literal(" AND name = ?"@);
    reveal_strlit("SELECT name FROM sqlite_master WHERE type=");
    lemma_plain_literal("SELECT name FROM sqlite_master WHERE type="@);
    reveal_strlit(" AND name NOT LIKE ");
    lemma_plain_literal(" AND name NOT LIKE "@);
    reveal_strlit(" ESCAPE ");
    lemma_plain_literal(" ESCAPE "@);
    reveal_strlit(" ORDER BY name");
    lemma_plain_literal(" ORDER BY name"@);
    reveal_strlit("integer");
    lemma_scan_string_literal("integer"@);
    reveal_strlit("real");
    lemma_scan_string_literal("real"@);
    reveal_strlit("table");
    lemma_scan_string_literal("table"@);
    reveal_strlit("sqlite\\_%");
    lemma_scan_string_literal("sqlite\\_%"@);
    reveal_strlit("\\");
    lemma_scan_string_literal("\\"@);
    let q = seq!['\''];
    assert forall|a: Seq<char>, b: Seq<char>|
        is_single_statement(a) && is_single_statement(b) implies #[trigger] is_single_statement(a + b) by {
        lemma_single_concat(a, b);
    }
    reveal_strlit(") IN ('integer', 'real')");
    reveal_strlit("'integer'");
    assert(") IN ('integer', 'real')"@ =~= ") IN ("@ + (q + "integer"@ + q) + ", "@ + (q + "real"@ + q) + ")"@);
    reveal_strlit("SELECT COUNT(*) FROM sqlite_master WHERE type='table' AND name = ?");
    assert("SELECT COUNT(*) FROM sqlite_master WHERE type='table' AND name = ?"@ =~= "SELECT COUNT(*) FROM sqlite_master WHERE type="@ + (q + "table"@ + q) + " AND name = ?"@);
    reveal_strlit("SELECT name FROM sqlite_master WHERE type='table' AND name NOT LIKE 'sqlite\\_%' ESCAPE '\\' ORDER BY name");
    assert("SELECT name FROM sqlite_master WHERE type='table' AND name NOT LIKE 'sqlite\\_%' ESCAPE '\\' ORDER BY name"@ =~= "SELECT name FROM sqlite_master WHERE type="@ + (q + "table"@ + q) + " AND name NOT LIKE "@ + (q + "sqlite\\_%"@ + q) + " ESCAPE "@ + (q + "\\"@ + q) + " ORDER BY name"@);
}

proof fn lemma_float_text_plain(s: Seq<char>)
    requires
        is_float_text(s),
    ensures
        is_plain(s),
{
    reveal_strlit("inf");
    reveal_strlit("-inf");
    reveal_strlit("NaN");
    if is_number_text(s) {
        lemma_number_text_plain(s);
    }
}

proof fn lemma_prefix_extends(p: Seq<char>, a: Seq<char>, b: Seq<char>)
    requires
        p.is_prefix_of(a),
    ensures
        p.is_prefix_of(a + b),
{
    assert(p =~= (a + b).subrange(0, p.len() as int));
}

proof fn lemma_single_concat(a: Seq<char>, b: Seq<char>)
    requires
        is_single_statement(a),
        is_single_statement(b),
    ensures
        is_single_statement(a + b),
{
    lemma_scan_concat(a, b, QuoteState::Outside);
}

/// The explorer never modifies a database: every statement the library
/// builds, whatever names and numbers are put into it, is one single query
/// or pragma that reports; a name cannot end it early or add a second
/// statement, and a mean is put in only as the text a floating-point number
/// displays as.
pub proof fn lemma_statements_only_read(
    table: Seq<char>,
    column: Seq<char>,
    index_name: Seq<char>,
    mean: Seq<char>,
    limit: usize,
    offset: usize,
)
    requires
        is_float_text(mean),
    ensures
        is_read_statement(list_tables_statement()),
        is_read_statement(table_exists_statement()),
        is_read_statement(row_count_statement(table)),
        is_read_statement(table_info_statement(table)),
        is_read_statement(fetch_rows_statement(table, limit, offset)),
        is_read_statement(column_values_statement(table, column)),
        is_read_statement(index_list_statement(table)),
        is_read_statement(index_info_statement(index_name)),
        is_read_statement(null_count_statement(table, column)),
        is_read_statement(distinct_count_statement(table, column)),
        is_read_statement(numeric_summary_statement(table, column)),
        is_read_statement(variance_statement(table, column, mean)),
        is_read_statement(length_stats_statement(table, column)),
        is_read_statement(value_counts_statement(table, column, limit)),
{
    assert forall|p: Seq<char>, a: Seq<char>, b: Seq<char>| p.is_prefix_of(a) implies #[trigger] p.is_prefix_of(a + b) by {
        lemma_prefix_extends(p, a, b);
    }
    assert forall|a: Seq<char>, b: Seq<char>|
        is_single_statement(a) && is_single_statement(b) implies #[trigger] is_single_statement(a + b) by {
        lemma_single_concat(a, b);
    }
    assert forall|x: Seq<char>| #[trigger] is_single_statement(quote_ident(x)) by {
        lemma_quoted_identifier_is_closed(x);
    }
    assert forall|n: nat| #[trigger] is_single_statement(decimal(n)) by {
        lemma_decimal_plain(n);
        lemma_scan_plain(decimal(n));
    }
    lemma_float_text_plain(mean);
    lemma_scan_plain(mean);
    lemma_literals_are_single();
    reveal_strlit("SELECT ");
    reveal_strlit("PRAGMA ");
    reveal_strlit("SELECT COUNT(*) FROM ");
    reveal_strlit("PRAGMA table_info(");
    reveal_strlit("SELECT * FROM ");
    reveal_strlit("PRAGMA index_list(");
    reveal_strlit("PRAGMA index_info(");
    reveal_strlit("SELECT COUNT(DISTINCT ");
    reveal_strlit("SELECT MIN(");
    reveal_strlit("SELECT AVG((");
    reveal_strlit("SELECT MIN(LENGTH(");
    reveal_strlit(
        "SELECT name FROM sqlite_master WHERE type='table' AND name NOT LIKE 'sqlite\\_%' ESCAPE '\\' ORDER BY name",
    );
    reveal_strlit("SELECT COUNT(*) FROM sqlite_master WHERE type='table' AND name = ?");
    let sel = "SELECT "@;
    let pra = "PRAGMA "@;
    assert(sel.is_prefix_of("SELECT COUNT(*) FROM "@));
    assert(sel.is_prefix_of(
        "SELECT name FROM sqlite_master WHERE type='table' AND name NOT LIKE 'sqlite\\_%' ESCAPE '\\' ORDER BY name"@,
    ));
    assert(sel.is_prefix_of("SELECT COUNT(*) FROM sqlite_master WHERE type='table' AND name = ?"@));
    assert(pra.is_prefix_of("PRAGMA table_info("@));
    assert(sel.is_prefix_of("SELECT * FROM "@));
    assert(sel.is_prefix_of(sel));
    assert(pra.is_prefix_of("PRAGMA index_list("@));
    assert(pra.is_prefix_of("PRAGMA index_info("@));
    assert(sel.is_prefix_of("SELECT COUNT(DISTINCT "@));
    assert(sel.is_prefix_of("SELECT MIN("@));
    assert(sel.is_prefix_of("SELECT AVG(("@));
    assert(sel.is_prefix_of("SELECT MIN(LENGTH("@));
}

/// Whether a table exists, given how many entries of the schema table carry
/// its name.
pub fn exists_from_count(count: i64) -> (r: bool)
    ensures
        r == (count > 0),
{
    count > 0
}

/// A value read from a table cell. A floating-point value is carried as the
/// text the caller rendered it to, since the library does not compute with
/// floating point.
#[derive(Debug, Clone)]
pub enum CellValue {
    Null,
    Integer(i64),
    Real(String),
    Text(String),
    Blob(Vec<u8>),
}

/// How a cell value is shown in a table of records.
pub open spec fn value_text(v: CellValue) -> Seq<char> {
    match v {
        CellValue::Null => "NULL"@,
        CellValue::Integer(i) => signed_decimal(i as int),
        CellValue::Real(t) => t@,
        CellValue::Text(s) => s@,
        CellValue::Blob(b) => "<BLOB "@ + decimal(b@.len()) + " bytes>"@,
    }
}

/// Formats a value as a display string.
pub fn format_value(value: &CellValue) -> (r: String)
    ensures
        r@ == value_text(*value),
{
    match value {
        CellValue::Null => String::from_str("NULL"),
        CellValue::Integer(i) => signed_decimal_string(*i),
        CellValue::Real(t) => t.clone(),
        CellValue::Text(s) => s.clone(),
        CellValue::Blob(b) => {
            let mut out = String::from_str("<BLOB ");
            push_decimal(&mut out, b.len() as u64);
            out.append(" bytes>");
            out
        },
    }
}

/// Formats every value of a row.
pub fn format_row(values: &Vec<CellValue>) -> (r: Vec<String>)
    ensures
        r.len() == values.len(),
        forall|i: int| 0 <= i < values.len() ==> #[trigger] r[i]@ == value_text(values[i]),
{
    let mut out: Vec<String> = Vec::new();
    let mut i: usize = 0;
    while i < values.len()
        invariant
            i <= values.len(),
            out.len() == i,
            forall|k: int| 0 <= k < i ==> #[trigger] out[k]@ == value_text(values[k]),
        decreases values.len() - i,
    {
        out.push(format_value(&values[i]));
        i = i + 1;
    }
    out
}

} // verus!
