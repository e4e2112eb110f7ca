//! The statements and decisions behind column statistics.

use vstd::prelude::*;
use crate::db::{push_quoted, quote_ident};
use crate::numbers::{
    decimal, format_count, is_float_text, push_decimal, signed_grouped,
};
use crate::schema::type_purpose;
use crate::text::{can_truncate, has_infix, str_eq, to_uppercase, truncate_str, truncated, unicode_uppercase};

verus! {

/// Whether a declared type, in upper case, is one that statistics treat as
/// numeric.
pub open spec fn numeric_type_name(t: Seq<char>) -> bool {
    t == "INTEGER"@ || t == "INT"@ || t == "REAL"@ || t == "FLOAT"@ || t == "DOUBLE"@ || t
        == "NUMERIC"@ || t == "DECIMAL"@
}

/// Which statistics a column gets: numeric ones, or text ones.
#[derive(Debug, Clone, Copy, PartialEq, Eq, Structural)]
pub enum StatsKind {
    Numeric,
    Text,
}

/// Whether a declared type, already in upper case, is one that statistics
/// treat as numeric.
pub fn is_numeric_type_name(type_upper: &str) -> (r: bool)
    ensures
        r == numeric_type_name(type_upper@),
{
    let t = type_upper;
    str_eq(t, "INTEGER") || str_eq(t, "INT") || str_eq(t, "REAL") || str_eq(t, "FLOAT")
        || str_eq(t, "DOUBLE") || str_eq(t, "NUMERIC") || str_eq(t, "DECIMAL")
}

/// Which statistics a column of this declared type gets: numeric ones when
/// the type, compared in upper case, is numeric, and text ones otherwise;
/// never both.
pub fn stats_kind(data_type: &str) -> (r: StatsKind)
    ensures
        r == (if numeric_type_name(unicode_uppercase(data_type@)) {
            StatsKind::Numeric
        } else {
            StatsKind::Text
        }),
{
    let t = to_uppercase(data_type);
    if is_numeric_type_name(t.as_str()) {
        StatsKind::Numeric
    } else {
        StatsKind::Text
    }
}

/// The text of the statement that `null_count_sql` builds.
pub open spec fn null_count_statement(table: Seq<char>, column: Seq<char>) -> Seq<char> {
    "SELECT COUNT(*) FROM "@ + quote_ident(table) + " WHERE "@ + quote_ident(column)
        + " IS NULL"@
}

/// The statement counting the nulls of a column.
pub fn null_count_sql(table: &str, column: &str) -> (r: String)
    ensures
        r@ == null_count_statement(table@, column@),
{
    let mut out = String::from_str("SELECT COUNT(*) FROM ");
    push_quoted(&mut out, table);
    out.append(" WHERE ");
    push_quoted(&mut out, column);
    out.append(" IS NULL");
    out
}

/// The text of the statement that `distinct_count_sql` builds.
pub open spec fn distinct_count_statement(table: Seq<char>, column: Seq<char>) -> Seq<char> {
    "SELECT COUNT(DISTINCT "@ + quote_ident(column) + ") FROM "@ + quote_ident(table)
}

/// The statement counting the distinct values of a column.
pub fn distinct_count_sql(table: &str, column: &str) -> (r: String)
    ensures
        r@ == distinct_count_statement(table@, column@),
{
    let mut out = String::from_str("SELECT COUNT(DISTINCT ");
    push_quoted(&mut out, column);
    out.append(") FROM ");
    push_quoted(&mut out, table);
    out
}

/// The text of the statement that `numeric_summary_sql` builds.
pub open spec fn numeric_summary_statement(table: Seq<char>, column: Seq<char>) -> Seq<char> {
    "SELECT MIN("@ + quote_ident(column) + "), MAX("@ + quote_ident(column) + "), AVG("@
        + quote_ident(column) + "), SUM("@ + quote_ident(column) + ") FROM "@
        + quote_ident(table) + " WHERE "@ + quote_ident(column) + " IS NOT NULL"@
}

/// The statement reading the minimum, maximum, mean and sum of a column's
/// non-null values.
pub fn numeric_summary_sql(table: &str, column: &str) -> (r: String)
    ensures
        r@ == numeric_summary_statement(table@, column@),
{
    let mut out = String::from_str("SELECT MIN(");
    push_quoted(&mut out, column);
    out.append("), MAX(");
    push_quoted(&mut out, column);
    out.append("), AVG(");
    push_quoted(&mut out, column);
    out.append("), SUM(");
    push_quoted(&mut out, column);
    out.append(") FROM ");
    push_quoted(&mut out, table);
    out.append(" WHERE ");
    push_quoted(&mut out, column);
    out.append(" IS NOT NULL");
    out
}

/// The text of the statement that `variance_sql` builds.
pub open spec fn variance_statement(table: Seq<char>, column: Seq<char>, mean: Seq<char>) -> Seq<char> {
    "SELECT AVG(("@ + quote_ident(column) + " - "@ + mean + ") * ("@ + quote_ident(column)
        + " - "@ + mean + ")) FROM "@ + quote_ident(table) + " WHERE "@ + quote_ident(column)
        + " IS NOT NULL"@
}

/// The statement reading the variance of a column's non-null values around
/// their mean, the mean given as the text a floating-point number displays
/// as and spliced in as it is written.
pub fn variance_sql(table: &str, column: &str, mean: &str) -> (r: String)
    requires
        is_float_text(mean@),
    ensures
        r@ == variance_statement(table@, column@, mean@),
{
    let mut out = String::from_str("SELECT AVG((");
    push_quoted(&mut out, column);
    out.append(" - ");
    out.append(mean);
    out.append(") * (");
    push_quoted(&mut out, column);
    out.append(" - ");
    out.append(mean);
    out.append(")) FROM ");
    push_quoted(&mut out, table);
    out.append(" WHERE ");
    push_quoted(&mut out, column);
    out.append(" IS NOT NULL");
    out
}

/// The text of the statement that `length_stats_sql` builds.
pub open spec fn length_stats_statement(table: Seq<char>, column: Seq<char>) -> Seq<char> {
    "SELECT MIN(LENGTH("@ + quote_ident(column) + ")), MAX(LENGTH("@ + quote_ident(column)
        + ")), AVG(LENGTH("@ + quote_ident(column) + ")) FROM "@ + quote_ident(table)
        + " WHERE "@ + quote_ident(column) + " IS NOT NULL"@
}

/// The statement reading the shortest, longest and mean length of a column's
/// non-null values.
pub fn length_stats_sql(table: &str, column: &str) -> (r: String)
    ensures
        r@ == length_stats_statement(table@, column@),
{
    let mut out = String::from_str("SELECT MIN(LENGTH(");
    push_quoted(&mut out, column);
    out.append(")), MAX(LENGTH(");
    push_quoted(&mut out, column);
    out.append(")), AVG(LENGTH(");
    push_quoted(&mut out, column);
    out.append(")) FROM ");
    push_quoted(&mut out, table);
    out.append(" WHERE ");
    push_quoted(&mut out, column);
    out.append(" IS NOT NULL");
    out
}

/// The text of the statement that `value_counts_sql` builds.
pub open spec fn value_counts_statement(table: Seq<char>, column: Seq<char>, limit: usize) -> Seq<char> {
    "SELECT "@ + quote_ident(column) + ", COUNT(*) as cnt FROM "@ + quote_ident(table)
        + " WHERE "@ + quote_ident(column) + " IS NOT NULL GROUP BY "@ + quote_ident(column)
        + " ORDER BY cnt DESC LIMIT "@ + decimal(limit as nat)
}

/// The statement reading the most frequent non-null values of a column with
/// their counts, most frequent first, at most `limit` of them.
pub fn value_counts_sql(table: &str, column: &str, limit: usize) -> (r: String)
    ensures
        r@ == value_counts_statement(table@, column@, limit),
{
    let mut out = String::from_str("SELECT ");
    push_quoted(&mut out, column);
    out.append(", COUNT(*) as cnt FROM ");
    push_quoted(&mut out, table);
    out.append(" WHERE ");
    push_quoted(&mut out, column);
    out.append(" IS NOT NULL GROUP BY ");
    push_quoted(&mut out, column);
    out.append(" ORDER BY cnt DESC LIMIT ");
    push_decimal(&mut out, limit as u64);
    out
}

/// The counts of a column as shown, with thousands separators.
pub struct CountsText {
    pub total: String,
    pub unique: String,
    pub nulls: String,
}

/// The counts of a column's statistics, as shown.
pub fn counts_text(total: i64, unique: i64, nulls: i64) -> (r: CountsText)
    ensures
        r.total@ == signed_grouped(total as int),
        r.unique@ == signed_grouped(unique as int),
        r.nulls@ == signed_grouped(nulls as int),
{
    CountsText { total: format_count(total), unique: format_count(unique), nulls: format_count(nulls) }
}

/// How many of the most common values the statistics list.
pub open spec fn shown_common(n: nat) -> nat {
    if n < 3 {
        n
    } else {
        3
    }
}

/// The most common values as listed: the first three, each shortened to 30
/// bytes, with their counts.
pub fn common_values_shown(most_common: &Vec<(String, i64)>) -> (r: Vec<(String, i64)>)
    requires
        forall|i: int| 0 <= i < shown_common(most_common.len() as nat) ==> can_truncate(#[trigger] most_common[i].0@, 30),
    ensures
        r.len() == shown_common(most_common.len() as nat),
        forall|i: int|
            0 <= i < r.len() ==> (#[trigger] r[i]).0@ == truncated(most_common[i].0@, 30) && r[i].1
                == most_common[i].1,
{
    let n: usize = if most_common.len() < 3 {
        most_common.len()
    } else {
        3
    };
    let mut out: Vec<(String, i64)> = Vec::new();
    let mut i: usize = 0;
    while i < n
        invariant
            n == shown_common(most_common.len() as nat),
            i <= n,
            out.len() == i,
            forall|k: int| 0 <= k < n ==> can_truncate(#[trigger] most_common[k].0@, 30),
            forall|k: int|
                0 <= k < i ==> (#[trigger] out[k]).0@ == truncated(most_common[k].0@, 30) && out[k].1
                    == most_common[k].1,
        decreases n - i,
    {
        out.push((truncate_str(most_common[i].0.as_str(), 30), most_common[i].1));
        i = i + 1;
    }
    out
}

/// Statistics agree with how a column's type is described: a type described
/// as text, binary data or a true/false flag gets text statistics, and a
/// type described as an integer or a decimal number gets numeric ones.
pub proof fn lemma_numeric_types_agree_with_descriptions(t: Seq<char>)
    ensures
        type_purpose(t) == "Text content"@ || type_purpose(t) == "Binary data"@ || type_purpose(t)
            == "True/false flag"@ ==> !numeric_type_name(t),
        type_purpose(t) == "Integer value"@ || type_purpose(t) == "Decimal number"@
            ==> numeric_type_name(t),
{
    reveal_strlit("INTEGER");
    reveal_strlit("INT");
    reveal_strlit("REAL");
    reveal_strlit("FLOAT");
    reveal_strlit("DOUBLE");
    reveal_strlit("NUMERIC");
    reveal_strlit("DECIMAL");
    reveal_strlit("TEXT");
    reveal_strlit("VARCHAR");
    reveal_strlit("BLOB");
    reveal_strlit("BOOLEAN");
    reveal_strlit("Integer value");
    reveal_strlit("Decimal number");
    reveal_strlit("Text content");
    reveal_strlit("Binary data");
    reveal_strlit("True/false flag");
    reveal_strlit("Data field");
    let firsts = seq![
        "INTEGER"@[0], "INT"@[0], "REAL"@[0], "FLOAT"@[0], "DOUBLE"@[0], "NUMERIC"@[0],
        "DECIMAL"@[0], "TEXT"@[0], "VARCHAR"@[0], "BLOB"@[0], "BOOLEAN"@[0],
    ];
    assert(firsts =~= seq!['I', 'I', 'R', 'F', 'D', 'N', 'D', 'T', 'V', 'B', 'B']);
    assert("Text content"@.len() == 12 && "Binary data"@.len() == 11 && "True/false flag"@.len() == 15);
    assert("Integer value"@.len() == 13 && "Decimal number"@.len() == 14 && "Data field"@.len() == 10);
    if t.len() > 0 {
        let c = t[0];
        if t == "TEXT"@ || t == "VARCHAR"@ || t == "BLOB"@ || t == "BOOLEAN"@ {
            assert(c == 'T' || c == 'V' || c == 'B');
        }
        if numeric_type_name(t) {
            assert(c == 'I' || c == 'R' || c == 'F' || c == 'D' || c == 'N');
        }
    }
}

/// A numeric type is one word of capital letters, so a type with a length or
/// precision, such as "DECIMAL(10,2)" or "VARCHAR(20)", gets text statistics.
pub proof fn lemma_numeric_types_are_bare_words(t: Seq<char>)
    ensures
        numeric_type_name(t) ==> t.len() > 0 && forall|i: int| 0 <= i < t.len() ==> 'A' <= #[trigger] t[i] <= 'Z',
{
    reveal_strlit("INTEGER");
    reveal_strlit("INT");
    reveal_strlit("REAL");
    reveal_strlit("FLOAT");
    reveal_strlit("DOUBLE");
    reveal_strlit("NUMERIC");
    reveal_strlit("DECIMAL");
}

/// Character and text types get text statistics: no numeric type contains
/// "CHAR" (as in "VARCHAR" or "NCHAR") or "TEXT".
pub proof fn lemma_character_types_get_text_statistics(t: Seq<char>)
    ensures
        has_infix(t, "CHAR"@) || has_infix(t, "TEXT"@) ==> !numeric_type_name(t),
{
    reveal_strlit("INTEGER");
    reveal_strlit("INT");
    reveal_strlit("REAL");
    reveal_strlit("FLOAT");
    reveal_strlit("DOUBLE");
    reveal_strlit("NUMERIC");
    reveal_strlit("DECIMAL");
    reveal_strlit("CHAR");
    reveal_strlit("TEXT");
    if has_infix(t, "CHAR"@) {
        let i = choose|i: int| 0 <= i <= t.len() - "CHAR"@.len() && #[trigger] t.subrange(i, i + "CHAR"@.len()) =~= "CHAR"@;
        assert(t.subrange(i, i + 4)[1] == 'H');
        assert(t[i + 1] == 'H');
    }
    if has_infix(t, "TEXT"@) {
        let i = choose|i: int| 0 <= i <= t.len() - "TEXT"@.len() && #[trigger] t.subrange(i, i + "TEXT"@.len()) =~= "TEXT"@;
        assert(t.subrange(i, i + 4)[2] == 'X');
        assert(t[i + 2] == 'X');
    }
    if numeric_type_name(t) {
        assert(forall|k: int| 0 <= k < t.len() ==> t[k] != 'H' && t[k] != 'X');
    }
}

} // verus!
