use dbview::numbers::{check_float_text, check_number_text};
use dbview::db::{
    column_values_sql, escape_identifier, exists_from_count, fetch_rows_sql, format_row,
    format_value, list_tables_sql, row_count_sql, table_exists_sql, table_info_sql, CellValue,
};
use dbview::schema::{index_info_sql, index_list_sql};
use dbview::stats::{
    distinct_count_sql, is_numeric_type_name, length_stats_sql, null_count_sql,
    numeric_summary_sql, stats_kind, value_counts_sql, variance_sql, StatsKind,
};

#[test]
fn escape_identifier_doubles_quotes() {
    assert_eq!(escape_identifier("users"), "users");
    assert_eq!(escape_identifier("we\"ird"), "we\"\"ird");
    assert_eq!(escape_identifier("\""), "\"\"");
    assert_eq!(escape_identifier(""), "");
    assert_eq!(escape_identifier("\"a\"\""), "\"\"a\"\"\"\"");
}

/// Reads a quoted identifier body the way SQL does; returns the name and the
/// rest of the text after the closing quote.
fn read_back(t: &str) -> Option<(String, String)> {
    let chars: Vec<char> = t.chars().collect();
    let mut name = String::new();
    let mut i = 0;
    while i < chars.len() {
        if chars[i] == '"' {
            if i + 1 < chars.len() && chars[i + 1] == '"' {
                name.push('"');
                i += 2;
            } else {
                return Some((name, chars[i + 1..].iter().collect()));
            }
        } else {
            name.push(chars[i]);
            i += 1;
        }
    }
    None
}

#[test]
fn escaped_name_reads_back_and_stops_at_its_quote() {
    for name in ["plain", "a\"b", "x\"; DROP TABLE t; --", "\"\"\"", "ünï\"cødé"] {
        let text = format!("{}\" FROM x", escape_identifier(name));
        let (read, rest) = read_back(&text).unwrap();
        assert_eq!(read, name);
        assert_eq!(rest, " FROM x");
    }
}

#[test]
fn different_names_escape_differently() {
    let names = ["a", "a\"", "a\"\"", "\"a", "", "\"", "ab"];
    for x in names.iter() {
        for y in names.iter() {
            assert_eq!(escape_identifier(x) == escape_identifier(y), x == y);
        }
    }
}

#[test]
fn statements_quote_their_names() {
    assert_eq!(row_count_sql("my\"tab"), "SELECT COUNT(*) FROM \"my\"\"tab\"");
    assert_eq!(table_info_sql("users"), "PRAGMA table_info(\"users\")");
    assert_eq!(
        fetch_rows_sql("products", 10, 20),
        "SELECT * FROM \"products\" LIMIT 10 OFFSET 20"
    );
    assert_eq!(fetch_rows_sql("t", 0, 0), "SELECT * FROM \"t\" LIMIT 0 OFFSET 0");
    assert_eq!(
        column_values_sql("t", "price"),
        "SELECT \"price\" FROM \"t\" WHERE \"price\" IS NOT NULL AND typeof(\"price\") IN ('integer', 'real')"
    );
    assert_eq!(index_list_sql("users"), "PRAGMA index_list(\"users\")");
    assert_eq!(index_info_sql("idx\"1"), "PRAGMA index_info(\"idx\"\"1\")");
}

#[test]
fn statistics_statements() {
    assert_eq!(
        null_count_sql("t", "c"),
        "SELECT COUNT(*) FROM \"t\" WHERE \"c\" IS NULL"
    );
    assert_eq!(
        distinct_count_sql("t", "c"),
        "SELECT COUNT(DISTINCT \"c\") FROM \"t\""
    );
    assert_eq!(
        numeric_summary_sql("t", "c"),
        "SELECT MIN(\"c\"), MAX(\"c\"), AVG(\"c\"), SUM(\"c\") FROM \"t\" WHERE \"c\" IS NOT NULL"
    );
    assert_eq!(
        variance_sql("t", "c", "2.5"),
        "SELECT AVG((\"c\" - 2.5) * (\"c\" - 2.5)) FROM \"t\" WHERE \"c\" IS NOT NULL"
    );
    assert_eq!(
        variance_sql("t", "c", "-3"),
        "SELECT AVG((\"c\" - -3) * (\"c\" - -3)) FROM \"t\" WHERE \"c\" IS NOT NULL"
    );
    // A mean that displays as infinity or NaN is spliced in as it is.
    assert_eq!(
        variance_sql("t", "c", &f64::INFINITY.to_string()),
        "SELECT AVG((\"c\" - inf) * (\"c\" - inf)) FROM \"t\" WHERE \"c\" IS NOT NULL"
    );
    assert_eq!(
        variance_sql("t", "c", &f64::NAN.to_string()),
        "SELECT AVG((\"c\" - NaN) * (\"c\" - NaN)) FROM \"t\" WHERE \"c\" IS NOT NULL"
    );
    assert_eq!(
        length_stats_sql("t", "c"),
        "SELECT MIN(LENGTH(\"c\")), MAX(LENGTH(\"c\")), AVG(LENGTH(\"c\")) FROM \"t\" WHERE \"c\" IS NOT NULL"
    );
    assert_eq!(
        value_counts_sql("t", "c", 5),
        "SELECT \"c\", COUNT(*) as cnt FROM \"t\" WHERE \"c\" IS NOT NULL GROUP BY \"c\" ORDER BY cnt DESC LIMIT 5"
    );
}

#[test]
fn every_statement_only_reads() {
    assert_eq!(
        list_tables_sql(),
        "SELECT name FROM sqlite_master WHERE type='table' AND name NOT LIKE 'sqlite\\_%' ESCAPE '\\' ORDER BY name"
    );
    assert_eq!(
        table_exists_sql(),
        "SELECT COUNT(*) FROM sqlite_master WHERE type='table' AND name = ?"
    );
    let statements = [
        list_tables_sql().to_string(),
        table_exists_sql().to_string(),
        row_count_sql("a\"; DELETE FROM b; --"),
        table_info_sql("x"),
        fetch_rows_sql("x", 1, 2),
        column_values_sql("x", "y"),
        index_list_sql("x"),
        index_info_sql("x"),
        null_count_sql("x", "y"),
        distinct_count_sql("x", "y"),
        numeric_summary_sql("x", "y"),
        variance_sql("x", "y", "1"),
        variance_sql("x", "y", "-inf"),
        length_stats_sql("x", "y"),
        value_counts_sql("x", "y", 3),
    ];
    for s in statements.iter() {
        assert!(s.starts_with("SELECT ") || s.starts_with("PRAGMA "), "{}", s);
        assert!(is_single(s), "{}", s);
    }
    assert!(is_single(&row_count_sql("a;b\"c")));
    assert!(is_single(&fetch_rows_sql("x\"; DROP TABLE y; --", 1, 2)));
}

/// Reads SQL text the way the library's statement law does: a semicolon
/// outside quotes ends a statement, and every quote must close.
fn is_single(s: &str) -> bool {
    #[derive(PartialEq)]
    enum Q {
        Out,
        Ident,
        Str,
    }
    let mut q = Q::Out;
    for c in s.chars() {
        q = match q {
            Q::Out if c == '"' => Q::Ident,
            Q::Out if c == '\'' => Q::Str,
            Q::Out if c == ';' => return false,
            Q::Out => Q::Out,
            Q::Ident if c == '"' => Q::Out,
            Q::Ident => Q::Ident,
            Q::Str if c == '\'' => Q::Out,
            Q::Str => Q::Str,
        };
    }
    q == Q::Out
}

#[test]
fn table_exists_when_counted() {
    assert!(exists_from_count(1));
    assert!(exists_from_count(3));
    assert!(!exists_from_count(0));
}

#[test]
fn values_render_like_cells() {
    assert_eq!(format_value(&CellValue::Null), "NULL");
    assert_eq!(format_value(&CellValue::Integer(42)), "42");
    assert_eq!(format_value(&CellValue::Integer(-7)), "-7");
    assert_eq!(format_value(&CellValue::Integer(0)), "0");
    assert_eq!(
        format_value(&CellValue::Integer(i64::MIN)),
        "-9223372036854775808"
    );
    assert_eq!(format_value(&CellValue::Real("3.1416".to_string())), "3.1416");
    assert_eq!(format_value(&CellValue::Text("hello".to_string())), "hello");
    assert_eq!(format_value(&CellValue::Blob(vec![1, 2, 3])), "<BLOB 3 bytes>");
    assert_eq!(format_value(&CellValue::Blob(vec![])), "<BLOB 0 bytes>");
    let row = format_row(&vec![CellValue::Integer(1), CellValue::Null]);
    assert_eq!(row, vec!["1".to_string(), "NULL".to_string()]);
}

#[test]
fn numeric_types_are_recognised_in_any_case() {
    for t in ["INTEGER", "int", "Real", "float", "DOUBLE", "numeric", "Decimal"] {
        assert_eq!(stats_kind(t), StatsKind::Numeric, "{}", t);
    }
    for t in ["TEXT", "VARCHAR(20)", "BLOB", "", "BIGINT"] {
        assert_eq!(stats_kind(t), StatsKind::Text, "{}", t);
    }
    assert!(is_numeric_type_name("DECIMAL"));
    assert!(!is_numeric_type_name("decimal"));
}

#[test]
fn number_texts() {
    for good in ["0", "2.5", "-3", "-0.125", "123456789.000001"] {
        assert!(check_number_text(good), "{}", good);
    }
    for bad in ["", "-", "inf", "NaN", "1.", ".1", "1..2", "1.2.3", "1e5", "+1", " 1"] {
        assert!(!check_number_text(bad), "{}", bad);
    }
    for x in [0.0f64, -0.0, 2.5, -1e300, 1e-300, f64::MAX, f64::INFINITY, f64::NEG_INFINITY, f64::NAN] {
        assert!(check_float_text(&x.to_string()), "{}", x);
    }
    for bad in ["Inf", "nan", "1; DROP TABLE t", "x"] {
        assert!(!check_float_text(bad), "{}", bad);
    }
}
