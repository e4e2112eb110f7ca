use dbview::error::DbViewError;
use dbview::schema::{
    classify_column, column_from_pragma, describe_type, index_from_pragma, infer_column_purpose,
    require_table, ColumnInfo,
};
use dbview::text::{contains_str, ends_with_str, join_strings, starts_with_str, str_eq, truncate_str, utf8_length};

fn col(name: &str, data_type: &str, primary_key: bool) -> ColumnInfo {
    ColumnInfo {
        name: name.to_string(),
        data_type: data_type.to_string(),
        nullable: true,
        primary_key,
        default_value: None,
    }
}

fn purpose(name: &str, data_type: &str, primary_key: bool) -> String {
    infer_column_purpose(&col(name, data_type, primary_key))
}

#[test]
fn identifiers_and_keys() {
    assert_eq!(purpose("id", "INTEGER", true), "Primary identifier");
    assert_eq!(purpose("ID", "INTEGER", true), "Primary identifier");
    assert_eq!(purpose("user_id", "INTEGER", true), "Primary identifier");
    assert_eq!(purpose("user_id", "INTEGER", false), "Foreign key reference");
    assert_eq!(purpose("id_customer", "INTEGER", false), "Foreign key reference");
    assert_eq!(purpose("id", "INTEGER", false), "Integer value");
}

#[test]
fn names_tell_the_purpose() {
    assert_eq!(purpose("EMAIL", "TEXT", false), "Email address");
    assert_eq!(purpose("first_name", "TEXT", false), "First name");
    assert_eq!(purpose("LastName", "TEXT", false), "Last name");
    assert_eq!(purpose("username", "TEXT", false), "Name field");
    assert_eq!(purpose("phone", "TEXT", false), "Phone number");
    assert_eq!(purpose("hotel", "TEXT", false), "Phone number");
    assert_eq!(purpose("address", "TEXT", false), "Address information");
    assert_eq!(purpose("created_date", "TEXT", false), "Creation timestamp");
    assert_eq!(purpose("updated_at", "TEXT", false), "Last modification timestamp");
    assert_eq!(purpose("timestamp", "TEXT", false), "Date/time value");
    assert_eq!(purpose("unit_price", "REAL", false), "Monetary value");
    assert_eq!(purpose("qty", "INTEGER", false), "Quantity/count");
    assert_eq!(purpose("order_status", "TEXT", false), "Status indicator");
    assert_eq!(purpose("is_active", "INTEGER", false), "Boolean flag");
    assert_eq!(purpose("description", "TEXT", false), "Description text");
    assert_eq!(purpose("homepage_url", "TEXT", false), "URL/link");
    assert_eq!(purpose("avatar", "BLOB", false), "Image reference");
}

#[test]
fn types_decide_when_names_do_not() {
    assert_eq!(purpose("x", "integer", false), "Integer value");
    assert_eq!(purpose("x", "Int", false), "Integer value");
    assert_eq!(purpose("x", "double", false), "Decimal number");
    assert_eq!(purpose("x", "varchar", false), "Text content");
    assert_eq!(purpose("x", "VARCHAR(20)", false), "Data field");
    assert_eq!(purpose("x", "blob", false), "Binary data");
    assert_eq!(purpose("x", "Boolean", false), "True/false flag");
    assert_eq!(purpose("x", "", false), "Data field");
    assert_eq!(describe_type("REAL"), "Decimal number");
    assert_eq!(classify_column("email", false, "TEXT"), "Email address");
    assert_eq!(classify_column("EMAIL", false, "TEXT"), "Text content");
}

#[test]
fn pragma_rows_become_columns_and_indexes() {
    let c = column_from_pragma("id".to_string(), Some("INTEGER".to_string()), 1, None, 1);
    assert_eq!(c.name, "id");
    assert_eq!(c.data_type, "INTEGER");
    assert!(!c.nullable);
    assert!(c.primary_key);
    assert_eq!(c.default_value, None);
    let c = column_from_pragma("n".to_string(), None, 0, Some("'x'".to_string()), 0);
    assert_eq!(c.data_type, "UNKNOWN");
    assert!(c.nullable);
    assert!(!c.primary_key);
    assert_eq!(c.default_value, Some("'x'".to_string()));
    let i = index_from_pragma("idx".to_string(), 1, Some(vec!["a".to_string(), "b".to_string()]));
    assert!(i.unique);
    assert_eq!(i.columns, vec!["a".to_string(), "b".to_string()]);
    let i = index_from_pragma("idx2".to_string(), 0, None);
    assert!(!i.unique);
    assert!(i.columns.is_empty());
}

#[test]
fn missing_table_is_refused_by_name() {
    assert!(require_table("users", true).is_ok());
    let err = require_table("ghost", false).unwrap_err();
    assert_eq!(err, DbViewError::TableNotFound("ghost".to_string()));
    assert_eq!(err.message(), "Table 'ghost' does not exist");
}

#[test]
fn text_search_helpers() {
    assert!(contains_str("created_at", "ate"));
    assert!(contains_str("abc", ""));
    assert!(!contains_str("ab", "abc"));
    assert!(starts_with_str("id_x", "id_"));
    assert!(!starts_with_str("i", "id_"));
    assert!(ends_with_str("user_id", "_id"));
    assert!(!ends_with_str("user_idx", "_id"));
    assert!(str_eq("a\u{e9}", "a\u{e9}"));
    assert!(!str_eq("a", "ab"));
    assert_eq!(join_strings(&vec![], ", "), "");
    assert_eq!(join_strings(&vec!["a".to_string()], ", "), "a");
    assert_eq!(
        join_strings(&vec!["a".to_string(), "b".to_string(), "c".to_string()], ", "),
        "a, b, c"
    );
}

#[test]
fn truncation_cuts_at_bytes_and_marks_the_cut() {
    assert_eq!(truncate_str("hello", 10), "hello");
    assert_eq!(truncate_str("abcdefghij", 10), "abcdefghij");
    assert_eq!(truncate_str("abcdefghijk", 10), "abcdefghi\u{2026}");
    assert_eq!(truncate_str("", 0), "");
    // Two-byte characters: the cut falls after "h\u{e9}" (3 bytes).
    assert_eq!(truncate_str("h\u{e9}llo w\u{f6}rld", 4), "h\u{e9}\u{2026}");
    assert_eq!(utf8_length("h\u{e9}llo"), 6);
    assert_eq!(utf8_length("\u{1F4CA}"), 4);
    for t in ["", "abc", "h\u{e9}llo", "\u{20AC}100", "\u{1F4CA} chart", "\u{7FF}\u{800}\u{FFFF}\u{10000}"] {
        assert_eq!(utf8_length(t), t.len() as u128);
    }
    let long = "x".repeat(100);
    let cut = truncate_str(&long, 30);
    assert_eq!(cut.chars().count(), 30);
    assert_eq!(cut.len(), 32);
}
