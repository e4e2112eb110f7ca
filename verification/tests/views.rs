use dbview::viz::{histogram_counts, histogram_data_notice};
use dbview::db::CellValue;
use dbview::display::{
    bar_chart_view, bar_label, describe_view, infer_table_purpose, records_view, schema_view,
    summary_view, tables_listing, BarChart, TableEntry, TablesListing,
};
use dbview::schema::{ColumnInfo, IndexInfo, TableInfo};
use dbview::stats::{common_values_shown, counts_text};

fn col(name: &str, data_type: &str, nullable: bool, primary_key: bool) -> ColumnInfo {
    ColumnInfo {
        name: name.to_string(),
        data_type: data_type.to_string(),
        nullable,
        primary_key,
        default_value: None,
    }
}

fn entry(name: &str, rows: Option<i64>, columns: Option<usize>) -> TableEntry {
    TableEntry { name: name.to_string(), row_count: rows, column_count: columns }
}

#[test]
fn table_purposes() {
    let none: Vec<ColumnInfo> = vec![];
    assert_eq!(infer_table_purpose(&none, "Users"), "The 'Users' table stores user/account information.");
    assert_eq!(infer_table_purpose(&none, "orders"), "The 'orders' table tracks order/purchase records.");
    assert_eq!(infer_table_purpose(&none, "line_items"), "The 'line_items' table contains product/inventory data.");
    assert_eq!(infer_table_purpose(&none, "catalog"), "The 'catalog' table maintains a log or history of events.");
    assert_eq!(infer_table_purpose(&none, "app_settings"), "The 'app_settings' table stores configuration or settings.");
    assert_eq!(infer_table_purpose(&none, "SESSIONS"), "The 'SESSIONS' table manages sessions or authentication tokens.");
    assert_eq!(
        infer_table_purpose(&none, "post_to_tag"),
        "The 'post_to_tag' table appears to be a junction/mapping table for many-to-many relationships."
    );
    assert_eq!(infer_table_purpose(&none, "places"), "The 'places' table stores related data records.");
}

#[test]
fn junction_tables_are_told_by_their_columns() {
    let pair = vec![col("Student_ID", "INTEGER", false, false), col("course_id", "INTEGER", false, false)];
    assert_eq!(
        infer_table_purpose(&pair, "enrollment"),
        "The 'enrollment' table appears to be a junction/mapping table for many-to-many relationships."
    );
    let mut wide = pair.clone();
    wide.push(col("a", "TEXT", true, false));
    wide.push(col("b", "TEXT", true, false));
    assert_eq!(infer_table_purpose(&wide, "enrollment"), "The 'enrollment' table stores related data records.");
    let one = vec![col("student_id", "INTEGER", false, false), col("grade", "TEXT", true, false)];
    assert_eq!(infer_table_purpose(&one, "enrollment"), "The 'enrollment' table stores related data records.");
}

fn sample_info() -> TableInfo {
    let mut email = col("email", "TEXT", false, false);
    email.default_value = Some("'none'".to_string());
    TableInfo {
        name: "users".to_string(),
        columns: vec![col("id", "INTEGER", true, true), email],
        row_count: 1234567,
        indexes: vec![
            IndexInfo { name: "idx_email".to_string(), unique: true, columns: vec!["email".to_string()] },
            IndexInfo { name: "idx_pair".to_string(), unique: false, columns: vec!["id".to_string(), "email".to_string()] },
        ],
    }
}

#[test]
fn schema_view_shows_columns_and_indexes() {
    let v = schema_view("users", &sample_info());
    assert_eq!(v.title, "\u{1F4CB} Schema: users");
    assert_eq!(v.rows_caption, "1,234,567 rows");
    assert_eq!(v.columns.len(), 2);
    assert_eq!(v.columns[0].nullable, "YES");
    assert!(v.columns[0].nullable_flag);
    assert_eq!(v.columns[0].primary_key, "\u{2713}");
    assert_eq!(v.columns[0].default_value, "-");
    assert_eq!(v.columns[1].nullable, "NO");
    assert_eq!(v.columns[1].primary_key, "");
    assert_eq!(v.columns[1].default_value, "'none'");
    assert_eq!(v.indexes[0].columns, "email");
    assert_eq!(v.indexes[0].unique, " (unique)");
    assert_eq!(v.indexes[1].columns, "id, email");
    assert_eq!(v.indexes[1].unique, "");
}

#[test]
fn describe_view_tells_each_column() {
    let v = describe_view("users", &sample_info());
    assert_eq!(v.title, "\u{1F50D} Description: users");
    assert_eq!(v.purpose, "The 'users' table stores user/account information.");
    assert_eq!(v.row_count, "1,234,567");
    assert_eq!(v.column_count, "2");
    assert_eq!(v.columns[0].primary_key_mark, " [PRIMARY KEY]");
    assert_eq!(v.columns[0].required_mark, "");
    assert_eq!(v.columns[0].purpose, "Primary identifier");
    assert_eq!(v.columns[1].primary_key_mark, "");
    assert_eq!(v.columns[1].required_mark, " (required)");
    assert_eq!(v.columns[1].purpose, "Email address");
}

#[test]
fn thousands_are_grouped() {
    let c = counts_text(1000, 999, -1234567);
    assert_eq!(c.total, "1,000");
    assert_eq!(c.unique, "999");
    assert_eq!(c.nulls, "-1,234,567");
    let c = counts_text(0, 100000, i64::MAX);
    assert_eq!(c.total, "0");
    assert_eq!(c.unique, "100,000");
    assert_eq!(c.nulls, "9,223,372,036,854,775,807");
    assert_eq!(counts_text(i64::MIN, 1, 1).total, "-9,223,372,036,854,775,808");
}

#[test]
fn grouped_counts_lose_only_commas() {
    for n in [0i64, 7, 999, 1000, 1001, 65536, -42, -100000, 123456789] {
        assert_eq!(counts_text(n, 0, 0).total.replace(',', ""), n.to_string());
    }
}

#[test]
fn tables_listing_defaults_unread_counts_to_zero() {
    match tables_listing(&vec![entry("a", Some(1500), Some(3)), entry("b", None, None)]) {
        TablesListing::Tables { rows, total } => {
            assert_eq!(rows.len(), 2);
            assert_eq!(rows[0].name, "a");
            assert_eq!(rows[0].rows, "1,500");
            assert_eq!(rows[0].columns, "3");
            assert_eq!(rows[1].rows, "0");
            assert_eq!(rows[1].columns, "0");
            assert_eq!(total, "Total: 2 tables");
        }
        TablesListing::NoTables { .. } => panic!("tables expected"),
    }
}

#[test]
fn empty_database_shows_only_a_notice() {
    match tables_listing(&vec![]) {
        TablesListing::NoTables { notice } => assert_eq!(notice, "No tables found in database."),
        TablesListing::Tables { .. } => panic!("notice expected"),
    }
}

#[test]
fn summary_totals_and_picks_last_largest() {
    let v = summary_view(&vec![
        entry("a", Some(5), Some(2)),
        entry("b", None, Some(3)),
        entry("c", Some(5), None),
        entry("d", Some(1), Some(1)),
    ]);
    assert_eq!(v.table_count, "4");
    assert_eq!(v.total_rows, 11);
    assert_eq!(v.total_rows_text, "11");
    assert_eq!(v.largest, Some(2));
    assert_eq!(v.rows[1].rows, 0);
    assert_eq!(v.rows[2].columns, 0);
    assert_eq!(v.rows[0].rows_text, "5");
    let empty = summary_view(&vec![]);
    assert_eq!(empty.largest, None);
    assert_eq!(empty.total_rows, 0);
    assert_eq!(empty.table_count, "0");
    let big = summary_view(&vec![entry("x", Some(2000), Some(1)), entry("y", Some(3000), Some(1))]);
    assert_eq!(big.total_rows_text, "5,000");
    assert_eq!(big.largest, Some(1));
}

#[test]
fn records_view_pages_and_hints() {
    let columns = vec!["id".to_string(), "note".to_string()];
    let long = "y".repeat(40);
    let rows = vec![
        vec!["1".to_string(), "NULL".to_string()],
        vec!["2".to_string(), long.clone()],
    ];
    let v = records_view("notes", &columns, &rows, 5000, 2, 10);
    assert_eq!(v.title, "\u{1F4C4} Records: notes");
    assert_eq!(v.caption, "Showing 2 of 5,000 rows (offset: 10)");
    assert_eq!(v.header, columns);
    assert!(v.rows[0][1].is_null);
    assert_eq!(v.rows[0][1].text, "NULL");
    assert!(!v.rows[1][1].is_null);
    assert_eq!(v.rows[1][1].text, format!("{}\u{2026}", "y".repeat(29)));
    assert_eq!(v.more_hint, Some("Use --offset 12 to see more rows".to_string()));
    assert_eq!(v.empty_notice, None);

    let last = records_view("notes", &columns, &rows, 12, 20, 10);
    assert_eq!(last.caption, "Showing 2 of 12 rows (offset: 10)");
    assert_eq!(last.more_hint, None);

    let none = records_view("notes", &columns, &vec![], 0, 20, 0);
    assert_eq!(none.caption, "Showing 0 of 0 rows (offset: 0)");
    assert!(none.rows.is_empty());
    assert_eq!(none.more_hint, None);
    assert_eq!(none.empty_notice, Some("No records found.".to_string()));

    // An empty page of a table that has rows shows the notice and no hint,
    // even where the next offset would not fit.
    let empty_page = records_view("notes", &columns, &vec![], 5, 0, 0);
    assert_eq!(empty_page.empty_notice, Some("No records found.".to_string()));
    assert_eq!(empty_page.more_hint, None);
    let far = records_view("notes", &columns, &vec![], 5, usize::MAX, 3);
    assert_eq!(far.more_hint, None);
}

#[test]
fn bar_chart_labels_and_scale() {
    assert_eq!(bar_label(&CellValue::Blob(vec![1, 2])), "<BLOB>");
    assert_eq!(bar_label(&CellValue::Integer(-3)), "-3");
    assert_eq!(bar_label(&CellValue::Null), "NULL");
    assert_eq!(bar_label(&CellValue::Text("red".to_string())), "red");
    assert_eq!(bar_label(&CellValue::Real("0.50".to_string())), "0.50");
    let data = vec![("red".to_string(), 3i64), ("green".to_string(), 7), ("blue".to_string(), 7)];
    let v = match bar_chart_view(&data) {
        BarChart::Chart { view } => view,
        BarChart::NoData { .. } => panic!("chart expected"),
    };
    assert_eq!(v.label_width, 5);
    assert_eq!(v.max_count, 7);
    assert_eq!(v.labels, vec!["red".to_string(), "green".to_string(), "blue".to_string()]);
    let wide = vec![("a".repeat(25), 1i64), ("b".to_string(), 2)];
    let w = match bar_chart_view(&wide) {
        BarChart::Chart { view } => view,
        BarChart::NoData { .. } => panic!("chart expected"),
    };
    assert_eq!(w.label_width, 20);
    assert_eq!(w.labels[0], format!("{}\u{2026}", "a".repeat(19)));
    assert_eq!(w.labels[1], "b");
    match bar_chart_view(&vec![]) {
        BarChart::NoData { notice } => assert_eq!(notice, "No data found for bar chart"),
        BarChart::Chart { .. } => panic!("notice expected"),
    }
}

#[test]
fn most_common_values_listed() {
    let values = vec![
        ("Text(\"a\")".to_string(), 9i64),
        ("z".repeat(35), 8),
        ("c".to_string(), 7),
        ("d".to_string(), 6),
    ];
    let shown = common_values_shown(&values);
    assert_eq!(shown.len(), 3);
    assert_eq!(shown[0], ("Text(\"a\")".to_string(), 9));
    assert_eq!(shown[1], (format!("{}\u{2026}", "z".repeat(29)), 8));
    assert_eq!(shown[2], ("c".to_string(), 7));
    assert!(common_values_shown(&vec![]).is_empty());
}

#[test]
fn histogram_counts_clamp_into_the_last_bin() {
    let h = histogram_counts(&vec![0, 1, 1, 3, 4, 7, 2], 4);
    assert_eq!(h.counts, vec![1, 2, 1, 3]);
    assert_eq!(h.max_count, 3);
    let one = histogram_counts(&vec![5, 0, 9], 1);
    assert_eq!(one.counts, vec![3]);
    assert_eq!(one.max_count, 3);
    assert_eq!(histogram_data_notice(0), Some("No numeric data found for histogram".to_string()));
    assert_eq!(histogram_data_notice(4), None);
    let none = histogram_counts(&vec![], 3);
    assert_eq!(none.counts, vec![0, 0, 0]);
    assert_eq!(none.max_count, 0);
}
