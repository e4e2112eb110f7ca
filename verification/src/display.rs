//! What the explorer's commands show, computed as text ready to print.

use vstd::prelude::*;
use crate::numbers::{
    decimal, format_count, push_decimal, signed_decimal, signed_decimal_string, signed_grouped,
};
use crate::db::CellValue;
use crate::schema::{column_purpose, infer_column_purpose, ColumnInfo, IndexInfo, TableInfo};
use crate::text::{
    can_truncate, chars_before_byte, contains_str, ellipsis, is_byte_boundary, ends_with, ends_with_str, has_infix, join, join_strings, str_eq,
    texts, to_lowercase, truncate_str, truncated, unicode_lowercase, unicode_uppercase, utf8_len,
    utf8_length,
};

verus! {

/// The sentence "The '<name>' table <rest>".
pub open spec fn table_sentence(name: Seq<char>, rest: Seq<char>) -> Seq<char> {
    "The '"@ + name + rest
}

/// How many of the names end with "_id".
pub open spec fn id_suffix_count(names: Seq<Seq<char>>) -> nat
    decreases names.len(),
{
    if names.len() == 0 {
        0
    } else {
        id_suffix_count(names.drop_last()) + if ends_with(names.last(), "_id"@) {
            1nat
        } else {
            0nat
        }
    }
}

/// What a table holds, told from its name `name`, that name in lower case
/// `n`, and the names of its columns in lower case. The name patterns are
/// tried in order; a table named with "_to_", or with at most three columns
/// of which at least two end with "_id", reads as a junction table.
pub open spec fn table_purpose(name: Seq<char>, n: Seq<char>, columns: Seq<Seq<char>>) -> Seq<
    char,
> {
    if has_infix(n, "user"@) || has_infix(n, "account"@) || has_infix(n, "member"@) {
        table_sentence(name, "' table stores user/account information."@)
    } else if has_infix(n, "order"@) || has_infix(n, "purchase"@) {
        table_sentence(name, "' table tracks order/purchase records."@)
    } else if has_infix(n, "product"@) || has_infix(n, "item"@) || has_infix(n, "inventory"@) {
        table_sentence(name, "' table contains product/inventory data."@)
    } else if has_infix(n, "log"@) || has_infix(n, "audit"@) || has_infix(n, "history"@) {
        table_sentence(name, "' table maintains a log or history of events."@)
    } else if has_infix(n, "config"@) || has_infix(n, "setting"@) {
        table_sentence(name, "' table stores configuration or settings."@)
    } else if has_infix(n, "session"@) || has_infix(n, "token"@) {
        table_sentence(name, "' table manages sessions or authentication tokens."@)
    } else if has_infix(n, "_to_"@) || (columns.len() <= 3 && id_suffix_count(columns) >= 2) {
        table_sentence(
            name,
            "' table appears to be a junction/mapping table for many-to-many relationships."@,
        )
    } else {
        table_sentence(name, "' table stores related data records."@)
    }
}

fn sentence(name: &str, rest: &str) -> (r: String)
    ensures
        r@ == table_sentence(name@, rest@),
{
    let mut out = String::from_str("The '");
    out.append(name);
    out.append(rest);
    out
}

/// Counts the names that end with "_id".
fn count_id_suffixes(names: &Vec<String>) -> (c: usize)
    ensures
        c == id_suffix_count(texts(names@)),
{
    let mut c: usize = 0;
    let mut i: usize = 0;
    while i < names.len()
        invariant
            i <= names.len(),
            c <= i,
            c == id_suffix_count(texts(names@).take(i as int)),
        decreases names.len() - i,
    {
        let ghost before = texts(names@).take(i as int);
        let ghost after = texts(names@).take(i + 1);
        assert(after.drop_last() =~= before);
        assert(after.last() == names@[i as int]@);
        if ends_with_str(names[i].as_str(), "_id") {
            c = c + 1;
        }
        i = i + 1;
    }
    assert(texts(names@).take(names.len() as int) =~= texts(names@));
    c
}

/// The sentence describing what a table holds, from its name, its name in
/// lower case and the names of its columns in lower case.
pub fn classify_table(table_name: &str, name_lower: &str, columns_lower: &Vec<String>) -> (r:
    String)
    ensures
        r@ == table_purpose(table_name@, name_lower@, texts(columns_lower@)),
{
    let n = name_lower;
    if contains_str(n, "user") || contains_str(n, "account") || contains_str(n, "member") {
        sentence(table_name, "' table stores user/account information.")
    } else if contains_str(n, "order") || contains_str(n, "purchase") {
        sentence(table_name, "' table tracks order/purchase records.")
    } else if contains_str(n, "product") || contains_str(n, "item") || contains_str(n, "inventory") {
        sentence(table_name, "' table contains product/inventory data.")
    } else if contains_str(n, "log") || contains_str(n, "audit") || contains_str(n, "history") {
        sentence(table_name, "' table maintains a log or history of events.")
    } else if contains_str(n, "config") || contains_str(n, "setting") {
        sentence(table_name, "' table stores configuration or settings.")
    } else if contains_str(n, "session") || contains_str(n, "token") {
        sentence(table_name, "' table manages sessions or authentication tokens.")
    } else if contains_str(n, "_to_") || (columns_lower.len() <= 3 && count_id_suffixes(
        columns_lower,
    ) >= 2) {
        sentence(
            table_name,
            "' table appears to be a junction/mapping table for many-to-many relationships.",
        )
    } else {
        sentence(table_name, "' table stores related data records.")
    }
}

/// The names of columns, in lower case.
pub open spec fn lower_names(columns: Seq<ColumnInfo>) -> Seq<Seq<char>> {
    columns.map_values(|c: ColumnInfo| unicode_lowercase(c.name@))
}

/// Infers the purpose of a table based on its name and columns.
pub fn infer_table_purpose(columns: &[ColumnInfo], table_name: &str) -> (r: String)
    ensures
        r@ == table_purpose(table_name@, unicode_lowercase(table_name@), lower_names(columns@)),
{
    let name_lower = to_lowercase(table_name);
    let mut lowered: Vec<String> = Vec::new();
    let mut i: usize = 0;
    while i < columns.len()
        invariant
            i <= columns.len(),
            lowered.len() == i,
            forall|k: int| 0 <= k < i ==> #[trigger] lowered@[k]@ == unicode_lowercase(columns@[k].name@),
        decreases columns.len() - i,
    {
        lowered.push(to_lowercase(columns[i].name.as_str()));
        i = i + 1;
    }
    assert(texts(lowered@) =~= lower_names(columns@));
    classify_table(table_name, name_lower.as_str(), &lowered)
}

/// A table of the database with the counts the overview shows. A count that
/// could not be read is `None` and is shown as 0.
#[derive(Debug, Clone)]
pub struct TableEntry {
    pub name: String,
    pub row_count: Option<i64>,
    pub column_count: Option<usize>,
}

/// The number of rows shown for a table.
pub open spec fn entry_rows(e: TableEntry) -> i64 {
    match e.row_count {
        Some(n) => n,
        None => 0,
    }
}

/// The number of columns shown for a table.
pub open spec fn entry_columns(e: TableEntry) -> usize {
    match e.column_count {
        Some(n) => n,
        None => 0,
    }
}

/// The number of rows of all the tables together.
pub open spec fn rows_total(entries: Seq<TableEntry>) -> int
    decreases entries.len(),
{
    if entries.len() == 0 {
        0
    } else {
        rows_total(entries.drop_last()) + entry_rows(entries.last())
    }
}

/// Every running total of rows, table by table, fits in an `i64`.
pub open spec fn totals_fit(entries: Seq<TableEntry>) -> bool {
    forall|k: int|
        0 <= k <= entries.len() ==> i64::MIN <= #[trigger] rows_total(entries.take(k)) <= i64::MAX
}

/// Whether every running total of rows fits in an `i64`, so that the
/// overview can be computed.
pub fn totals_fit_check(entries: &Vec<TableEntry>) -> (r: bool)
    ensures
        r == totals_fit(entries@),
{
    let mut total: i64 = 0;
    let mut i: usize = 0;
    while i < entries.len()
        invariant
            i <= entries.len(),
            total == rows_total(entries@.take(i as int)),
            forall|k: int| 0 <= k <= i ==> i64::MIN <= #[trigger] rows_total(entries@.take(k)) <= i64::MAX,
        decreases entries.len() - i,
    {
        proof {
            let next = entries@.take(i + 1);
            assert(next.drop_last() =~= entries@.take(i as int));
            assert(next.last() == entries@[i as int]);
        }
        match total.checked_add(rows_of(&entries[i])) {
            Some(t) => {
                total = t;
            },
            None => {
                assert(!(i64::MIN <= rows_total(entries@.take(i + 1)) <= i64::MAX));
                return false;
            },
        }
        i = i + 1;
    }
    assert(entries@.take(entries.len() as int) =~= entries@);
    true
}

fn rows_of(e: &TableEntry) -> (n: i64)
    ensures
        n == entry_rows(*e),
{
    match e.row_count {
        Some(n) => n,
        None => 0,
    }
}

fn columns_of(e: &TableEntry) -> (n: usize)
    ensures
        n == entry_columns(*e),
{
    match e.column_count {
        Some(n) => n,
        None => 0,
    }
}

/// One line of the list of tables: its name, its rows and its columns.
pub struct TableListRow {
    pub name: String,
    pub rows: String,
    pub columns: String,
}

/// What the list of tables shows: a notice when the database has no table,
/// and otherwise one line per table and the line that closes the list.
pub enum TablesListing {
    NoTables { notice: String },
    Tables { rows: Vec<TableListRow>, total: String },
}

/// The line of the list of tables that shows one table.
pub open spec fn table_row_shows(r: TableListRow, e: TableEntry) -> bool {
    &&& r.name@ == e.name@
    &&& r.rows@ == signed_grouped(entry_rows(e) as int)
    &&& r.columns@ == decimal(entry_columns(e) as nat)
}

/// What the list of tables shows. A database without tables shows only "No
/// tables found in database."; otherwise each table shows its name, its row
/// count with thousands separators and its column count, and the list closes
/// with "Total: <n> tables".
pub fn tables_listing(entries: &Vec<TableEntry>) -> (r: TablesListing)
    ensures
        entries.len() == 0 <==> r is NoTables,
        r matches TablesListing::NoTables { notice } ==> notice@ == "No tables found in database."@,
        r matches TablesListing::Tables { rows, total } ==> {
            &&& rows.len() == entries.len()
            &&& forall|i: int| 0 <= i < entries.len() ==> table_row_shows(#[trigger] rows[i], entries[i])
            &&& total@ == "Total: "@ + decimal(entries.len() as nat) + " tables"@
        },
{
    if entries.len() == 0 {
        return TablesListing::NoTables { notice: String::from_str("No tables found in database.") };
    }
    let mut rows: Vec<TableListRow> = Vec::new();
    let mut i: usize = 0;
    while i < entries.len()
        invariant
            i <= entries.len(),
            rows.len() == i,
            forall|k: int| 0 <= k < i ==> table_row_shows(#[trigger] rows[k], entries[k]),
        decreases entries.len() - i,
    {
        let e = &entries[i];
        let mut columns = String::new();
        push_decimal(&mut columns, columns_of(e) as u64);
        rows.push(TableListRow { name: e.name.clone(), rows: format_count(rows_of(e)), columns });
        i = i + 1;
    }
    let mut total = String::from_str("Total: ");
    push_decimal(&mut total, entries.len() as u64);
    total.append(" tables");
    TablesListing::Tables { rows, total }
}

/// One line of the overview of a database.
pub struct SummaryRow {
    pub name: String,
    pub rows: i64,
    pub columns: usize,
    pub rows_text: String,
}

/// The overview of a database: how many tables, how many rows in all, which
/// table is the largest, and one line per table.
pub struct SummaryView {
    pub table_count: String,
    pub total_rows: i64,
    pub total_rows_text: String,
    pub largest: Option<usize>,
    pub rows: Vec<SummaryRow>,
}

/// What the overview of a database shows. The largest table is the last of
/// those with the most rows.
pub fn summary_view(entries: &Vec<TableEntry>) -> (r: SummaryView)
    requires
        totals_fit(entries@),
    ensures
        r.rows.len() == entries.len(),
        forall|i: int|
            0 <= i < entries.len() ==> {
                &&& (#[trigger] r.rows[i]).name@ == entries[i].name@
                &&& r.rows[i].rows == entry_rows(entries[i])
                &&& r.rows[i].columns == entry_columns(entries[i])
                &&& r.rows[i].rows_text@ == signed_grouped(entry_rows(entries[i]) as int)
            },
        r.table_count@ == decimal(entries.len() as nat),
        r.total_rows == rows_total(entries@),
        r.total_rows_text@ == signed_grouped(r.total_rows as int),
        r.largest is None <==> entries.len() == 0,
        r.largest matches Some(j) ==> {
            &&& j < entries.len()
            &&& forall|i: int| 0 <= i < entries.len() ==> entry_rows(#[trigger] entries[i]) <= entry_rows(entries[j as int])
            &&& forall|i: int| j < i < entries.len() ==> entry_rows(#[trigger] entries[i]) < entry_rows(entries[j as int])
        },
{
    let mut rows: Vec<SummaryRow> = Vec::new();
    let mut total: i64 = 0;
    let mut largest: Option<usize> = None;
    let mut i: usize = 0;
    while i < entries.len()
        invariant
            totals_fit(entries@),
            i <= entries.len(),
            rows.len() == i,
            forall|k: int|
                0 <= k < i ==> {
                    &&& (#[trigger] rows[k]).name@ == entries[k].name@
                    &&& rows[k].rows == entry_rows(entries[k])
                    &&& rows[k].columns == entry_columns(entries[k])
                    &&& rows[k].rows_text@ == signed_grouped(entry_rows(entries[k]) as int)
                },
            total == rows_total(entries@.take(i as int)),
            largest is None <==> i == 0,
            largest matches Some(j) ==> {
                &&& j < i
                &&& forall|k: int| 0 <= k < i ==> entry_rows(#[trigger] entries[k]) <= entry_rows(entries[j as int])
                &&& forall|k: int| j < k < i ==> entry_rows(#[trigger] entries[k]) < entry_rows(entries[j as int])
            },
        decreases entries.len() - i,
    {
        let e = &entries[i];
        let n = rows_of(e);
        proof {
            let next = entries@.take(i + 1);
            assert(next.drop_last() =~= entries@.take(i as int));
            assert(next.last() == entries@[i as int]);
            assert(i64::MIN <= rows_total(entries@.take(i + 1)) <= i64::MAX);
        }
        total = total + n;
        largest = match largest {
            None => Some(i),
            Some(j) => if n >= rows_of(&entries[j]) {
                Some(i)
            } else {
                Some(j)
            },
        };
        rows.push(SummaryRow { name: e.name.clone(), rows: n, columns: columns_of(e), rows_text: format_count(n) });
        i = i + 1;
    }
    assert(entries@.take(entries.len() as int) =~= entries@);
    let mut table_count = String::new();
    push_decimal(&mut table_count, entries.len() as u64);
    let total_rows_text = format_count(total);
    SummaryView { table_count, total_rows: total, total_rows_text, largest, rows }
}

/// One line of a table's structure.
pub struct SchemaRow {
    pub name: String,
    pub data_type: String,
    pub nullable: String,
    pub nullable_flag: bool,
    pub primary_key: String,
    pub default_value: String,
}

/// One index of a table: its name, its columns joined with ", ", and a mark
/// when it is unique.
pub struct IndexLine {
    pub name: String,
    pub columns: String,
    pub unique: String,
}

/// What the structure of a table shows.
pub struct SchemaView {
    pub title: String,
    pub rows_caption: String,
    pub columns: Vec<SchemaRow>,
    pub indexes: Vec<IndexLine>,
}

/// The line of the structure of a table that shows one column.
pub open spec fn schema_row_shows(r: SchemaRow, c: ColumnInfo) -> bool {
    &&& r.name@ == c.name@
    &&& r.data_type@ == c.data_type@
    &&& r.nullable@ == (if c.nullable {
        "YES"@
    } else {
        "NO"@
    })
    &&& r.nullable_flag == c.nullable
    &&& r.primary_key@ == (if c.primary_key {
        "\u{2713}"@
    } else {
        ""@
    })
    &&& r.default_value@ == (match c.default_value {
        Some(d) => d@,
        None => "-"@,
    })
}

/// The line of the structure of a table that shows one index.
pub open spec fn index_line_shows(l: IndexLine, x: IndexInfo) -> bool {
    &&& l.name@ == x.name@
    &&& l.columns@ == join(texts(x.columns@), ", "@)
    &&& l.unique@ == (if x.unique {
        " (unique)"@
    } else {
        ""@
    })
}

fn schema_row(c: &ColumnInfo) -> (r: SchemaRow)
    ensures
        schema_row_shows(r, *c),
{
    SchemaRow {
        name: c.name.clone(),
        data_type: c.data_type.clone(),
        nullable: if c.nullable {
            String::from_str("YES")
        } else {
            String::from_str("NO")
        },
        nullable_flag: c.nullable,
        primary_key: if c.primary_key {
            String::from_str("\u{2713}")
        } else {
            String::from_str("")
        },
        default_value: match &c.default_value {
            Some(d) => d.clone(),
            None => String::from_str("-"),
        },
    }
}

fn index_line(x: &IndexInfo) -> (r: IndexLine)
    ensures
        index_line_shows(r, *x),
{
    IndexLine {
        name: x.name.clone(),
        columns: join_strings(&x.columns, ", "),
        unique: if x.unique {
            String::from_str(" (unique)")
        } else {
            String::from_str("")
        },
    }
}

/// What the structure of a table shows: a title, its number of rows, one
/// line per column and one line per index.
pub fn schema_view(table_name: &str, info: &TableInfo) -> (r: SchemaView)
    ensures
        r.title@ == "\u{1F4CB} Schema: "@ + table_name@,
        r.rows_caption@ == signed_grouped(info.row_count as int) + " rows"@,
        r.columns.len() == info.columns.len(),
        forall|i: int| 0 <= i < info.columns.len() ==> schema_row_shows(#[trigger] r.columns[i], info.columns[i]),
        r.indexes.len() == info.indexes.len(),
        forall|i: int| 0 <= i < info.indexes.len() ==> index_line_shows(#[trigger] r.indexes[i], info.indexes[i]),
{
    let mut title = String::from_str("\u{1F4CB} Schema: ");
    title.append(table_name);
    let mut rows_caption = format_count(info.row_count);
    rows_caption.append(" rows");
    let mut columns: Vec<SchemaRow> = Vec::new();
    let mut i: usize = 0;
    while i < info.columns.len()
        invariant
            i <= info.columns.len(),
            columns.len() == i,
            forall|k: int| 0 <= k < i ==> schema_row_shows(#[trigger] columns[k], info.columns[k]),
        decreases info.columns.len() - i,
    {
        columns.push(schema_row(&info.columns[i]));
        i = i + 1;
    }
    let mut indexes: Vec<IndexLine> = Vec::new();
    let mut j: usize = 0;
    while j < info.indexes.len()
        invariant
            j <= info.indexes.len(),
            indexes.len() == j,
            forall|k: int| 0 <= k < j ==> index_line_shows(#[trigger] indexes[k], info.indexes[k]),
        decreases info.indexes.len() - j,
    {
        indexes.push(index_line(&info.indexes[j]));
        j = j + 1;
    }
    SchemaView { title, rows_caption, columns, indexes }
}

/// One column in the description of a table.
pub struct ColumnLine {
    pub name: String,
    pub primary_key_mark: String,
    pub required_mark: String,
    pub purpose: String,
}

/// What the description of a table shows.
pub struct DescribeView {
    pub title: String,
    pub purpose: String,
    pub row_count: String,
    pub column_count: String,
    pub columns: Vec<ColumnLine>,
}

/// The line of a table's description that tells about one column.
pub open spec fn column_line_shows(l: ColumnLine, c: ColumnInfo) -> bool {
    &&& l.name@ == c.name@
    &&& l.primary_key_mark@ == (if c.primary_key {
        " [PRIMARY KEY]"@
    } else {
        ""@
    })
    &&& l.required_mark@ == (if c.nullable {
        ""@
    } else {
        " (required)"@
    })
    &&& l.purpose@ == column_purpose(
        unicode_lowercase(c.name@),
        c.primary_key,
        unicode_uppercase(c.data_type@),
    )
}

/// What the description of a table shows: a title, what the table holds,
/// its numbers of records and columns, and one line per column telling what
/// the column holds.
pub fn describe_view(table_name: &str, info: &TableInfo) -> (r: DescribeView)
    ensures
        r.title@ == "\u{1F50D} Description: "@ + table_name@,
        r.purpose@ == table_purpose(
            table_name@,
            unicode_lowercase(table_name@),
            lower_names(info.columns@),
        ),
        r.row_count@ == signed_grouped(info.row_count as int),
        r.column_count@ == decimal(info.columns.len() as nat),
        r.columns.len() == info.columns.len(),
        forall|i: int| 0 <= i < info.columns.len() ==> column_line_shows(#[trigger] r.columns[i], info.columns[i]),
{
    let mut title = String::from_str("\u{1F50D} Description: ");
    title.append(table_name);
    let purpose = infer_table_purpose(info.columns.as_slice(), table_name);
    let row_count = format_count(info.row_count);
    let mut column_count = String::new();
    push_decimal(&mut column_count, info.columns.len() as u64);
    let mut columns: Vec<ColumnLine> = Vec::new();
    let mut i: usize = 0;
    while i < info.columns.len()
        invariant
            i <= info.columns.len(),
            columns.len() == i,
            forall|k: int| 0 <= k < i ==> column_line_shows(#[trigger] columns[k], info.columns[k]),
        decreases info.columns.len() - i,
    {
        let c = &info.columns[i];
        columns.push(ColumnLine {
            name: c.name.clone(),
            primary_key_mark: if c.primary_key {
                String::from_str(" [PRIMARY KEY]")
            } else {
                String::from_str("")
            },
            required_mark: if c.nullable {
                String::from_str("")
            } else {
                String::from_str(" (required)")
            },
            purpose: infer_column_purpose(c),
        });
        i = i + 1;
    }
    DescribeView { title, purpose, row_count, column_count, columns }
}

/// How a record's cell is shown: a value reading "NULL" is shown as is and
/// marked, any other value is shortened to 30 bytes.
pub struct RecordCell {
    pub text: String,
    pub is_null: bool,
}

/// What the records of a table show.
pub struct RecordsView {
    pub title: String,
    pub caption: String,
    pub header: Vec<String>,
    pub rows: Vec<Vec<RecordCell>>,
    pub empty_notice: Option<String>,
    pub more_hint: Option<String>,
}

/// The widest a cell of a record is shown, in bytes.
pub open spec fn cell_width() -> nat {
    30
}

/// A cell that can be shown: "NULL", or a value that can be cut at 30 bytes.
pub open spec fn cell_showable(v: Seq<char>) -> bool {
    v == "NULL"@ || can_truncate(v, cell_width())
}

/// How a cell is shown.
pub open spec fn cell_shows(c: RecordCell, v: Seq<char>) -> bool {
    &&& c.is_null == (v == "NULL"@)
    &&& c.text@ == (if v == "NULL"@ {
        v
    } else {
        truncated(v, cell_width())
    })
}

/// Whether more rows follow the page shown: the rows skipped and shown are
/// fewer than the table holds.
pub open spec fn more_rows_follow(offset: usize, shown: nat, total: i64) -> bool {
    offset + shown < (total as usize)
}

fn record_cell(v: &String) -> (c: RecordCell)
    requires
        cell_showable(v@),
    ensures
        cell_shows(c, v@),
{
    if str_eq(v.as_str(), "NULL") {
        RecordCell { text: v.clone(), is_null: true }
    } else {
        RecordCell { text: truncate_str(v.as_str(), 30), is_null: false }
    }
}

fn record_row(row: &Vec<String>) -> (r: Vec<RecordCell>)
    requires
        forall|k: int| 0 <= k < row.len() ==> cell_showable(#[trigger] row[k]@),
    ensures
        r.len() == row.len(),
        forall|k: int| 0 <= k < row.len() ==> cell_shows(#[trigger] r[k], row[k]@),
{
    let mut out: Vec<RecordCell> = Vec::new();
    let mut i: usize = 0;
    while i < row.len()
        invariant
            i <= row.len(),
            out.len() == i,
            forall|k: int| 0 <= k < row.len() ==> cell_showable(#[trigger] row[k]@),
            forall|k: int| 0 <= k < i ==> cell_shows(#[trigger] out[k], row[k]@),
        decreases row.len() - i,
    {
        out.push(record_cell(&row[i]));
        i = i + 1;
    }
    out
}

/// What a page of records shows: a title; "Showing <n> of <total> rows
/// (offset: <offset>)" where n is the number of rows read, at most `limit`;
/// the column names; the cells; a notice when the page holds no record; and,
/// when the page holds records and more rows follow it, the offset of the
/// next page.
pub fn records_view(
    table_name: &str,
    columns: &Vec<String>,
    rows: &Vec<Vec<String>>,
    total_count: i64,
    limit: usize,
    offset: usize,
) -> (r: RecordsView)
    requires
        offset + rows.len() <= usize::MAX,
        rows.len() > 0 && more_rows_follow(offset, rows.len() as nat, total_count) ==> offset + limit
            <= usize::MAX,
        forall|i: int, k: int|
            0 <= i < rows.len() && 0 <= k < rows[i].len() ==> cell_showable(#[trigger] rows[i][k]@),
    ensures
        r.title@ == "\u{1F4C4} Records: "@ + table_name@,
        r.caption@ == "Showing "@ + decimal(
            (if rows.len() < limit {
                rows.len()
            } else {
                limit
            }) as nat,
        ) + " of "@ + signed_grouped(total_count as int) + " rows (offset: "@ + decimal(offset as nat)
            + ")"@,
        r.header@ == columns@,
        r.rows.len() == rows.len(),
        forall|i: int|
            0 <= i < rows.len() ==> (#[trigger] r.rows[i]).len() == rows[i].len() && forall|k: int|
                0 <= k < rows[i].len() ==> cell_shows(#[trigger] r.rows[i][k], rows[i][k]@),
        r.empty_notice is Some <==> rows.len() == 0,
        r.empty_notice matches Some(n) ==> n@ == "No records found."@,
        r.more_hint is Some <==> rows.len() > 0 && more_rows_follow(
            offset,
            rows.len() as nat,
            total_count,
        ),
        r.more_hint matches Some(h) ==> h@ == "Use --offset "@ + decimal((offset + limit) as nat)
            + " to see more rows"@,
{
    let mut title = String::from_str("\u{1F4C4} Records: ");
    title.append(table_name);
    let shown: usize = if rows.len() < limit {
        rows.len()
    } else {
        limit
    };
    let mut caption = String::from_str("Showing ");
    push_decimal(&mut caption, shown as u64);
    caption.append(" of ");
    let total_text = format_count(total_count);
    caption.append(total_text.as_str());
    caption.append(" rows (offset: ");
    push_decimal(&mut caption, offset as u64);
    caption.append(")");
    let header = columns.clone();
    let mut cells: Vec<Vec<RecordCell>> = Vec::new();
    let mut i: usize = 0;
    while i < rows.len()
        invariant
            i <= rows.len(),
            cells.len() == i,
            forall|a: int, k: int|
                0 <= a < rows.len() && 0 <= k < rows[a].len() ==> cell_showable(#[trigger] rows[a][k]@),
            forall|a: int|
                0 <= a < i ==> (#[trigger] cells[a]).len() == rows[a].len() && forall|k: int|
                    0 <= k < rows[a].len() ==> cell_shows(#[trigger] cells[a][k], rows[a][k]@),
        decreases rows.len() - i,
    {
        let row = record_row(&rows[i]);
        cells.push(row);
        i = i + 1;
    }
    let empty_notice = if rows.len() == 0 {
        Some(String::from_str("No records found."))
    } else {
        None
    };
    let more_hint = if rows.len() > 0 && offset + rows.len() < total_count as usize {
        let mut h = String::from_str("Use --offset ");
        push_decimal(&mut h, (offset + limit) as u64);
        h.append(" to see more rows");
        Some(h)
    } else {
        None
    };
    RecordsView { title, caption, header, rows: cells, empty_notice, more_hint }
}

/// How a value is labelled in a distribution chart: like a record's cell,
/// except that a blob is shown as "<BLOB>" without its size.
pub open spec fn bar_label_text(v: CellValue) -> Seq<char> {
    match v {
        CellValue::Null => "NULL"@,
        CellValue::Integer(i) => signed_decimal(i as int),
        CellValue::Real(t) => t@,
        CellValue::Text(s) => s@,
        CellValue::Blob(_) => "<BLOB>"@,
    }
}

/// The label of a value in a distribution chart.
pub fn bar_label(value: &CellValue) -> (r: String)
    ensures
        r@ == bar_label_text(*value),
{
    match value {
        CellValue::Null => String::from_str("NULL"),
        CellValue::Integer(i) => signed_decimal_string(*i),
        CellValue::Real(t) => t.clone(),
        CellValue::Text(s) => s.clone(),
        CellValue::Blob(_) => String::from_str("<BLOB>"),
    }
}

/// The largest byte length of the labels, or `None` when there is none.
pub open spec fn longest_label(labels: Seq<(String, i64)>) -> Option<nat>
    decreases labels.len(),
{
    if labels.len() == 0 {
        None
    } else {
        let here = utf8_len(labels.last().0@);
        match longest_label(labels.drop_last()) {
            None => Some(here),
            Some(m) => Some(if m < here {
                here
            } else {
                m
            }),
        }
    }
}

/// The width of the label column of a distribution chart: the longest label,
/// 10 when there is none, and never more than 20.
pub open spec fn label_width(data: Seq<(String, i64)>) -> nat {
    let w = match longest_label(data) {
        Some(m) => m,
        None => 10,
    };
    if w < 20 {
        w
    } else {
        20
    }
}

/// The largest count, or `None` when there is none.
pub open spec fn largest_count(data: Seq<(String, i64)>) -> Option<i64>
    decreases data.len(),
{
    if data.len() == 0 {
        None
    } else {
        let here = data.last().1;
        match largest_count(data.drop_last()) {
            None => Some(here),
            Some(m) => Some(if m < here {
                here
            } else {
                m
            }),
        }
    }
}

/// What a distribution chart shows besides its bars: the labels shortened
/// to the label width, that width, and the largest count the bars are
/// scaled to (1 when there is none).
pub struct BarChartView {
    pub labels: Vec<String>,
    pub label_width: usize,
    pub max_count: i64,
}

/// Every label can be cut at the label width.
pub open spec fn labels_showable(data: Seq<(String, i64)>) -> bool {
    forall|i: int| 0 <= i < data.len() ==> can_truncate(#[trigger] data[i].0@, label_width(data))
}

/// The width of the label column of a distribution chart.
pub fn label_width_of(data: &Vec<(String, i64)>) -> (w: usize)
    ensures
        w == label_width(data@),
{
    let mut longest: Option<u128> = None;
    let mut i: usize = 0;
    while i < data.len()
        invariant
            i <= data.len(),
            match longest_label(data@.take(i as int)) {
                Some(m) => m <= u128::MAX && longest == Some(m as u128),
                None => longest is None,
            },
        decreases data.len() - i,
    {
        proof {
            let next = data@.take(i + 1);
            assert(next.drop_last() =~= data@.take(i as int));
            assert(next.last() == data@[i as int]);
        }
        let len = utf8_length(data[i].0.as_str());
        longest = match longest {
            None => Some(len),
            Some(m) => Some(if m < len {
                len
            } else {
                m
            }),
        };
        i = i + 1;
    }
    assert(data@.take(data.len() as int) =~= data@);
    match longest {
        Some(m) => if m < 20 {
            m as usize
        } else {
            20
        },
        None => 10,
    }
}

/// How a distribution chart lays out its data.
pub open spec fn chart_shows(v: BarChartView, data: Seq<(String, i64)>) -> bool {
    &&& v.label_width == label_width(data)
    &&& v.max_count == (match largest_count(data) {
        Some(m) => m,
        None => 1,
    })
    &&& v.labels.len() == data.len()
    &&& forall|i: int| 0 <= i < data.len() ==> (#[trigger] v.labels[i])@ == truncated(data[i].0@, label_width(data))
}

/// What a distribution chart shows: a notice when there is no value to
/// chart, and otherwise its layout.
pub enum BarChart {
    NoData { notice: String },
    Chart { view: BarChartView },
}

/// Lays out a distribution chart of labelled counts: with no data it shows
/// only "No data found for bar chart".
pub fn bar_chart_view(data: &Vec<(String, i64)>) -> (r: BarChart)
    requires
        labels_showable(data@),
    ensures
        data.len() == 0 <==> r is NoData,
        r matches BarChart::NoData { notice } ==> notice@ == "No data found for bar chart"@,
        r matches BarChart::Chart { view } ==> chart_shows(view, data@),
{
    if data.len() == 0 {
        return BarChart::NoData { notice: String::from_str("No data found for bar chart") };
    }
    let width = label_width_of(data);
    let mut largest: Option<i64> = None;
    let mut i: usize = 0;
    while i < data.len()
        invariant
            i <= data.len(),
            largest == largest_count(data@.take(i as int)),
        decreases data.len() - i,
    {
        proof {
            let next = data@.take(i + 1);
            assert(next.drop_last() =~= data@.take(i as int));
            assert(next.last() == data@[i as int]);
        }
        let c = data[i].1;
        largest = match largest {
            None => Some(c),
            Some(m) => Some(if m < c {
                c
            } else {
                m
            }),
        };
        i = i + 1;
    }
    assert(data@.take(data.len() as int) =~= data@);
    let max_count: i64 = match largest {
        Some(m) => m,
        None => 1,
    };
    let mut labels: Vec<String> = Vec::new();
    let mut j: usize = 0;
    while j < data.len()
        invariant
            j <= data.len(),
            width == label_width(data@),
            labels_showable(data@),
            labels.len() == j,
            forall|k: int| 0 <= k < j ==> (#[trigger] labels[k])@ == truncated(data[k].0@, label_width(data@)),
        decreases data.len() - j,
    {
        labels.push(truncate_str(data[j].0.as_str(), width));
        j = j + 1;
    }
    BarChart::Chart { view: BarChartView { labels, label_width: width, max_count } }
}

/// Words in a table's lower-cased name decide what the table is said to
/// hold; the groups are tried in a fixed order and the first group with a
/// word in the name wins.
pub proof fn lemma_table_purpose_by_name(name: Seq<char>, n: Seq<char>, columns: Seq<Seq<char>>)
    ensures
        has_infix(n, "user"@) || has_infix(n, "account"@) || has_infix(n, "member"@) ==> table_purpose(
            name,
            n,
            columns,
        ) == "The '"@ + name + "' table stores user/account information."@,
        !(has_infix(n, "user"@) || has_infix(n, "account"@) || has_infix(n, "member"@)) && (has_infix(
            n,
            "order"@,
        ) || has_infix(n, "purchase"@)) ==> table_purpose(name, n, columns) == "The '"@ + name
            + "' table tracks order/purchase records."@,
        !(has_infix(n, "user"@) || has_infix(n, "account"@) || has_infix(n, "member"@))
            && !(has_infix(n, "order"@) || has_infix(n, "purchase"@)) && (has_infix(n, "product"@)
            || has_infix(n, "item"@) || has_infix(n, "inventory"@)) ==> table_purpose(name, n, columns)
            == "The '"@ + name + "' table contains product/inventory data."@,
        !(has_infix(n, "user"@) || has_infix(n, "account"@) || has_infix(n, "member"@))
            && !(has_infix(n, "order"@) || has_infix(n, "purchase"@)) && !(has_infix(n, "product"@)
            || has_infix(n, "item"@) || has_infix(n, "inventory"@)) && (has_infix(n, "log"@)
            || has_infix(n, "audit"@) || has_infix(n, "history"@)) ==> table_purpose(name, n, columns)
            == "The '"@ + name + "' table maintains a log or history of events."@,
        !(has_infix(n, "user"@) || has_infix(n, "account"@) || has_infix(n, "member"@))
            && !(has_infix(n, "order"@) || has_infix(n, "purchase"@)) && !(has_infix(n, "product"@)
            || has_infix(n, "item"@) || has_infix(n, "inventory"@)) && !(has_infix(n, "log"@)
            || has_infix(n, "audit"@) || has_infix(n, "history"@)) && (has_infix(n, "config"@)
            || has_infix(n, "setting"@)) ==> table_purpose(name, n, columns) == "The '"@ + name
            + "' table stores configuration or settings."@,
        !(has_infix(n, "user"@) || has_infix(n, "account"@) || has_infix(n, "member"@))
            && !(has_infix(n, "order"@) || has_infix(n, "purchase"@)) && !(has_infix(n, "product"@)
            || has_infix(n, "item"@) || has_infix(n, "inventory"@)) && !(has_infix(n, "log"@)
            || has_infix(n, "audit"@) || has_infix(n, "history"@)) && !(has_infix(n, "config"@)
            || has_infix(n, "setting"@)) && (has_infix(n, "session"@) || has_infix(n, "token"@))
            ==> table_purpose(name, n, columns) == "The '"@ + name
            + "' table manages sessions or authentication tokens."@,
{
}

/// A table whose name has none of the words is a junction table when its
/// name holds "_to_" or when it has at most three columns of which at least
/// two end with "_id", and otherwise stores related data records.
pub proof fn lemma_table_purpose_by_columns(name: Seq<char>, n: Seq<char>, columns: Seq<Seq<char>>)
    requires
        !has_infix(n, "user"@) && !has_infix(n, "account"@) && !has_infix(n, "member"@),
        !has_infix(n, "order"@) && !has_infix(n, "purchase"@),
        !has_infix(n, "product"@) && !has_infix(n, "item"@) && !has_infix(n, "inventory"@),
        !has_infix(n, "log"@) && !has_infix(n, "audit"@) && !has_infix(n, "history"@),
        !has_infix(n, "config"@) && !has_infix(n, "setting"@),
        !has_infix(n, "session"@) && !has_infix(n, "token"@),
    ensures
        ({
            let ids = columns.filter(|c: Seq<char>| ends_with(c, "_id"@)).len();
            table_purpose(name, n, columns) == if has_infix(n, "_to_"@) || (columns.len() <= 3 && ids
                >= 2) {
                "The '"@ + name
                    + "' table appears to be a junction/mapping table for many-to-many relationships."@
            } else {
                "The '"@ + name + "' table stores related data records."@
            }
        }),
{
    lemma_id_suffix_count_is_filter(columns);
}

/// `id_suffix_count` counts exactly the names that end with "_id".
pub proof fn lemma_id_suffix_count_is_filter(names: Seq<Seq<char>>)
    ensures
        id_suffix_count(names) == names.filter(|c: Seq<char>| ends_with(c, "_id"@)).len(),
    decreases names.len(),
{
    reveal(Seq::filter);
    if names.len() > 0 {
        lemma_id_suffix_count_is_filter(names.drop_last());
    }
}

/// The next-page hint is offered exactly when rows remain after the page:
/// the table holds more rows than those skipped and shown. (A row count is
/// never negative and fits in the machine's word.)
pub proof fn lemma_more_rows_follow_means_rows_remain(offset: usize, shown: nat, total: i64)
    requires
        0 <= total <= usize::MAX,
    ensures
        more_rows_follow(offset, shown, total) <==> total - offset - shown > 0,
{
    assert((total as usize) as int == total as int);
}

/// The scale of a distribution chart is the largest count: no count exceeds
/// it, one count equals it, whatever the order of the data.
pub proof fn lemma_largest_count_is_maximum(data: Seq<(String, i64)>)
    ensures
        data.len() == 0 <==> largest_count(data) is None,
        largest_count(data) matches Some(m) ==> {
            &&& forall|i: int| 0 <= i < data.len() ==> #[trigger] data[i].1 <= m
            &&& exists|i: int| 0 <= i < data.len() && #[trigger] data[i].1 == m
        },
    decreases data.len(),
{
    if data.len() > 0 {
        let init = data.drop_last();
        lemma_largest_count_is_maximum(init);
        let m = largest_count(data)->0;
        assert forall|i: int| 0 <= i < data.len() implies #[trigger] data[i].1 <= m by {
            if i < data.len() - 1 {
                assert(init[i] == data[i]);
            }
        }
        if m == data.last().1 {
            assert(data[data.len() - 1].1 == m);
        } else {
            let k = choose|k: int| 0 <= k < init.len() && #[trigger] init[k].1 == largest_count(init)->0;
            assert(data[k] == init[k]);
        }
    }
}

/// The label width is taken from the longest label: no label is longer in
/// bytes and one label has exactly that length.
pub proof fn lemma_longest_label_is_maximum(data: Seq<(String, i64)>)
    ensures
        data.len() == 0 <==> longest_label(data) is None,
        longest_label(data) matches Some(m) ==> {
            &&& forall|i: int| 0 <= i < data.len() ==> utf8_len(#[trigger] data[i].0@) <= m
            &&& exists|i: int| 0 <= i < data.len() && utf8_len(#[trigger] data[i].0@) == m
        },
    decreases data.len(),
{
    if data.len() > 0 {
        let init = data.drop_last();
        lemma_longest_label_is_maximum(init);
        let m = longest_label(data)->0;
        assert forall|i: int| 0 <= i < data.len() implies utf8_len(#[trigger] data[i].0@) <= m by {
            if i < data.len() - 1 {
                assert(init[i] == data[i]);
            }
        }
        if m == utf8_len(data.last().0@) {
            assert(data[data.len() - 1] == data.last());
        } else {
            let k = choose|k: int| 0 <= k < init.len() && utf8_len(#[trigger] init[k].0@) == longest_label(init)->0;
            assert(data[k] == init[k]);
        }
    }
}

/// The label column is as wide as the longest label, never wider than 20
/// bytes, and 10 bytes wide when there is no label.
pub proof fn lemma_label_width_fits_labels(data: Seq<(String, i64)>)
    ensures
        data.len() == 0 ==> label_width(data) == 10,
        data.len() > 0 ==> label_width(data) <= 20,
        data.len() > 0 ==> forall|i: int|
            0 <= i < data.len() ==> utf8_len(#[trigger] data[i].0@) <= label_width(data) || label_width(
                data,
            ) == 20,
        data.len() > 0 && label_width(data) < 20 ==> exists|i: int|
            0 <= i < data.len() && utf8_len(#[trigger] data[i].0@) == label_width(data),
{
    lemma_longest_label_is_maximum(data);
}

/// A record's cell of at most 30 bytes is shown whole; a longer one is cut
/// to its first 29 bytes followed by an ellipsis.
pub proof fn lemma_cells_cut_at_thirty_bytes(v: Seq<char>)
    requires
        cell_showable(v),
        v != "NULL"@,
    ensures
        utf8_len(v) <= 30 ==> truncated(v, cell_width()) == v,
        utf8_len(v) > 30 ==> {
            let k = chars_before_byte(v, 29);
            &&& truncated(v, cell_width()) == v.take(k).push(ellipsis())
            &&& 0 <= k <= v.len()
            &&& utf8_len(v.take(k)) == 29
        },
{
    if utf8_len(v) > 30 {
        assert(is_byte_boundary(v, 29));
    }
}

} // verus!
