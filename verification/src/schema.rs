//! Table metadata and the description of what a column holds.

use vstd::prelude::*;
use crate::db::{push_quoted, quote_ident};
use crate::error::DbViewError;
use crate::text::{
    contains_str, ends_with, ends_with_str, has_infix, starts_with, starts_with_str, str_eq,
    to_lowercase, to_uppercase, unicode_lowercase, unicode_uppercase,
};

verus! {

/// Information about a database column.
#[derive(Debug, Clone)]
pub struct ColumnInfo {
    pub name: String,
    pub data_type: String,
    pub nullable: bool,
    pub primary_key: bool,
    pub default_value: Option<String>,
}

/// Information about a database table.
#[derive(Debug)]
pub struct TableInfo {
    pub name: String,
    pub columns: Vec<ColumnInfo>,
    pub row_count: i64,
    pub indexes: Vec<IndexInfo>,
}

/// Information about a table index.
#[derive(Debug)]
pub struct IndexInfo {
    pub name: String,
    pub unique: bool,
    pub columns: Vec<String>,
}

/// What a column's declared type says it holds, given the type in upper case.
pub open spec fn type_purpose(t: Seq<char>) -> Seq<char> {
    if t == "INTEGER"@ || t == "INT"@ {
        "Integer value"@
    } else if t == "REAL"@ || t == "FLOAT"@ || t == "DOUBLE"@ {
        "Decimal number"@
    } else if t == "TEXT"@ || t == "VARCHAR"@ {
        "Text content"@
    } else if t == "BLOB"@ {
        "Binary data"@
    } else if t == "BOOLEAN"@ {
        "True/false flag"@
    } else {
        "Data field"@
    }
}

/// The purpose of a column whose name contains "name", given the name in lower case.
pub open spec fn name_purpose(n: Seq<char>) -> Seq<char> {
    if has_infix(n, "first"@) {
        "First name"@
    } else if has_infix(n, "last"@) {
        "Last name"@
    } else {
        "Name field"@
    }
}

/// The purpose of a column whose name mentions a date or time.
pub open spec fn time_purpose(n: Seq<char>) -> Seq<char> {
    if has_infix(n, "created"@) || has_infix(n, "create"@) {
        "Creation timestamp"@
    } else if has_infix(n, "updated"@) || has_infix(n, "modified"@) {
        "Last modification timestamp"@
    } else {
        "Date/time value"@
    }
}

/// The purpose told by the later name patterns, tried in order, before the
/// declared type decides.
pub open spec fn late_purpose(n: Seq<char>, t: Seq<char>) -> Seq<char> {
    if has_infix(n, "price"@) || has_infix(n, "cost"@) || has_infix(n, "amount"@) {
        "Monetary value"@
    } else if has_infix(n, "qty"@) || has_infix(n, "quantity"@) || has_infix(n, "count"@) {
        "Quantity/count"@
    } else if has_infix(n, "status"@) || has_infix(n, "state"@) {
        "Status indicator"@
    } else if has_infix(n, "active"@) || has_infix(n, "enabled"@) || has_infix(n, "is_"@) {
        "Boolean flag"@
    } else if has_infix(n, "description"@) || has_infix(n, "desc"@) {
        "Description text"@
    } else if has_infix(n, "url"@) || has_infix(n, "link"@) {
        "URL/link"@
    } else if has_infix(n, "image"@) || has_infix(n, "photo"@) || has_infix(n, "avatar"@) {
        "Image reference"@
    } else {
        type_purpose(t)
    }
}

/// The description of a column, from its name in lower case, whether it is
/// part of the primary key, and its declared type in upper case. The name
/// patterns are tried in order and the first that matches decides.
pub open spec fn column_purpose(n: Seq<char>, primary_key: bool, t: Seq<char>) -> Seq<char> {
    if primary_key && (n == "id"@ || ends_with(n, "_id"@)) {
        "Primary identifier"@
    } else if ends_with(n, "_id"@) || starts_with(n, "id_"@) {
        "Foreign key reference"@
    } else if has_infix(n, "email"@) {
        "Email address"@
    } else if has_infix(n, "name"@) {
        name_purpose(n)
    } else if has_infix(n, "phone"@) || has_infix(n, "tel"@) {
        "Phone number"@
    } else if has_infix(n, "address"@) {
        "Address information"@
    } else if has_infix(n, "date"@) || has_infix(n, "time"@) {
        time_purpose(n)
    } else {
        late_purpose(n, t)
    }
}

/// A column is described by the first pattern its lower-cased name matches,
/// in a fixed order: a key named "id" or "..._id" is the primary identifier,
/// another "..._id" or "id_..." is a foreign key, and then words for email,
/// names, phone numbers, addresses, dates, money, quantities, status, flags,
/// descriptions, links and images follow; a name that matches none is
/// described by its declared type (in upper case).
pub proof fn lemma_column_purpose_by_name(n: Seq<char>, primary_key: bool, t: Seq<char>)
    ensures
        primary_key && (n == "id"@ || ends_with(n, "_id"@))
            ==> column_purpose(n, primary_key, t) == "Primary identifier"@,
        !(primary_key && (n == "id"@ || ends_with(n, "_id"@)))
            && (ends_with(n, "_id"@) || starts_with(n, "id_"@))
            ==> column_purpose(n, primary_key, t) == "Foreign key reference"@,
        !(primary_key && (n == "id"@ || ends_with(n, "_id"@)))
            && !(ends_with(n, "_id"@) || starts_with(n, "id_"@)) && (has_infix(n, "email"@))
            ==> column_purpose(n, primary_key, t) == "Email address"@,
        !(primary_key && (n == "id"@ || ends_with(n, "_id"@)))
            && !(ends_with(n, "_id"@) || starts_with(n, "id_"@)) && !(has_infix(n, "email"@))
            && (has_infix(n, "name"@))
            ==> column_purpose(n, primary_key, t) == (if has_infix(n, "first"@) {
            "First name"@
        } else if has_infix(n, "last"@) {
            "Last name"@
        } else {
            "Name field"@
        }),
        !(primary_key && (n == "id"@ || ends_with(n, "_id"@)))
            && !(ends_with(n, "_id"@) || starts_with(n, "id_"@)) && !(has_infix(n, "email"@))
            && !(has_infix(n, "name"@)) && (has_infix(n, "phone"@) || has_infix(n, "tel"@))
            ==> column_purpose(n, primary_key, t) == "Phone number"@,
        !(primary_key && (n == "id"@ || ends_with(n, "_id"@)))
            && !(ends_with(n, "_id"@) || starts_with(n, "id_"@)) && !(has_infix(n, "email"@))
            && !(has_infix(n, "name"@)) && !(has_infix(n, "phone"@) || has_infix(n, "tel"@))
            && (has_infix(n, "address"@))
            ==> column_purpose(n, primary_key, t) == "Address information"@,
        !(primary_key && (n == "id"@ || ends_with(n, "_id"@)))
            && !(ends_with(n, "_id"@) || starts_with(n, "id_"@)) && !(has_infix(n, "email"@))
            && !(has_infix(n, "name"@)) && !(has_infix(n, "phone"@) || has_infix(n, "tel"@))
            && !(has_infix(n, "address"@)) && (has_infix(n, "date"@) || has_infix(n, "time"@))
            ==> column_purpose(n, primary_key, t) == (if has_infix(n, "created"@) || has_infix(
            n,
            "create"@,
        ) {
            "Creation timestamp"@
        } else if has_infix(n, "updated"@) || has_infix(n, "modified"@) {
            "Last modification timestamp"@
        } else {
            "Date/time value"@
        }),
        !(primary_key && (n == "id"@ || ends_with(n, "_id"@)))
            && !(ends_with(n, "_id"@) || starts_with(n, "id_"@)) && !(has_infix(n, "email"@))
            && !(has_infix(n, "name"@)) && !(has_infix(n, "phone"@) || has_infix(n, "tel"@))
            && !(has_infix(n, "address"@)) && !(has_infix(n, "date"@) || has_infix(n, "time"@))
            && (has_infix(n, "price"@) || has_infix(n, "cost"@) || has_infix(n, "amount"@))
            ==> column_purpose(n, primary_key, t) == "Monetary value"@,
        !(primary_key && (n == "id"@ || ends_with(n, "_id"@)))
            && !(ends_with(n, "_id"@) || starts_with(n, "id_"@)) && !(has_infix(n, "email"@))
            && !(has_infix(n, "name"@)) && !(has_infix(n, "phone"@) || has_infix(n, "tel"@))
            && !(has_infix(n, "address"@)) && !(has_infix(n, "date"@) || has_infix(n, "time"@))
            && !(has_infix(n, "price"@) || has_infix(n, "cost"@) || has_infix(n, "amount"@))
            && (has_infix(n, "qty"@) || has_infix(n, "quantity"@) || has_infix(n, "count"@))
            ==> column_purpose(n, primary_key, t) == "Quantity/count"@,
        !(primary_key && (n == "id"@ || ends_with(n, "_id"@)))
            && !(ends_with(n, "_id"@) || starts_with(n, "id_"@)) && !(has_infix(n, "email"@))
            && !(has_infix(n, "name"@)) && !(has_infix(n, "phone"@) || has_infix(n, "tel"@))
            && !(has_infix(n, "address"@)) && !(has_infix(n, "date"@) || has_infix(n, "time"@))
            && !(has_infix(n, "price"@) || has_infix(n, "cost"@) || has_infix(n, "amount"@))
            && !(has_infix(n, "qty"@) || has_infix(n, "quantity"@) || has_infix(n, "count"@))
            && (has_infix(n, "status"@) || has_infix(n, "state"@))
            ==> column_purpose(n, primary_key, t) == "Status indicator"@,
        !(primary_key && (n == "id"@ || ends_with(n, "_id"@)))
            && !(ends_with(n, "_id"@) || starts_with(n, "id_"@)) && !(has_infix(n, "email"@))
            && !(has_infix(n, "name"@)) && !(has_infix(n, "phone"@) || has_infix(n, "tel"@))
            && !(has_infix(n, "address"@)) && !(has_infix(n, "date"@) || has_infix(n, "time"@))
            && !(has_infix(n, "price"@) || has_infix(n, "cost"@) || has_infix(n, "amount"@))
            && !(has_infix(n, "qty"@) || has_infix(n, "quantity"@) || has_infix(n, "count"@))
            && !(has_infix(n, "status"@) || has_infix(n, "state"@))
            && (has_infix(n, "active"@) || has_infix(n, "enabled"@) || has_infix(n, "is_"@))
            ==> column_purpose(n, primary_key, t) == "Boolean flag"@,
        !(primary_key && (n == "id"@ || ends_with(n, "_id"@)))
            && !(ends_with(n, "_id"@) || starts_with(n, "id_"@)) && !(has_infix(n, "email"@))
            && !(has_infix(n, "name"@)) && !(has_infix(n, "phone"@) || has_infix(n, "tel"@))
            && !(has_infix(n, "address"@)) && !(has_infix(n, "date"@) || has_infix(n, "time"@))
            && !(has_infix(n, "price"@) || has_infix(n, "cost"@) || has_infix(n, "amount"@))
            && !(has_infix(n, "qty"@) || has_infix(n, "quantity"@) || has_infix(n, "count"@))
            && !(has_infix(n, "status"@) || has_infix(n, "state"@))
            && !(has_infix(n, "active"@) || has_infix(n, "enabled"@) || has_infix(n, "is_"@))
            && (has_infix(n, "description"@) || has_infix(n, "desc"@))
            ==> column_purpose(n, primary_key, t) == "Description text"@,
        !(primary_key && (n == "id"@ || ends_with(n, "_id"@)))
            && !(ends_with(n, "_id"@) || starts_with(n, "id_"@)) && !(has_infix(n, "email"@))
            && !(has_infix(n, "name"@)) && !(has_infix(n, "phone"@) || has_infix(n, "tel"@))
            && !(has_infix(n, "address"@)) && !(has_infix(n, "date"@) || has_infix(n, "time"@))
            && !(has_infix(n, "price"@) || has_infix(n, "cost"@) || has_infix(n, "amount"@))
            && !(has_infix(n, "qty"@) || has_infix(n, "quantity"@) || has_infix(n, "count"@))
            && !(has_infix(n, "status"@) || has_infix(n, "state"@))
            && !(has_infix(n, "active"@) || has_infix(n, "enabled"@) || has_infix(n, "is_"@))
            && !(has_infix(n, "description"@) || has_infix(n, "desc"@))
            && (has_infix(n, "url"@) || has_infix(n, "link"@))
            ==> column_purpose(n, primary_key, t) == "URL/link"@,
        !(primary_key && (n == "id"@ || ends_with(n, "_id"@)))
            && !(ends_with(n, "_id"@) || starts_with(n, "id_"@)) && !(has_infix(n, "email"@))
            && !(has_infix(n, "name"@)) && !(has_infix(n, "phone"@) || has_infix(n, "tel"@))
            && !(has_infix(n, "address"@)) && !(has_infix(n, "date"@) || has_infix(n, "time"@))
            && !(has_infix(n, "price"@) || has_infix(n, "cost"@) || has_infix(n, "amount"@))
            && !(has_infix(n, "qty"@) || has_infix(n, "quantity"@) || has_infix(n, "count"@))
            && !(has_infix(n, "status"@) || has_infix(n, "state"@))
            && !(has_infix(n, "active"@) || has_infix(n, "enabled"@) || has_infix(n, "is_"@))
            && !(has_infix(n, "description"@) || has_infix(n, "desc"@))
            && !(has_infix(n, "url"@) || has_infix(n, "link"@))
            && (has_infix(n, "image"@) || has_infix(n, "photo"@) || has_infix(n, "avatar"@))
            ==> column_purpose(n, primary_key, t) == "Image reference"@,
        !(primary_key && (n == "id"@ || ends_with(n, "_id"@)))
            && !(ends_with(n, "_id"@) || starts_with(n, "id_"@)) && !(has_infix(n, "email"@))
            && !(has_infix(n, "name"@)) && !(has_infix(n, "phone"@) || has_infix(n, "tel"@))
            && !(has_infix(n, "address"@)) && !(has_infix(n, "date"@) || has_infix(n, "time"@))
            && !(has_infix(n, "price"@) || has_infix(n, "cost"@) || has_infix(n, "amount"@))
            && !(has_infix(n, "qty"@) || has_infix(n, "quantity"@) || has_infix(n, "count"@))
            && !(has_infix(n, "status"@) || has_infix(n, "state"@))
            && !(has_infix(n, "active"@) || has_infix(n, "enabled"@) || has_infix(n, "is_"@))
            && !(has_infix(n, "description"@) || has_infix(n, "desc"@))
            && !(has_infix(n, "url"@) || has_infix(n, "link"@))
            && !(has_infix(n, "image"@) || has_infix(n, "photo"@) || has_infix(n, "avatar"@))
            ==> column_purpose(n, primary_key, t) == (if t == "INTEGER"@ || t == "INT"@ {
            "Integer value"@
        } else if t == "REAL"@ || t == "FLOAT"@ || t == "DOUBLE"@ {
            "Decimal number"@
        } else if t == "TEXT"@ || t == "VARCHAR"@ {
            "Text content"@
        } else if t == "BLOB"@ {
            "Binary data"@
        } else if t == "BOOLEAN"@ {
            "True/false flag"@
        } else {
            "Data field"@
        }),
{
}

/// The description of a declared type, given in upper case.
pub fn describe_type(type_upper: &str) -> (r: String)
    ensures
        r@ == type_purpose(type_upper@),
{
    let t = type_upper;
    if str_eq(t, "INTEGER") || str_eq(t, "INT") {
        String::from_str("Integer value")
    } else if str_eq(t, "REAL") || str_eq(t, "FLOAT") || str_eq(t, "DOUBLE") {
        String::from_str("Decimal number")
    } else if str_eq(t, "TEXT") || str_eq(t, "VARCHAR") {
        String::from_str("Text content")
    } else if str_eq(t, "BLOB") {
        String::from_str("Binary data")
    } else if str_eq(t, "BOOLEAN") {
        String::from_str("True/false flag")
    } else {
        String::from_str("Data field")
    }
}

fn describe_late(n: &str, type_upper: &str) -> (r: String)
    ensures
        r@ == late_purpose(n@, type_upper@),
{
    if contains_str(n, "price") || contains_str(n, "cost") || contains_str(n, "amount") {
        String::from_str("Monetary value")
    } else if contains_str(n, "qty") || contains_str(n, "quantity") || contains_str(n, "count") {
        String::from_str("Quantity/count")
    } else if contains_str(n, "status") || contains_str(n, "state") {
        String::from_str("Status indicator")
    } else if contains_str(n, "active") || contains_str(n, "enabled") || contains_str(n, "is_") {
        String::from_str("Boolean flag")
    } else if contains_str(n, "description") || contains_str(n, "desc") {
        String::from_str("Description text")
    } else if contains_str(n, "url") || contains_str(n, "link") {
        String::from_str("URL/link")
    } else if contains_str(n, "image") || contains_str(n, "photo") || contains_str(n, "avatar") {
        String::from_str("Image reference")
    } else {
        describe_type(type_upper)
    }
}

/// The description of a column from its name already in lower case, its
/// primary-key flag and its declared type already in upper case.
pub fn classify_column(name_lower: &str, primary_key: bool, type_upper: &str) -> (r: String)
    ensures
        r@ == column_purpose(name_lower@, primary_key, type_upper@),
{
    let n = name_lower;
    if primary_key && (str_eq(n, "id") || ends_with_str(n, "_id")) {
        String::from_str("Primary identifier")
    } else if ends_with_str(n, "_id") || starts_with_str(n, "id_") {
        String::from_str("Foreign key reference")
    } else if contains_str(n, "email") {
        String::from_str("Email address")
    } else if contains_str(n, "name") {
        if contains_str(n, "first") {
            String::from_str("First name")
        } else if contains_str(n, "last") {
            String::from_str("Last name")
        } else {
            String::from_str("Name field")
        }
    } else if contains_str(n, "phone") || contains_str(n, "tel") {
        String::from_str("Phone number")
    } else if contains_str(n, "address") {
        String::from_str("Address information")
    } else if contains_str(n, "date") || contains_str(n, "time") {
        if contains_str(n, "created") || contains_str(n, "create") {
            String::from_str("Creation timestamp")
        } else if contains_str(n, "updated") || contains_str(n, "modified") {
            String::from_str("Last modification timestamp")
        } else {
            String::from_str("Date/time value")
        }
    } else {
        describe_late(n, type_upper)
    }
}

/// Infers a human-readable description of what a column likely represents,
/// from its name (compared in lower case), its primary-key flag and its
/// declared type (compared in upper case).
pub fn infer_column_purpose(column: &ColumnInfo) -> (r: String)
    ensures
        r@ == column_purpose(
            unicode_lowercase(column.name@),
            column.primary_key,
            unicode_uppercase(column.data_type@),
        ),
{
    let name_lower = to_lowercase(column.name.as_str());
    let type_upper = to_uppercase(column.data_type.as_str());
    classify_column(name_lower.as_str(), column.primary_key, type_upper.as_str())
}

/// The text of the statement that `index_list_sql` builds.
pub open spec fn index_list_statement(table: Seq<char>) -> Seq<char> {
    "PRAGMA index_list("@ + quote_ident(table) + ")"@
}

/// The statement listing the indexes of a table.
pub fn index_list_sql(table: &str) -> (r: String)
    ensures
        r@ == index_list_statement(table@),
{
    let mut out = String::from_str("PRAGMA index_list(");
    push_quoted(&mut out, table);
    out.append(")");
    out
}

/// The text of the statement that `index_info_sql` builds.
pub open spec fn index_info_statement(index_name: Seq<char>) -> Seq<char> {
    "PRAGMA index_info("@ + quote_ident(index_name) + ")"@
}

/// The statement listing the columns of an index.
pub fn index_info_sql(index_name: &str) -> (r: String)
    ensures
        r@ == index_info_statement(index_name@),
{
    let mut out = String::from_str("PRAGMA index_info(");
    push_quoted(&mut out, index_name);
    out.append(")");
    out
}

/// A column described by one row of `PRAGMA table_info`: its name, its
/// declared type when that cell reads as text, its not-null flag, its default
/// value and its position in the primary key (0 when it is not part of it).
/// A type that does not read as text is shown as "UNKNOWN".
pub fn column_from_pragma(
    name: String,
    declared_type: Option<String>,
    not_null: i32,
    default_value: Option<String>,
    pk_position: i32,
) -> (r: ColumnInfo)
    ensures
        r.name == name,
        r.data_type@ == (match declared_type {
            Some(t) => t@,
            None => "UNKNOWN"@,
        }),
        r.nullable == (not_null == 0),
        r.primary_key == (pk_position > 0),
        r.default_value == default_value,
{
    let data_type = match declared_type {
        Some(t) => t,
        None => String::from_str("UNKNOWN"),
    };
    ColumnInfo {
        name,
        data_type,
        nullable: not_null == 0,
        primary_key: pk_position > 0,
        default_value,
    }
}

/// An index described by one row of `PRAGMA index_list` (its name and its
/// unique flag) and by the columns that `PRAGMA index_info` gave for it, or
/// `None` when that listing failed, in which case no columns are shown.
pub fn index_from_pragma(name: String, unique_flag: i32, columns: Option<Vec<String>>) -> (r:
    IndexInfo)
    ensures
        r.name == name,
        r.unique == (unique_flag == 1),
        r.columns@ == (match columns {
            Some(c) => c@,
            None => Seq::<String>::empty(),
        }),
{
    let columns = match columns {
        Some(c) => c,
        None => Vec::new(),
    };
    IndexInfo { name, unique: unique_flag == 1, columns }
}

/// Checks that the table a command names exists: the command goes on only
/// when it does, and otherwise fails with an error that names the table.
pub fn require_table(table: &str, exists: bool) -> (r: Result<(), DbViewError>)
    ensures
        exists ==> r is Ok,
        !exists ==> (r matches Err(DbViewError::TableNotFound(n)) && n@ == table@),
{
    if exists {
        Ok(())
    } else {
        Err(DbViewError::TableNotFound(String::from_str(table)))
    }
}

} // verus!
