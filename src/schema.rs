use vstd::prelude::*;
use vstd::string::StringExecFns;
use crate::error::{detail_of, AppError};
use crate::text::{decimal_of, decimal_text, hex_digit, eq_ignore_ascii_case, texts_equal, texts_equal_ignore_ascii_case};

verus! {

/// One row of the catalog's description of the user table's columns.
#[derive(Debug, Clone)]
pub struct ColumnInfo {
    pub column_name: String,
    pub data_type: String,
    pub udt_name: String,
    pub is_nullable: String,
}

/// The number of columns of the user table.
pub const COLUMN_COUNT: usize = 6;

/// The name of the column at position `i` of the canonical table.
pub open spec fn expected_name(i: int) -> Seq<char> {
    if i == 0 {
        "id"@
    } else if i == 1 {
        "nickname"@
    } else if i == 2 {
        "email"@
    } else if i == 3 {
        "password_hash"@
    } else if i == 4 {
        "is_admin"@
    } else {
        "created_at"@
    }
}

/// The data type of the column at position `i` of the canonical table.
pub open spec fn expected_type(i: int) -> Seq<char> {
    if i == 0 {
        "uuid"@
    } else if i == 4 {
        "boolean"@
    } else if i == 5 {
        "timestamp with time zone"@
    } else {
        "text"@
    }
}

/// The type check of the row at position `i`: the identifier by its storage
/// type name, the others by data type up to ASCII case.
pub open spec fn type_ok(i: int, c: ColumnInfo) -> bool {
    if i == 0 {
        c.udt_name@ == "uuid"@
    } else {
        eq_ignore_ascii_case(c.data_type@, expected_type(i))
    }
}

/// The catalog row at position `i` matches the canonical column: same name,
/// same type (the identifier by its storage type name, the others by data type
/// up to ASCII case), and not nullable.
pub open spec fn column_ok(i: int, c: ColumnInfo) -> bool {
    &&& c.column_name@ == expected_name(i)
    &&& type_ok(i, c)
    &&& !eq_ignore_ascii_case(c.is_nullable@, "YES"@)
}

/// The catalog rows describe exactly the canonical columns, in order.
pub open spec fn columns_ok(cols: Seq<ColumnInfo>) -> bool {
    &&& cols.len() == COLUMN_COUNT
    &&& forall|i: int| 0 <= i < COLUMN_COUNT ==> #[trigger] column_ok(i, cols[i])
}

/// The first position, from `i` on, at which the rows stop matching: a row that
/// is wrong, a row that is missing, or the first extra row.
pub open spec fn first_bad_from(cols: Seq<ColumnInfo>, i: int) -> int
    decreases COLUMN_COUNT - i,
{
    if i < 0 || i >= COLUMN_COUNT || i >= cols.len() || !column_ok(i, cols[i]) {
        i
    } else {
        first_bad_from(cols, i + 1)
    }
}

/// The column that a mismatch is reported on: the expected column at the first
/// bad position, or the first extra column.
pub open spec fn offending_column(cols: Seq<ColumnInfo>) -> Seq<char> {
    let k = first_bad_from(cols, 0);
    if k < COLUMN_COUNT {
        expected_name(k)
    } else {
        cols[COLUMN_COUNT as int].column_name@
    }
}

/// The detail of the mismatch that validation reports. A wrong number of
/// columns gives both counts; otherwise the first wrong row gives its expected
/// and actual name, type or nullability. Each opens with `users.<column>: `.
pub open spec fn mismatch_detail(cols: Seq<ColumnInfo>) -> Seq<char> {
    let k = first_bad_from(cols, 0);
    let name = offending_column(cols);
    if cols.len() != COLUMN_COUNT {
        "users."@ + name + ": column count mismatch: expected 6, got "@ + decimal_of(cols.len())
    } else if cols[k].column_name@ != expected_name(k) {
        "users."@ + name + ": expected column '"@ + name + "', got '"@ + cols[k].column_name@ + "'"@
    } else if !type_ok(k, cols[k]) {
        "users."@ + name + ": expected type '"@ + expected_type(k) + "', got data_type='"@
            + cols[k].data_type@ + "' udt_name='"@ + cols[k].udt_name@ + "'"@
    } else {
        "users."@ + name + ": expected nullable=false, got nullable=true"@
    }
}

/// The catalog row that the canonical table's column `i` has when the table
/// was created by this service.
pub open spec fn canonical_row(i: int, c: ColumnInfo) -> bool {
    &&& c.column_name@ == expected_name(i)
    &&& c.data_type@ == expected_type(i)
    &&& (i == 0 ==> c.udt_name@ == "uuid"@)
    &&& c.is_nullable@ == "NO"@
}

fn expected_column(i: usize) -> (r: (&'static str, &'static str))
    requires
        i < COLUMN_COUNT,
    ensures
        r.0@ == expected_name(i as int),
        r.1@ == expected_type(i as int),
{
    if i == 0 {
        ("id", "uuid")
    } else if i == 1 {
        ("nickname", "text")
    } else if i == 2 {
        ("email", "text")
    } else if i == 3 {
        ("password_hash", "text")
    } else if i == 4 {
        ("is_admin", "boolean")
    } else {
        ("created_at", "timestamp with time zone")
    }
}

/// How the row at position `i` fails: 0 when it matches, 1 for its name,
/// 2 for its type, 3 for its nullability.
fn column_check(i: usize, c: &ColumnInfo) -> (r: u8)
    requires
        i < COLUMN_COUNT,
    ensures
        r == 0 <==> column_ok(i as int, *c),
        r == 1 <==> c.column_name@ != expected_name(i as int),
        r == 2 <==> c.column_name@ == expected_name(i as int) && !type_ok(i as int, *c),
        r == 3 <==> c.column_name@ == expected_name(i as int) && type_ok(i as int, *c)
            && eq_ignore_ascii_case(c.is_nullable@, "YES"@),
{
    let (name, ty) = expected_column(i);
    if !texts_equal(c.column_name.as_str(), name) {
        return 1;
    }
    let type_matches = if i == 0 {
        texts_equal(c.udt_name.as_str(), "uuid")
    } else {
        texts_equal_ignore_ascii_case(c.data_type.as_str(), ty)
    };
    if !type_matches {
        return 2;
    }
    if texts_equal_ignore_ascii_case(c.is_nullable.as_str(), "YES") {
        return 3;
    }
    0
}

/// The first position at which the rows stop matching.
fn first_bad(columns: &Vec<ColumnInfo>) -> (k: usize)
    ensures
        k as int == first_bad_from(columns@, 0),
        k <= COLUMN_COUNT,
        k <= columns@.len(),
        forall|j: int| 0 <= j < k ==> #[trigger] column_ok(j, columns@[j]),
        k < COLUMN_COUNT && k < columns@.len() ==> !column_ok(k as int, columns@[k as int]),
{
    let n = columns.len();
    let mut i: usize = 0;
    while i < COLUMN_COUNT && i < n
        invariant
            0 <= i <= COLUMN_COUNT,
            i <= n,
            n == columns@.len(),
            forall|j: int| 0 <= j < i ==> #[trigger] column_ok(j, columns@[j]),
            first_bad_from(columns@, 0) == first_bad_from(columns@, i as int),
        decreases COLUMN_COUNT - i,
    {
        if column_check(i, &columns[i]) != 0 {
            return i;
        }
        i = i + 1;
    }
    i
}

/// Checks the user table's columns, listed by position, against the canonical
/// six: a mismatch names the offending column with its expected and actual values.
pub fn validate_columns(columns: &Vec<ColumnInfo>) -> (r: Result<(), AppError>)
    ensures
        r is Ok <==> columns_ok(columns@),
        r is Err ==> r->Err_0 is SchemaMismatch,
        r is Err ==> r->Err_0.detail() == mismatch_detail(columns@),
{
    let n = columns.len();
    let k = first_bad(columns);
    let name: &str = if k < COLUMN_COUNT {
        expected_column(k).0
    } else if n > COLUMN_COUNT {
        columns[COLUMN_COUNT].column_name.as_str()
    } else {
        ""
    };
    if n != COLUMN_COUNT {
        let d = String::from_str("users.").concat(name).concat(
            ": column count mismatch: expected 6, got ",
        ).concat(decimal_text(n).as_str());
        return Err(AppError::SchemaMismatch(d));
    }
    if k == COLUMN_COUNT {
        assert(columns_ok(columns@));
        return Ok(());
    }
    let actual = &columns[k];
    let kind = column_check(k, actual);
    let d = if kind == 1 {
        String::from_str("users.").concat(name).concat(": expected column '").concat(name).concat(
            "', got '",
        ).concat(actual.column_name.as_str()).concat("'")
    } else if kind == 2 {
        String::from_str("users.").concat(name).concat(": expected type '").concat(
            expected_column(k).1,
        ).concat("', got data_type='").concat(actual.data_type.as_str()).concat(
            "' udt_name='",
        ).concat(actual.udt_name.as_str()).concat("'")
    } else {
        String::from_str("users.").concat(name).concat(": expected nullable=false, got nullable=true")
    };
    Err(AppError::SchemaMismatch(d))
}

/// Checks the key constraints: a primary key on `id`, and uniqueness on `email`
/// and on `nickname`.
pub fn validate_constraints(primary_key_ok: bool, email_unique_ok: bool, nickname_unique_ok: bool) -> (r: Result<(), AppError>)
    ensures
        r is Ok <==> primary_key_ok && email_unique_ok && nickname_unique_ok,
        r is Err ==> r->Err_0 is SchemaMismatch,
{
    if !primary_key_ok || !email_unique_ok || !nickname_unique_ok {
        return Err(AppError::SchemaMismatch(String::from_str(
            "users table constraints mismatch; expected primary key(id) and unique(email,nickname)",
        )));
    }
    Ok(())
}

/// What the startup guard has just learnt from the store.
#[derive(Debug)]
pub enum SchemaEvent {
    /// The answer to the connectivity probe.
    Probed(Result<(), String>),
    /// Whether the user table exists.
    TableExists(Result<bool, String>),
    /// The outcome of creating the canonical table.
    Created(Result<(), String>),
    /// The table's columns, by position.
    Columns(Result<Vec<ColumnInfo>, String>),
    /// Whether the primary key on `id` and the uniqueness of `email` and of
    /// `nickname` are in place.
    Constraints(Result<(bool, bool, bool), String>),
}

/// What the startup guard asks for next.
#[derive(Debug)]
pub enum SchemaAction {
    /// Probe the store with a trivial query.
    Probe,
    CheckTableExists,
    CreateTable,
    FetchColumns,
    FetchConstraints,
    /// The schema is in place: the service may accept traffic.
    Ready,
    /// Startup must stop with this error.
    Abort(AppError),
}

fn store_failure(message: &str) -> (r: AppError)
    ensures
        r is Internal,
{
    AppError::Internal(detail_of("database error: ", message))
}

/// The startup guard's decision on each event: an unreachable store aborts
/// with service-unavailable; a missing table is created, and creation ends the
/// check; an existing table has its columns, then its constraints, validated;
/// any failed query aborts with an internal error. It never alters an existing table.
pub fn ensure_schema_step(event: &SchemaEvent) -> (r: SchemaAction)
    ensures
        match event {
            SchemaEvent::Probed(Ok(())) => r is CheckTableExists,
            SchemaEvent::Probed(Err(_)) => r is Abort && r->Abort_0 is ServiceUnavailable,
            SchemaEvent::TableExists(Ok(exists)) => if *exists { r is FetchColumns } else { r is CreateTable },
            SchemaEvent::Created(Ok(())) => r is Ready,
            SchemaEvent::Columns(Ok(cols)) => if columns_ok(cols@) {
                r is FetchConstraints
            } else {
                r is Abort && r->Abort_0 is SchemaMismatch
                    && r->Abort_0.detail() == mismatch_detail(cols@)
            },
            SchemaEvent::Constraints(Ok((pk, email, nick))) => if *pk && *email && *nick {
                r is Ready
            } else {
                r is Abort && r->Abort_0 is SchemaMismatch
            },
            _ => r is Abort && r->Abort_0 is Internal,
        },
{
    match event {
        SchemaEvent::Probed(Ok(())) => SchemaAction::CheckTableExists,
        SchemaEvent::Probed(Err(e)) => SchemaAction::Abort(AppError::ServiceUnavailable(detail_of(
            "unable to reach PostgreSQL during startup: ",
            e.as_str(),
        ))),
        SchemaEvent::TableExists(Ok(exists)) => if *exists {
            SchemaAction::FetchColumns
        } else {
            SchemaAction::CreateTable
        },
        SchemaEvent::Created(Ok(())) => SchemaAction::Ready,
        SchemaEvent::Columns(Ok(cols)) => match validate_columns(cols) {
            Ok(()) => SchemaAction::FetchConstraints,
            Err(e) => SchemaAction::Abort(e),
        },
        SchemaEvent::Constraints(Ok((pk, email, nick))) => match validate_constraints(*pk, *email, *nick) {
            Ok(()) => SchemaAction::Ready,
            Err(e) => SchemaAction::Abort(e),
        },
        SchemaEvent::TableExists(Err(e)) => SchemaAction::Abort(store_failure(e.as_str())),
        SchemaEvent::Created(Err(e)) => SchemaAction::Abort(store_failure(e.as_str())),
        SchemaEvent::Columns(Err(e)) => SchemaAction::Abort(store_failure(e.as_str())),
        SchemaEvent::Constraints(Err(e)) => SchemaAction::Abort(store_failure(e.as_str())),
    }
}

/// A table whose columns are the canonical ones but for a missing `is_admin`
/// fails validation, and the mismatch names `is_admin` and gives both counts.
pub proof fn lemma_missing_is_admin_named(cols: Seq<ColumnInfo>)
    requires
        cols.len() == 5,
        forall|i: int| 0 <= i < 4 ==> #[trigger] column_ok(i, cols[i]),
        cols[4].column_name@ == expected_name(5),
    ensures
        !columns_ok(cols),
        offending_column(cols) == "is_admin"@,
        mismatch_detail(cols) == "users."@ + "is_admin"@ + ": column count mismatch: expected 6, got "@ + seq!['5'],
{
    reveal_strlit("is_admin");
    reveal_strlit("created_at");
    assert("is_admin"@.len() != "created_at"@.len());
    assert(!column_ok(4, cols[4]));
    assert(first_bad_from(cols, 4) == 4);
    assert(first_bad_from(cols, 3) == 4);
    assert(first_bad_from(cols, 2) == 4);
    assert(first_bad_from(cols, 1) == 4);
    assert(first_bad_from(cols, 0) == 4);
    assert(decimal_of(5) == seq![hex_digit(5)]);
}

/// The table as this service creates it passes validation: after creating a
/// missing table, the next start finds it in order.
pub proof fn lemma_created_table_validates(cols: Seq<ColumnInfo>)
    requires
        cols.len() == COLUMN_COUNT,
        forall|i: int| 0 <= i < COLUMN_COUNT ==> #[trigger] canonical_row(i, cols[i]),
    ensures
        columns_ok(cols),
{
    reveal_strlit("NO");
    reveal_strlit("YES");
    assert forall|i: int| 0 <= i < COLUMN_COUNT implies #[trigger] column_ok(i, cols[i]) by {
        assert(canonical_row(i, cols[i]));
        assert(!eq_ignore_ascii_case(cols[i].is_nullable@, "YES"@));
    }
}

} // verus!
