//! Statement generation for a SQLite-flavoured engine: table creation DDL,
//! parameterized INSERT, SELECT and DELETE texts, the binding plan for a
//! record's values, row decoding, and the lifecycle of a query row sequence.
//!
//! Everything here computes over plain values; the unverified driver passes
//! the produced statement text and parameters across the native boundary.

use vstd::prelude::*;
use vstd::string::StringExecFns;
use crate::db::{Cond, DbData, DbDataType, DbError, DbValue, SqlData, SqlValue};
use crate::types::{lemma_rowid_count_take_step, rowid_count, RowID, Schema};

verus! {

/// The DDL fragment a column type turns into.
pub open spec fn ddl_of(t: DbDataType) -> Seq<char> {
    match t {
        DbDataType::Int => " INTEGER NOT NULL"@,
        DbDataType::NullableInt => "INTEGER"@,
        DbDataType::Text => "TEXT NOT NULL"@,
        DbDataType::NullableText => "TEXT"@,
        DbDataType::RowID => "INTEGER PRIMARY KEY"@,
    }
}

fn ddl_fragment(t: DbDataType) -> (r: &'static str)
    ensures
        r@ == ddl_of(t),
{
    match t {
        DbDataType::Int => " INTEGER NOT NULL",
        DbDataType::NullableInt => "INTEGER",
        DbDataType::Text => "TEXT NOT NULL",
        DbDataType::NullableText => "TEXT",
        DbDataType::RowID => "INTEGER PRIMARY KEY",
    }
}

/// The decimal digit character for a value below ten.
pub open spec fn digit_char(d: nat) -> char {
    if d == 0 {
        '0'
    } else if d == 1 {
        '1'
    } else if d == 2 {
        '2'
    } else if d == 3 {
        '3'
    } else if d == 4 {
        '4'
    } else if d == 5 {
        '5'
    } else if d == 6 {
        '6'
    } else if d == 7 {
        '7'
    } else if d == 8 {
        '8'
    } else {
        '9'
    }
}

/// The usual decimal rendering of a number, most significant digit first,
/// without leading zeros.
pub open spec fn decimal_of(n: nat) -> Seq<char>
    decreases n,
{
    if n < 10 {
        seq![digit_char(n)]
    } else {
        decimal_of(n / 10) + seq![digit_char(n % 10)]
    }
}

fn digit_str(d: usize) -> (r: &'static str)
    requires
        d < 10,
    ensures
        r@ == seq![digit_char(d as nat)],
{
    proof {
        reveal_strlit("0");
        reveal_strlit("1");
        reveal_strlit("2");
        reveal_strlit("3");
        reveal_strlit("4");
        reveal_strlit("5");
        reveal_strlit("6");
        reveal_strlit("7");
        reveal_strlit("8");
        reveal_strlit("9");
    }
    let r: &'static str = if d == 0 {
        "0"
    } else if d == 1 {
        "1"
    } else if d == 2 {
        "2"
    } else if d == 3 {
        "3"
    } else if d == 4 {
        "4"
    } else if d == 5 {
        "5"
    } else if d == 6 {
        "6"
    } else if d == 7 {
        "7"
    } else if d == 8 {
        "8"
    } else {
        "9"
    };
    proof {
        assert(r@ =~= seq![digit_char(d as nat)]);
    }
    r
}

/// Render a number in decimal.
pub fn decimal_string(n: usize) -> (r: String)
    ensures
        r@ == decimal_of(n as nat),
    decreases n,
{
    if n < 10 {
        let mut s = String::new();
        s.append(digit_str(n));
        proof {
            assert(s@ =~= decimal_of(n as nat));
        }
        s
    } else {
        assert(n / 10 < n);
        let mut s = decimal_string(n / 10);
        s.append(digit_str(n % 10));
        proof {
            assert(s@ =~= decimal_of(n as nat));
        }
        s
    }
}

/// The field list of a schema, as the models of the exec pairs.
pub open spec fn field_views(s: Seq<(String, DbDataType)>) -> Seq<(Seq<char>, DbDataType)> {
    s.map_values(|p: (String, DbDataType)| (p.0@, p.1))
}

/// The comma separator standing before the fragment for field `n - 1`.
pub open spec fn list_sep(n: int) -> Seq<char> {
    if n == 1 {
        Seq::<char>::empty()
    } else {
        ", "@
    }
}

/// The column declarations of the first `n` fields, comma separated: each is
/// the field name, a space, and the type's DDL fragment.
pub open spec fn create_cols(fields: Seq<(Seq<char>, DbDataType)>, n: int) -> Seq<char>
    decreases n,
{
    if n <= 0 {
        Seq::<char>::empty()
    } else {
        create_cols(fields, n - 1) + list_sep(n) + fields[n - 1].0 + " "@ + ddl_of(fields[n - 1].1)
    }
}

/// The names of the first `n` fields, comma separated.
pub open spec fn name_list(fields: Seq<(Seq<char>, DbDataType)>, n: int) -> Seq<char>
    decreases n,
{
    if n <= 0 {
        Seq::<char>::empty()
    } else {
        name_list(fields, n - 1) + list_sep(n) + fields[n - 1].0
    }
}

/// `n` positional placeholders `?1, ?2, ...`, comma separated.
pub open spec fn placeholder_list(n: int) -> Seq<char>
    decreases n,
{
    if n <= 0 {
        Seq::<char>::empty()
    } else {
        placeholder_list(n - 1) + list_sep(n) + "?"@ + decimal_of(n as nat)
    }
}

/// The idempotent DDL statement for a table: one column per field in
/// declared order, with nullability and the primary key following the tags.
pub open spec fn create_table_sql(name: Seq<char>, fields: Seq<(Seq<char>, DbDataType)>) -> Seq<
    char,
> {
    "CREATE TABLE IF NOT EXISTS "@ + name + " ("@ + create_cols(fields, fields.len() as int)
        + ");"@
}

/// The parameterized INSERT statement for a table: the field names in
/// declared order, and one positional placeholder per field.
pub open spec fn insert_sql(name: Seq<char>, fields: Seq<(Seq<char>, DbDataType)>) -> Seq<char> {
    "INSERT INTO "@ + name + " ("@ + name_list(fields, fields.len() as int) + ") VALUES ("@
        + placeholder_list(fields.len() as int) + ");"@
}

/// The SELECT statement over all fields of a table, in declared order.
pub open spec fn select_sql(name: Seq<char>, fields: Seq<(Seq<char>, DbDataType)>) -> Seq<char> {
    "SELECT "@ + name_list(fields, fields.len() as int) + " FROM "@ + name + ";"@
}

/// Build the CREATE TABLE statement text for a schema name and field list.
pub fn get_create_table_stmt_code(schema_name: &str, fields: &Vec<(String, DbDataType)>) -> (r:
    String)
    ensures
        r@ == create_table_sql(schema_name@, field_views(fields@)),
{
    let ghost gfields = field_views(fields@);
    let mut s = String::new();
    s.append("CREATE TABLE IF NOT EXISTS ");
    s.append(schema_name);
    s.append(" (");
    let mut i: usize = 0;
    while i < fields.len()
        invariant
            i <= fields@.len(),
            gfields == field_views(fields@),
            gfields.len() == fields@.len(),
            s@ == "CREATE TABLE IF NOT EXISTS "@ + schema_name@ + " ("@ + create_cols(
                gfields,
                i as int,
            ),
        decreases fields@.len() - i,
    {
        if i != 0 {
            s.append(", ");
        }
        s.append(fields[i].0.as_str());
        s.append(" ");
        s.append(ddl_fragment(fields[i].1));
        proof {
            assert(gfields[i as int] == (fields@[i as int].0@, fields@[i as int].1));
            assert(s@ =~= "CREATE TABLE IF NOT EXISTS "@ + schema_name@ + " ("@ + create_cols(
                gfields,
                i + 1,
            ));
        }
        i = i + 1;
    }
    s.append(");");
    proof {
        assert(s@ =~= create_table_sql(schema_name@, gfields));
    }
    s
}

/// Build the INSERT statement text for a schema name and field list.
pub fn get_insert_value_stmt_code(schema_name: &str, fields: &Vec<(String, DbDataType)>) -> (r:
    String)
    ensures
        r@ == insert_sql(schema_name@, field_views(fields@)),
{
    let ghost gfields = field_views(fields@);
    let mut s = String::new();
    s.append("INSERT INTO ");
    s.append(schema_name);
    s.append(" (");
    let mut i: usize = 0;
    while i < fields.len()
        invariant
            i <= fields@.len(),
            gfields == field_views(fields@),
            gfields.len() == fields@.len(),
            s@ == "INSERT INTO "@ + schema_name@ + " ("@ + name_list(gfields, i as int),
        decreases fields@.len() - i,
    {
        if i != 0 {
            s.append(", ");
        }
        s.append(fields[i].0.as_str());
        proof {
            assert(gfields[i as int] == (fields@[i as int].0@, fields@[i as int].1));
            assert(s@ =~= "INSERT INTO "@ + schema_name@ + " ("@ + name_list(gfields, i + 1));
        }
        i = i + 1;
    }
    s.append(") VALUES (");
    let ghost mid = s@;
    let mut i: usize = 0;
    while i < fields.len()
        invariant
            i <= fields@.len(),
            gfields.len() == fields@.len(),
            mid == "INSERT INTO "@ + schema_name@ + " ("@ + name_list(
                gfields,
                gfields.len() as int,
            ) + ") VALUES ("@,
            s@ == mid + placeholder_list(i as int),
        decreases fields@.len() - i,
    {
        if i != 0 {
            s.append(", ");
        }
        s.append("?");
        let num = decimal_string(i + 1);
        s.append(num.as_str());
        proof {
            assert(s@ =~= mid + placeholder_list(i + 1));
        }
        i = i + 1;
    }
    s.append(");");
    proof {
        assert(s@ =~= insert_sql(schema_name@, gfields));
    }
    s
}

/// Build the SELECT statement text over all fields of a schema.
pub fn get_query_stmt(schema_name: &str, fields: &Vec<(String, DbDataType)>) -> (r: String)
    ensures
        r@ == select_sql(schema_name@, field_views(fields@)),
{
    let ghost gfields = field_views(fields@);
    let mut s = String::new();
    s.append("SELECT ");
    let mut i: usize = 0;
    while i < fields.len()
        invariant
            i <= fields@.len(),
            gfields == field_views(fields@),
            gfields.len() == fields@.len(),
            s@ == "SELECT "@ + name_list(gfields, i as int),
        decreases fields@.len() - i,
    {
        if i != 0 {
            s.append(", ");
        }
        s.append(fields[i].0.as_str());
        proof {
            assert(gfields[i as int] == (fields@[i as int].0@, fields@[i as int].1));
            assert(s@ =~= "SELECT "@ + name_list(gfields, i + 1));
        }
        i = i + 1;
    }
    s.append(" FROM ");
    s.append(schema_name);
    s.append(";");
    proof {
        assert(s@ =~= select_sql(schema_name@, gfields));
    }
    s
}

/// The models of a list of engine-level values, position by position.
pub open spec fn sql_views(s: Seq<SqlValue>) -> Seq<SqlData> {
    s.map_values(|v: SqlValue| v@)
}

/// The engine-level value bound for a field value: integers bind as
/// integers, text binds as text, an absent nullable value and an unassigned
/// row identity bind as NULL.
pub open spec fn bind_of(d: DbValue) -> SqlData {
    match d {
        DbValue::Int(x) => SqlData::Integer(x),
        DbValue::NullableInt(o) => match o {
            Option::Some(x) => SqlData::Integer(x),
            Option::None => SqlData::Null,
        },
        DbValue::Text(s) => SqlData::Text(s),
        DbValue::NullableText(o) => match o {
            Option::Some(s) => SqlData::Text(s),
            Option::None => SqlData::Null,
        },
        DbValue::RowID(o) => match o {
            Option::Some(x) => SqlData::Integer(x),
            Option::None => SqlData::Null,
        },
    }
}

/// The ordered binding plan for a record's values: what the driver must bind
/// at each positional parameter of the INSERT statement.
pub fn bind_ops(values: &Vec<DbData>) -> (r: Vec<SqlValue>)
    ensures
        r@.len() == values@.len(),
        forall|i: int| 0 <= i < r@.len() ==> (#[trigger] r@[i])@ == bind_of(values@[i]@),
{
    let mut r: Vec<SqlValue> = Vec::new();
    let mut i: usize = 0;
    while i < values.len()
        invariant
            i <= values@.len(),
            r@.len() == i,
            forall|j: int| 0 <= j < i ==> (#[trigger] r@[j])@ == bind_of(values@[j]@),
        decreases values@.len() - i,
    {
        let op = match &values[i] {
            DbData::Int(x) => SqlValue::Integer(*x),
            DbData::NullableInt(o) => match o {
                Option::Some(x) => SqlValue::Integer(*x),
                Option::None => SqlValue::Null,
            },
            DbData::Text(s) => SqlValue::Text(s.clone()),
            DbData::NullableText(o) => match o {
                Option::Some(s) => SqlValue::Text(s.clone()),
                Option::None => SqlValue::Null,
            },
            DbData::RowID(rid) => match rid {
                RowID::ID(x) => SqlValue::Integer(*x),
                RowID::NEW => SqlValue::Null,
            },
        };
        r.push(op);
        i = i + 1;
    }
    r
}

/// The parameterized fragment a condition renders to: every literal becomes
/// a placeholder, never interpolated text.
pub open spec fn cond_sql(c: Cond) -> Seq<char>
    decreases c,
{
    match c {
        Cond::IsNull(col) => "("@ + col@ + " IS NULL)"@,
        Cond::EqualsInteger(col, _) => "("@ + col@ + " = ?)"@,
        Cond::EqualsText(col, _) => "("@ + col@ + " = ?)"@,
        Cond::And(a, b) => "("@ + cond_sql(*a) + " AND "@ + cond_sql(*b) + ")"@,
        Cond::Or(a, b) => "("@ + cond_sql(*a) + " OR "@ + cond_sql(*b) + ")"@,
    }
}

/// The literals of a condition, in the left-to-right order of their
/// placeholders in [`cond_sql`].
pub open spec fn cond_binds(c: Cond) -> Seq<SqlData>
    decreases c,
{
    match c {
        Cond::IsNull(_) => Seq::<SqlData>::empty(),
        Cond::EqualsInteger(_, x) => seq![SqlData::Integer(x as int)],
        Cond::EqualsText(_, t) => seq![SqlData::Text(t@)],
        Cond::And(a, b) => cond_binds(*a) + cond_binds(*b),
        Cond::Or(a, b) => cond_binds(*a) + cond_binds(*b),
    }
}

/// Render a condition tree to its parameterized fragment and the ordered
/// literals to bind, one per placeholder, in order.
pub fn render_cond(c: &Cond) -> (r: (String, Vec<SqlValue>))
    ensures
        r.0@ == cond_sql(*c),
        sql_views(r.1@) == cond_binds(*c),
    decreases *c,
{
    match c {
        Cond::IsNull(col) => {
            let mut s = String::new();
            s.append("(");
            s.append(col.as_str());
            s.append(" IS NULL)");
            proof {
                assert(s@ =~= cond_sql(*c));
                assert(sql_views(Seq::<SqlValue>::empty()) =~= cond_binds(*c));
            }
            (s, Vec::new())
        },
        Cond::EqualsInteger(col, x) => {
            let mut s = String::new();
            s.append("(");
            s.append(col.as_str());
            s.append(" = ?)");
            let mut binds: Vec<SqlValue> = Vec::new();
            binds.push(SqlValue::Integer(*x));
            proof {
                assert(s@ =~= cond_sql(*c));
                assert(sql_views(binds@) =~= cond_binds(*c));
            }
            (s, binds)
        },
        Cond::EqualsText(col, t) => {
            let mut s = String::new();
            s.append("(");
            s.append(col.as_str());
            s.append(" = ?)");
            let mut binds: Vec<SqlValue> = Vec::new();
            binds.push(SqlValue::Text(t.clone()));
            proof {
                assert(s@ =~= cond_sql(*c));
                assert(sql_views(binds@) =~= cond_binds(*c));
            }
            (s, binds)
        },
        Cond::And(a, b) => {
            let (sa, mut ba) = render_cond(a);
            let (sb, mut bb) = render_cond(b);
            let mut s = String::new();
            s.append("(");
            s.append(sa.as_str());
            s.append(" AND ");
            s.append(sb.as_str());
            s.append(")");
            ba.append(&mut bb);
            proof {
                assert(s@ =~= cond_sql(*c));
                assert(sql_views(ba@) =~= cond_binds(*c));
            }
            (s, ba)
        },
        Cond::Or(a, b) => {
            let (sa, mut ba) = render_cond(a);
            let (sb, mut bb) = render_cond(b);
            let mut s = String::new();
            s.append("(");
            s.append(sa.as_str());
            s.append(" OR ");
            s.append(sb.as_str());
            s.append(")");
            ba.append(&mut bb);
            proof {
                assert(s@ =~= cond_sql(*c));
                assert(sql_views(ba@) =~= cond_binds(*c));
            }
            (s, ba)
        },
    }
}

/// Whether an engine-level value can decode to a field of the given type:
/// integers feed the integer-tagged fields, text feeds the text-tagged
/// fields, NULL feeds only the nullable fields.
pub open spec fn compatible(t: DbDataType, v: SqlData) -> bool {
    match t {
        DbDataType::Int => v is Integer,
        DbDataType::NullableInt => v is Integer || v is Null,
        DbDataType::Text => v is Text,
        DbDataType::NullableText => v is Text || v is Null,
        DbDataType::RowID => v is Integer,
    }
}

/// The field value an engine-level value decodes to under a declared type.
/// A NULL column decodes to the absent variant of a nullable field, never to
/// a zero or an empty-string substitute.
pub open spec fn decode_of(t: DbDataType, v: SqlData) -> DbValue
    recommends
        compatible(t, v),
{
    match t {
        DbDataType::Int => match v {
            SqlData::Integer(x) => DbValue::Int(x),
            _ => DbValue::Int(0),
        },
        DbDataType::NullableInt => match v {
            SqlData::Integer(x) => DbValue::NullableInt(Option::Some(x)),
            _ => DbValue::NullableInt(Option::None),
        },
        DbDataType::Text => match v {
            SqlData::Text(s) => DbValue::Text(s),
            _ => DbValue::Text(Seq::<char>::empty()),
        },
        DbDataType::NullableText => match v {
            SqlData::Text(s) => DbValue::NullableText(Option::Some(s)),
            _ => DbValue::NullableText(Option::None),
        },
        DbDataType::RowID => match v {
            SqlData::Integer(x) => DbValue::RowID(Option::Some(x)),
            _ => DbValue::RowID(Option::None),
        },
    }
}

/// Storage round trip: a value bound by its tag-appropriate routine and read
/// back under the same declared type comes back unchanged.  In particular an
/// absent nullable value is persisted as NULL and returns as the absent
/// variant.  The unassigned row identity is the one exception: it binds as
/// NULL so that the engine assigns the key.
pub proof fn lemma_store_round_trip(d: DbValue)
    requires
        d != DbValue::RowID(Option::<int>::None),
    ensures
        compatible(d.tag(), bind_of(d)),
        decode_of(d.tag(), bind_of(d)) == d,
{
}

/// A whole row can decode when it has one value per field and each value is
/// compatible with its field's declared type.
pub open spec fn row_compatible(fields: Seq<(Seq<char>, DbDataType)>, raws: Seq<SqlData>) -> bool {
    raws.len() == fields.len() && forall|i: int|
        0 <= i < fields.len() ==> compatible(#[trigger] fields[i].1, raws[i])
}

/// The decoded models of a compatible row, position by position.
pub open spec fn decoded_row(fields: Seq<(Seq<char>, DbDataType)>, raws: Seq<SqlData>) -> Seq<
    DbValue,
> {
    Seq::new(fields.len(), |i: int| decode_of(fields[i].1, raws[i]))
}

/// Decode one column value under a declared type, or report that the engine
/// handed back something the schema cannot hold.
fn decode_field(t: DbDataType, v: &SqlValue) -> (r: Option<DbData>)
    ensures
        match r {
            Option::Some(d) => compatible(t, v@) && d@ == decode_of(t, v@),
            Option::None => !compatible(t, v@),
        },
{
    match t {
        DbDataType::Int => match v {
            SqlValue::Integer(x) => Option::Some(DbData::Int(*x)),
            _ => Option::None,
        },
        DbDataType::NullableInt => match v {
            SqlValue::Integer(x) => Option::Some(DbData::NullableInt(Option::Some(*x))),
            SqlValue::Null => Option::Some(DbData::NullableInt(Option::None)),
            _ => Option::None,
        },
        DbDataType::Text => match v {
            SqlValue::Text(s) => Option::Some(DbData::Text(s.clone())),
            _ => Option::None,
        },
        DbDataType::NullableText => match v {
            SqlValue::Text(s) => Option::Some(DbData::NullableText(Option::Some(s.clone()))),
            SqlValue::Null => Option::Some(DbData::NullableText(Option::None)),
            _ => Option::None,
        },
        DbDataType::RowID => match v {
            SqlValue::Integer(x) => Option::Some(DbData::RowID(RowID::ID(*x))),
            _ => Option::None,
        },
    }
}

/// Decode a stepped row, column by column, by the schema's declared type at
/// each position.  A row that does not fit the schema is a fault, not a
/// silent end of the sequence.
pub fn decode_row(fields: &Vec<(String, DbDataType)>, raws: &Vec<SqlValue>) -> (r: Result<
    Vec<DbData>,
    DbError,
>)
    ensures
        match r {
            Result::Ok(vals) => row_compatible(field_views(fields@), sql_views(raws@))
                && vals@.len() == fields@.len() && forall|i: int|
                0 <= i < vals@.len() ==> (#[trigger] vals@[i])@ == decode_of(
                    fields@[i].1,
                    raws@[i]@,
                ),
            Result::Err(e) => e == DbError::ExecutionFault && !row_compatible(
                field_views(fields@),
                sql_views(raws@),
            ),
        },
{
    if raws.len() != fields.len() {
        return Result::Err(DbError::ExecutionFault);
    }
    let mut vals: Vec<DbData> = Vec::new();
    let mut i: usize = 0;
    while i < fields.len()
        invariant
            i <= fields@.len(),
            raws@.len() == fields@.len(),
            vals@.len() == i,
            forall|j: int|
                0 <= j < i ==> compatible(#[trigger] fields@[j].1, raws@[j]@) && vals@[j]@
                    == decode_of(fields@[j].1, raws@[j]@),
        decreases fields@.len() - i,
    {
        match decode_field(fields[i].1, &raws[i]) {
            Option::Some(d) => {
                vals.push(d);
            },
            Option::None => {
                proof {
                    assert(field_views(fields@)[i as int].1 == fields@[i as int].1);
                    assert(!row_compatible(field_views(fields@), sql_views(raws@)));
                }
                return Result::Err(DbError::ExecutionFault);
            },
        }
        i = i + 1;
    }
    proof {
        assert(forall|j: int|
            0 <= j < fields@.len() ==> compatible(
                #[trigger] field_views(fields@)[j].1,
                sql_views(raws@)[j],
            ));
    }
    Result::Ok(vals)
}

/// Decode a stepped row and build the structure from it.
pub fn from_raw_row<T: Schema>(raws: &Vec<SqlValue>) -> (r: Result<T, DbError>)
    ensures
        match r {
            Result::Ok(t) => row_compatible(T::spec_fields(), sql_views(raws@))
                && t.spec_values() == decoded_row(T::spec_fields(), sql_views(raws@)),
            Result::Err(e) => e == DbError::ExecutionFault && !row_compatible(
                T::spec_fields(),
                sql_views(raws@),
            ),
        },
{
    let fields = T::get_fields();
    proof {
        assert(field_views(fields@) =~= T::spec_fields());
    }
    match decode_row(&fields, raws) {
        Result::Ok(vals) => {
            proof {
                assert(forall|i: int|
                    0 <= i < vals@.len() ==> (#[trigger] vals@[i])@.tag()
                        == T::spec_fields()[i].1);
            }
            let t = T::create_with_values(vals);
            proof {
                assert(t.spec_values() =~= decoded_row(T::spec_fields(), sql_views(raws@)));
            }
            Result::Ok(t)
        },
        Result::Err(e) => Result::Err(e),
    }
}

/// What the engine reports for one step of a prepared statement: a row of
/// column values, normal completion, or an execution fault with the engine's
/// result code.  The three outcomes are kept apart so that a fault can never
/// be mistaken for the end of the rows.
#[derive(Debug)]
pub enum StepOutcome {
    Row(Vec<SqlValue>),
    Done,
    Fault(i32),
}

/// What a row sequence produces from one step: a decoded structure, the end
/// of the rows, or a surfaced fault.
#[derive(Debug)]
pub enum RowStep<T> {
    Row(T),
    End,
    Fault(DbError),
}

/// The lifecycle of a query row sequence, which owns one prepared statement:
/// rows are produced while it is live, `exhausted` becomes true at normal
/// completion or on a fault, and `finalized` records that the statement was
/// released, exactly once, at disposal.
pub struct RowSequence {
    pub exhausted: bool,
    pub finalized: bool,
}

/// Disposal as a transition: the statement handle must be released exactly
/// when it has not been released before, and afterwards the sequence is
/// finalized for good.
pub open spec fn dispose_transition(s: RowSequence) -> (RowSequence, bool) {
    (RowSequence { exhausted: s.exhausted, finalized: true }, !s.finalized)
}

impl RowSequence {
    /// A sequence is live while it may still step its statement.
    pub open spec fn live(self) -> bool {
        !self.exhausted && !self.finalized
    }

    /// A freshly opened sequence: statement prepared, nothing consumed.
    pub fn new() -> (r: RowSequence)
        ensures
            r.live(),
            !r.finalized,
            !r.exhausted,
    {
        RowSequence { exhausted: false, finalized: false }
    }

    /// Account for one engine step and decode its outcome.  Normal
    /// completion and faults end the rows; a fault is surfaced, never
    /// swallowed.
    pub fn on_step<T: Schema>(&mut self, outcome: &StepOutcome) -> (r: RowStep<T>)
        requires
            old(self).live(),
        ensures
            !final(self).finalized,
            match outcome {
                StepOutcome::Done => r is End && final(self).exhausted,
                StepOutcome::Fault(_) => (r matches RowStep::Fault(e) && e
                    == DbError::ExecutionFault) && final(self).exhausted,
                StepOutcome::Row(raws) => if row_compatible(T::spec_fields(), sql_views(raws@)) {
                    (r matches RowStep::Row(t) && t.spec_values() == decoded_row(
                        T::spec_fields(),
                        sql_views(raws@),
                    )) && final(self).live()
                } else {
                    (r matches RowStep::Fault(e) && e == DbError::ExecutionFault)
                        && final(self).exhausted
                },
            },
    {
        match outcome {
            StepOutcome::Done => {
                self.exhausted = true;
                RowStep::End
            },
            StepOutcome::Fault(_) => {
                self.exhausted = true;
                RowStep::Fault(DbError::ExecutionFault)
            },
            StepOutcome::Row(raws) => match from_raw_row::<T>(raws) {
                Result::Ok(t) => RowStep::Row(t),
                Result::Err(e) => {
                    self.exhausted = true;
                    RowStep::Fault(e)
                },
            },
        }
    }

    /// Dispose of the sequence.  The result says whether the caller must
    /// release the statement handle now: true the first time, false ever
    /// after, so the handle is released exactly once however many rows were
    /// consumed.
    pub fn dispose(&mut self) -> (do_release: bool)
        ensures
            (*final(self), do_release) == dispose_transition(*old(self)),
            final(self).finalized,
            do_release == !old(self).finalized,
    {
        let do_release = !self.finalized;
        self.finalized = true;
        do_release
    }
}

/// Sequence lifecycle law: after any disposal the sequence is finalized, and
/// disposing an already finalized sequence never asks for a second release.
pub proof fn lemma_dispose_once(s: RowSequence)
    ensures
        dispose_transition(s).0.finalized,
        !dispose_transition(dispose_transition(s).0).1,
{
}

/// Build the registration statement for a schema.  A schema with more than
/// one RowID field is rejected here, at registration, and never reaches the
/// engine.
pub fn create_table_stmt<T: Schema>() -> (r: Result<String, DbError>)
    ensures
        match r {
            Result::Ok(s) => rowid_count(T::spec_fields()) <= 1 && s@ == create_table_sql(
                T::spec_schema_name(),
                T::spec_fields(),
            ),
            Result::Err(e) => e == DbError::SchemaInvariant && rowid_count(T::spec_fields()) > 1,
        },
{
    let fields = T::get_fields();
    proof {
        assert(field_views(fields@) =~= T::spec_fields());
        assert(T::spec_fields().take(0) =~= Seq::<(Seq<char>, DbDataType)>::empty());
    }
    let mut count: usize = 0;
    let mut i: usize = 0;
    while i < fields.len()
        invariant
            i <= fields@.len(),
            field_views(fields@) == T::spec_fields(),
            fields@.len() == T::spec_fields().len(),
            count <= i,
            count as nat == rowid_count(T::spec_fields().take(i as int)),
        decreases fields@.len() - i,
    {
        proof {
            lemma_rowid_count_take_step(T::spec_fields(), i as int);
            assert(T::spec_fields()[i as int] == (fields@[i as int].0@, fields@[i as int].1));
        }
        if fields[i].1 == DbDataType::RowID {
            count = count + 1;
        }
        i = i + 1;
    }
    proof {
        assert(T::spec_fields().take(fields@.len() as int) =~= T::spec_fields());
    }
    if count > 1 {
        return Result::Err(DbError::SchemaInvariant);
    }
    let name = T::get_schema_name();
    Result::Ok(get_create_table_stmt_code(name.as_str(), &fields))
}

/// The engine-level values bound for a list of field values, in order.
pub open spec fn bound_values(vals: Seq<DbValue>) -> Seq<SqlData> {
    vals.map_values(|d: DbValue| bind_of(d))
}

/// Build the INSERT statement for a record: the parameterized text over the
/// schema's fields, and the binding plan for the record's values, one bound
/// literal per positional placeholder.
///
/// A record whose row identity is unassigned binds NULL at that position, so
/// the engine assigns the key; the inserted statement does not retrieve the
/// assigned key back into the caller's structure.
pub fn insert_record_stmt<T: Schema>(record: &T) -> (r: (String, Vec<SqlValue>))
    ensures
        r.0@ == insert_sql(T::spec_schema_name(), T::spec_fields()),
        sql_views(r.1@) == bound_values(record.spec_values()),
        r.1@.len() == T::spec_fields().len(),
{
    let fields = T::get_fields();
    let name = T::get_schema_name();
    proof {
        assert(field_views(fields@) =~= T::spec_fields());
        record.lemma_fields_values_agree();
    }
    let code = get_insert_value_stmt_code(name.as_str(), &fields);
    let values = record.get_values();
    let ops = bind_ops(&values);
    proof {
        assert(sql_views(ops@) =~= bound_values(record.spec_values()));
    }
    (code, ops)
}

/// Row storage round trip: the values a record binds for its INSERT, read
/// back under the same schema's declared types, decode to the record's
/// values again.  Absent nullable values survive as NULL and return as the
/// absent variant.  The law asks that no field hold an unassigned row
/// identity, which binds NULL so that the engine assigns a fresh key.
pub proof fn lemma_row_store_round_trip<T: Schema>(v: &T)
    requires
        forall|i: int|
            0 <= i < v.spec_values().len() ==> #[trigger] v.spec_values()[i] != DbValue::RowID(
                Option::<int>::None,
            ),
    ensures
        row_compatible(T::spec_fields(), bound_values(v.spec_values())),
        decoded_row(T::spec_fields(), bound_values(v.spec_values())) =~= v.spec_values(),
{
    v.lemma_fields_values_agree();
    let vals = v.spec_values();
    let raws = bound_values(vals);
    assert forall|i: int| 0 <= i < T::spec_fields().len() implies compatible(
        (#[trigger] T::spec_fields()[i]).1,
        raws[i],
    ) by {
        lemma_store_round_trip(vals[i]);
    }
    assert forall|i: int|
        0 <= i < vals.len() implies decoded_row(T::spec_fields(), raws)[i] == #[trigger] vals[i] by {
        lemma_store_round_trip(vals[i]);
    }
}

/// Build the SELECT statement over all rows of a schema's table.
pub fn query_all_stmt<T: Schema>() -> (r: String)
    ensures
        r@ == select_sql(T::spec_schema_name(), T::spec_fields()),
{
    let fields = T::get_fields();
    let name = T::get_schema_name();
    proof {
        assert(field_views(fields@) =~= T::spec_fields());
    }
    get_query_stmt(name.as_str(), &fields)
}

/// The SELECT statement over all fields, filtered by a condition's
/// parameterized fragment.
pub open spec fn select_where_sql(
    name: Seq<char>,
    fields: Seq<(Seq<char>, DbDataType)>,
    c: Cond,
) -> Seq<char> {
    "SELECT "@ + name_list(fields, fields.len() as int) + " FROM "@ + name + " WHERE "@ + cond_sql(
        c,
    ) + ";"@
}

/// The DELETE statement filtered by a condition's parameterized fragment.
pub open spec fn delete_where_sql(name: Seq<char>, c: Cond) -> Seq<char> {
    "DELETE FROM "@ + name + " WHERE "@ + cond_sql(c) + ";"@
}

/// Build the filtered SELECT statement for a schema: the text with the
/// condition rendered as placeholders, and the literals to bind, in order.
pub fn query_with_cond_stmt<T: Schema>(cond: &Cond) -> (r: (String, Vec<SqlValue>))
    ensures
        r.0@ == select_where_sql(T::spec_schema_name(), T::spec_fields(), *cond),
        sql_views(r.1@) == cond_binds(*cond),
{
    let fields = T::get_fields();
    let name = T::get_schema_name();
    let ghost gfields = field_views(fields@);
    proof {
        assert(gfields =~= T::spec_fields());
    }
    let mut s = String::new();
    s.append("SELECT ");
    let mut i: usize = 0;
    while i < fields.len()
        invariant
            i <= fields@.len(),
            gfields == field_views(fields@),
            gfields.len() == fields@.len(),
            s@ == "SELECT "@ + name_list(gfields, i as int),
        decreases fields@.len() - i,
    {
        if i != 0 {
            s.append(", ");
        }
        s.append(fields[i].0.as_str());
        proof {
            assert(gfields[i as int] == (fields@[i as int].0@, fields@[i as int].1));
            assert(s@ =~= "SELECT "@ + name_list(gfields, i + 1));
        }
        i = i + 1;
    }
    s.append(" FROM ");
    s.append(name.as_str());
    s.append(" WHERE ");
    let (frag, binds) = render_cond(cond);
    s.append(frag.as_str());
    s.append(";");
    proof {
        assert(s@ =~= select_where_sql(T::spec_schema_name(), T::spec_fields(), *cond));
    }
    (s, binds)
}

/// Build the filtered DELETE statement for a schema: the text with the
/// condition rendered as placeholders, and the literals to bind, in order.
pub fn delete_with_cond_stmt<T: Schema>(cond: &Cond) -> (r: (String, Vec<SqlValue>))
    ensures
        r.0@ == delete_where_sql(T::spec_schema_name(), *cond),
        sql_views(r.1@) == cond_binds(*cond),
{
    let name = T::get_schema_name();
    let mut s = String::new();
    s.append("DELETE FROM ");
    s.append(name.as_str());
    s.append(" WHERE ");
    let (frag, binds) = render_cond(cond);
    s.append(frag.as_str());
    s.append(";");
    proof {
        assert(s@ =~= delete_where_sql(T::spec_schema_name(), *cond));
    }
    (s, binds)
}

} // verus!
