//! The value model: column type tags, the tagged value container, the
//! engine-level value shape, and the error taxonomy.

use vstd::prelude::*;
use crate::types::RowID;

verus! {

/// The closed set of column types a schema field can have.
///
/// The tag drives both the column DDL emitted for the field (`RowID` becomes
/// the integer primary key, `Int`/`Text` become NOT NULL columns, the nullable
/// variants become nullable columns) and the binding routine used for the
/// field's values.
#[derive(Clone, Copy, Debug, PartialEq, Eq, Structural)]
pub enum DbDataType {
    Int,
    NullableInt,
    Text,
    NullableText,
    RowID,
}

/// A type-erased field value.  The variant is the runtime tag: tag and payload
/// can never disagree, by construction.
#[derive(Debug)]
pub enum DbData {
    Int(i64),
    NullableInt(Option<i64>),
    Text(String),
    NullableText(Option<String>),
    RowID(RowID),
}

/// The mathematical model of a [`DbData`] value: the same five variants over
/// unbounded integers and character sequences.  A row identity is modelled as
/// the optional key: `None` for a not yet persisted object, `Some` for a
/// known primary key.
pub enum DbValue {
    Int(int),
    NullableInt(Option<int>),
    Text(Seq<char>),
    NullableText(Option<Seq<char>>),
    RowID(Option<int>),
}

impl DbValue {
    /// The type tag a value carries.
    pub open spec fn tag(self) -> DbDataType {
        match self {
            DbValue::Int(_) => DbDataType::Int,
            DbValue::NullableInt(_) => DbDataType::NullableInt,
            DbValue::Text(_) => DbDataType::Text,
            DbValue::NullableText(_) => DbDataType::NullableText,
            DbValue::RowID(_) => DbDataType::RowID,
        }
    }
}

impl View for DbData {
    type V = DbValue;

    open spec fn view(&self) -> DbValue {
        match self {
            DbData::Int(x) => DbValue::Int(*x as int),
            DbData::NullableInt(o) => match o {
                Option::Some(x) => DbValue::NullableInt(Option::Some(*x as int)),
                Option::None => DbValue::NullableInt(Option::None),
            },
            DbData::Text(s) => DbValue::Text(s@),
            DbData::NullableText(o) => match o {
                Option::Some(s) => DbValue::NullableText(Option::Some(s@)),
                Option::None => DbValue::NullableText(Option::None),
            },
            DbData::RowID(r) => DbValue::RowID(r.spec_id()),
        }
    }
}

impl DbData {
    /// The runtime tag of the carried value.
    pub fn db_data_type(&self) -> (r: DbDataType)
        ensures
            r == self@.tag(),
    {
        match self {
            DbData::Int(_) => DbDataType::Int,
            DbData::NullableInt(_) => DbDataType::NullableInt,
            DbData::Text(_) => DbDataType::Text,
            DbData::NullableText(_) => DbDataType::NullableText,
            DbData::RowID(_) => DbDataType::RowID,
        }
    }
}

/// What actually crosses the engine boundary for one column: a bound
/// parameter on the way in, a decoded column on the way out.
#[derive(Debug)]
pub enum SqlValue {
    Null,
    Integer(i64),
    Text(String),
}

/// The mathematical model of a [`SqlValue`].
pub enum SqlData {
    Null,
    Integer(int),
    Text(Seq<char>),
}

impl View for SqlValue {
    type V = SqlData;

    open spec fn view(&self) -> SqlData {
        match self {
            SqlValue::Null => SqlData::Null,
            SqlValue::Integer(x) => SqlData::Integer(*x as int),
            SqlValue::Text(s) => SqlData::Text(s@),
        }
    }
}

/// An engine-independent boolean expression tree over column names and
/// literal values, used to filter queries and deletes.
///
/// A condition is pure data: the adaptor renders it to a parameterized
/// statement fragment, and [`cond_eval`] says which rows it is meant to
/// match.
#[derive(Debug)]
pub enum Cond {
    /// The named column holds SQL NULL.
    IsNull(String),
    /// The named column equals the integer literal.
    EqualsInteger(String, i64),
    /// The named column equals the text literal.
    EqualsText(String, String),
    /// Both subtrees match.
    And(Box<Cond>, Box<Cond>),
    /// At least one subtree matches.
    Or(Box<Cond>, Box<Cond>),
}

/// Which rows a condition matches: a row is a finite map from column name to
/// the engine-level value stored there.  A comparison against a column the
/// row does not have, or against a NULL column, does not match.
pub open spec fn cond_eval(c: Cond, row: Map<Seq<char>, SqlData>) -> bool
    decreases c,
{
    match c {
        Cond::IsNull(col) => row.dom().contains(col@) && row[col@] is Null,
        Cond::EqualsInteger(col, x) => row.dom().contains(col@) && row[col@] == SqlData::Integer(
            x as int,
        ),
        Cond::EqualsText(col, t) => row.dom().contains(col@) && row[col@] == SqlData::Text(t@),
        Cond::And(a, b) => cond_eval(*a, row) && cond_eval(*b, row),
        Cond::Or(a, b) => cond_eval(*a, row) || cond_eval(*b, row),
    }
}

impl Cond {
    /// A condition matching rows whose column holds SQL NULL.
    pub fn is_null(column: &str) -> (r: Cond)
        ensures
            r matches Cond::IsNull(c) && c@ == column@,
            forall|row: Map<Seq<char>, SqlData>| #[trigger]
                cond_eval(r, row) == (row.dom().contains(column@) && row[column@] is Null),
    {
        Cond::IsNull(column.to_owned())
    }

    /// A condition matching rows whose column equals the integer literal.
    pub fn equals_integer(column: &str, literal: i64) -> (r: Cond)
        ensures
            r matches Cond::EqualsInteger(c, x) && c@ == column@ && x == literal,
            forall|row: Map<Seq<char>, SqlData>| #[trigger]
                cond_eval(r, row) == (row.dom().contains(column@) && row[column@]
                    == SqlData::Integer(literal as int)),
    {
        Cond::EqualsInteger(column.to_owned(), literal)
    }

    /// A condition matching rows whose column equals the text literal.
    pub fn equals_text(column: &str, literal: &str) -> (r: Cond)
        ensures
            r matches Cond::EqualsText(c, t) && c@ == column@ && t@ == literal@,
            forall|row: Map<Seq<char>, SqlData>| #[trigger]
                cond_eval(r, row) == (row.dom().contains(column@) && row[column@] == SqlData::Text(
                    literal@,
                )),
    {
        Cond::EqualsText(column.to_owned(), literal.to_owned())
    }

    /// The conjunction of two conditions.
    pub fn and(a: Cond, b: Cond) -> (r: Cond)
        ensures
            r matches Cond::And(l, rr) && *l == a && *rr == b,
            forall|row: Map<Seq<char>, SqlData>| #[trigger]
                cond_eval(r, row) == (cond_eval(a, row) && cond_eval(b, row)),
    {
        Cond::And(Box::new(a), Box::new(b))
    }

    /// The disjunction of two conditions.
    pub fn or(a: Cond, b: Cond) -> (r: Cond)
        ensures
            r matches Cond::Or(l, rr) && *l == a && *rr == b,
            forall|row: Map<Seq<char>, SqlData>| #[trigger]
                cond_eval(r, row) == (cond_eval(a, row) || cond_eval(b, row)),
    {
        Cond::Or(Box::new(a), Box::new(b))
    }
}

/// The shape of the condition `or(is_null(col), equals_integer(col, x))`.
pub open spec fn or_null_or_equals_shape(c: Cond, col: Seq<char>, x: int) -> bool {
    match c {
        Cond::Or(a, b) => match (*a, *b) {
            (Cond::IsNull(c1), Cond::EqualsInteger(c2, y)) => c1@ == col && c2@ == col && y as int
                == x,
            _ => false,
        },
        _ => false,
    }
}

/// Condition semantics law: `or(is_null(col), equals_integer(col, x))`
/// matches exactly the rows where the column is NULL or equals `x`, and no
/// others.
pub proof fn lemma_or_null_or_equals(c: Cond, col: Seq<char>, x: int, row: Map<Seq<char>, SqlData>)
    requires
        or_null_or_equals_shape(c, col, x),
    ensures
        cond_eval(c, row) <==> (row.dom().contains(col) && (row[col] is Null || row[col]
            == SqlData::Integer(x))),
{
    match c {
        Cond::Or(a, b) => {
            match (*a, *b) {
                (Cond::IsNull(c1), Cond::EqualsInteger(c2, y)) => {
                    assert(cond_eval(c, row) == (cond_eval(*a, row) || cond_eval(*b, row)));
                },
                _ => {
                    assert(false);
                },
            }
        },
        _ => {
            assert(false);
        },
    }
}

/// Everything that can go wrong at the engine boundary or at schema
/// registration.
#[derive(Clone, Copy, Debug, PartialEq, Eq, Structural)]
pub enum DbError {
    /// The engine could not open or create the store.
    OpenFailure,
    /// The engine rejected the statement text.
    PrepareFailure,
    /// A value could not be bound to its parameter.
    BindFailure,
    /// The engine reported an error mid-step, or handed back a column value
    /// that does not fit the schema's declared type at that position.
    ExecutionFault,
    /// The schema breaks a registration-time invariant: more than one RowID
    /// field.
    SchemaInvariant,
}

} // verus!
