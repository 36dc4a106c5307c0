//! Field conversion contracts, the row identity type, and the schema
//! contract that maps a structure to an ordered list of tagged values and
//! back.

use vstd::prelude::*;
use crate::db::{DbData, DbDataType, DbValue};

verus! {

/// Auto increment row ID field. It is represented as an integer primary key.
///
/// A schema can have at most one RowID field.
#[derive(Clone, Copy, Debug, PartialEq, Eq, Structural)]
pub enum RowID {
    /// A newly created object, so it does not have a row id yet.
    NEW,
    /// The row id retrieved from the database.
    ID(i64),
}

impl RowID {
    /// The optional primary key this identity stands for: `None` while the
    /// object has not been persisted, `Some` once a key is known.
    pub open spec fn spec_id(self) -> Option<int> {
        match self {
            RowID::NEW => Option::None,
            RowID::ID(x) => Option::Some(x as int),
        }
    }

    pub fn from_db_data(data: &DbData) -> (r: RowID)
        requires
            data@.tag() == DbDataType::RowID,
        ensures
            data@ == DbValue::RowID(r.spec_id()),
    {
        match data {
            DbData::RowID(r) => *r,
            _ => {
                proof {
                    assert(false);
                }
                RowID::NEW
            },
        }
    }

    pub fn to_db_data(&self) -> (r: DbData)
        ensures
            r@ == DbValue::RowID(self.spec_id()),
    {
        DbData::RowID(*self)
    }

    pub fn db_field_type() -> (r: DbDataType)
        ensures
            r == DbDataType::RowID,
    {
        DbDataType::RowID
    }
}

/// It can be serialized as a database text field.
pub trait TextField: Sized {
    /// The character sequence this value stands for.
    spec fn text_model(&self) -> Seq<char>;

    fn from_db_data(data: &DbData) -> (r: Self)
        requires
            data@.tag() == DbDataType::Text,
        ensures
            data@ == DbValue::Text(r.text_model()),
    ;

    fn to_db_data(&self) -> (r: DbData)
        ensures
            r@ == DbValue::Text(self.text_model()),
    ;

    fn db_field_type() -> (r: DbDataType)
        ensures
            r == DbDataType::Text,
    {
        DbDataType::Text
    }
}

/// It can be serialized as a nullable database text field.
pub trait NullableTextField: Sized {
    /// The optional character sequence this value stands for.
    spec fn text_model(&self) -> Option<Seq<char>>;

    fn from_db_data(data: &DbData) -> (r: Self)
        requires
            data@.tag() == DbDataType::NullableText,
        ensures
            data@ == DbValue::NullableText(r.text_model()),
    ;

    fn to_db_data(&self) -> (r: DbData)
        ensures
            r@ == DbValue::NullableText(self.text_model()),
    ;

    fn db_field_type() -> (r: DbDataType)
        ensures
            r == DbDataType::NullableText,
    {
        DbDataType::NullableText
    }
}

/// It can be serialized as a 64-bit integer field.
pub trait IntegerField: Sized {
    /// The integer this value stands for.
    spec fn int_model(&self) -> int;

    fn from_db_data(data: &DbData) -> (r: Self)
        requires
            data@.tag() == DbDataType::Int,
        ensures
            data@ == DbValue::Int(r.int_model()),
    ;

    fn to_db_data(&self) -> (r: DbData)
        ensures
            r@ == DbValue::Int(self.int_model()),
    ;

    fn db_field_type() -> (r: DbDataType)
        ensures
            r == DbDataType::Int,
    {
        DbDataType::Int
    }
}

/// It can be serialized as a nullable 64-bit integer field.
pub trait NullableIntegerField: Sized {
    /// The optional integer this value stands for.
    spec fn int_model(&self) -> Option<int>;

    fn from_db_data(data: &DbData) -> (r: Self)
        requires
            data@.tag() == DbDataType::NullableInt,
        ensures
            data@ == DbValue::NullableInt(r.int_model()),
    ;

    fn to_db_data(&self) -> (r: DbData)
        ensures
            r@ == DbValue::NullableInt(self.int_model()),
    ;

    fn db_field_type() -> (r: DbDataType)
        ensures
            r == DbDataType::NullableInt,
    {
        DbDataType::NullableInt
    }
}

impl TextField for String {
    open spec fn text_model(&self) -> Seq<char> {
        self@
    }

    fn from_db_data(data: &DbData) -> (r: String) {
        match data {
            DbData::Text(s) => s.clone(),
            _ => {
                proof {
                    assert(false);
                }
                String::new()
            },
        }
    }

    fn to_db_data(&self) -> (r: DbData) {
        let s = self.clone();
        let r = DbData::Text(s);
        proof {
            assert(s@ == self@);
            assert(r@ == DbValue::Text(s@));
            assert(self.text_model() == self@);
        }
        r
    }
}

impl NullableTextField for Option<String> {
    open spec fn text_model(&self) -> Option<Seq<char>> {
        match self {
            Option::Some(s) => Option::Some(s@),
            Option::None => Option::None,
        }
    }

    fn from_db_data(data: &DbData) -> (r: Option<String>) {
        match data {
            DbData::NullableText(o) => match o {
                Option::Some(s) => Option::Some(s.clone()),
                Option::None => Option::None,
            },
            _ => {
                proof {
                    assert(false);
                }
                Option::None
            },
        }
    }

    fn to_db_data(&self) -> (r: DbData) {
        match self {
            Option::Some(s) => DbData::NullableText(Option::Some(s.clone())),
            Option::None => DbData::NullableText(Option::None),
        }
    }
}

impl IntegerField for i64 {
    open spec fn int_model(&self) -> int {
        *self as int
    }

    fn from_db_data(data: &DbData) -> (r: i64) {
        match data {
            DbData::Int(x) => *x,
            _ => {
                proof {
                    assert(false);
                }
                0
            },
        }
    }

    fn to_db_data(&self) -> (r: DbData) {
        DbData::Int(*self)
    }
}

impl NullableIntegerField for Option<i64> {
    open spec fn int_model(&self) -> Option<int> {
        match self {
            Option::Some(x) => Option::Some(*x as int),
            Option::None => Option::None,
        }
    }

    fn from_db_data(data: &DbData) -> (r: Option<i64>) {
        match data {
            DbData::NullableInt(o) => *o,
            _ => {
                proof {
                    assert(false);
                }
                Option::None
            },
        }
    }

    fn to_db_data(&self) -> (r: DbData) {
        DbData::NullableInt(*self)
    }
}

/// The models of a list of tagged values, position by position.
pub open spec fn data_views(s: Seq<DbData>) -> Seq<DbValue> {
    s.map_values(|d: DbData| d@)
}

/// How many fields of a field list are tagged RowID.
pub open spec fn rowid_count(fields: Seq<(Seq<char>, DbDataType)>) -> nat
    decreases fields.len(),
{
    if fields.len() == 0 {
        0
    } else {
        rowid_count(fields.drop_last()) + (if fields.last().1 == DbDataType::RowID {
            1nat
        } else {
            0nat
        })
    }
}

/// Extending a scanned prefix by one field adds one to the RowID count
/// exactly when that field is tagged RowID.
pub proof fn lemma_rowid_count_take_step(fields: Seq<(Seq<char>, DbDataType)>, i: int)
    requires
        0 <= i < fields.len(),
    ensures
        rowid_count(fields.take(i + 1)) == rowid_count(fields.take(i)) + (if fields[i].1
            == DbDataType::RowID {
            1nat
        } else {
            0nat
        }),
{
    assert(fields.take(i + 1).drop_last() =~= fields.take(i));
    assert(fields.take(i + 1).last() == fields[i]);
}

/// A prefix never holds more RowID fields than the whole list.
pub proof fn lemma_rowid_count_take_le(fields: Seq<(Seq<char>, DbDataType)>, i: int)
    requires
        0 <= i <= fields.len(),
    ensures
        rowid_count(fields.take(i)) <= rowid_count(fields),
    decreases fields.len() - i,
{
    if i == fields.len() {
        assert(fields.take(i) =~= fields);
    } else {
        lemma_rowid_count_take_step(fields, i);
        lemma_rowid_count_take_le(fields, i + 1);
    }
}

/// Make the type a data schema in the relational database.
///
/// An implementation must keep the field list and the value list in
/// positional agreement: same length, and at every position the value's tag
/// equals the field's declared type.  That obligation is
/// [`lemma_fields_values_agree`](Schema::lemma_fields_values_agree), proved
/// once per implementation.
pub trait Schema: Sized {
    /// The schema name, used as the table name.
    spec fn spec_schema_name() -> Seq<char>;

    /// The ordered field list: name and declared type of every field.
    spec fn spec_fields() -> Seq<(Seq<char>, DbDataType)>;

    /// The ordered models of this structure's field values.
    spec fn spec_values(&self) -> Seq<DbValue>;

    /// The ordering invariant: the value list and the field list have equal
    /// length and positionally matching types, for every structure value.
    proof fn lemma_fields_values_agree(&self)
        ensures
            self.spec_values().len() == Self::spec_fields().len(),
            forall|i: int|
                0 <= i < Self::spec_fields().len() ==> (#[trigger] self.spec_values()[i]).tag()
                    == Self::spec_fields()[i].1,
    ;

    /// The schema name in the database.
    fn get_schema_name() -> (r: String)
        ensures
            r@ == Self::spec_schema_name(),
    ;

    /// The list of field names and types of this data struct.
    fn get_fields() -> (r: Vec<(String, DbDataType)>)
        ensures
            r@.len() == Self::spec_fields().len(),
            forall|i: int|
                0 <= i < r@.len() ==> (#[trigger] r@[i]).0@ == Self::spec_fields()[i].0 && r@[i].1
                    == Self::spec_fields()[i].1,
    ;

    /// The values of all fields as tagged value containers, in field order.
    fn get_values(&self) -> (r: Vec<DbData>)
        ensures
            r@.len() == self.spec_values().len(),
            forall|i: int| 0 <= i < r@.len() ==> (#[trigger] r@[i])@ == self.spec_values()[i],
    ;

    /// Create the struct from the values of all fields, in field order.
    fn create_with_values(values: Vec<DbData>) -> (r: Self)
        requires
            values@.len() == Self::spec_fields().len(),
            forall|i: int|
                0 <= i < values@.len() ==> (#[trigger] values@[i])@.tag()
                    == Self::spec_fields()[i].1,
        ensures
            r.spec_values() == data_views(values@),
    ;

    /// Get the name and value of the RowID field.
    ///
    /// Returns `None` if there is no such field.  A schema with more than one
    /// RowID field is a configuration error, rejected at registration, and is
    /// ruled out here.
    fn get_row_id_field(&self) -> (r: Option<(String, RowID)>)
        requires
            rowid_count(Self::spec_fields()) <= 1,
        ensures
            match r {
                Option::None => rowid_count(Self::spec_fields()) == 0,
                Option::Some((name, rid)) => exists|i: int|
                    0 <= i < Self::spec_fields().len() && (#[trigger] Self::spec_fields()[i]).1
                        == DbDataType::RowID && name@ == Self::spec_fields()[i].0
                        && self.spec_values()[i] == DbValue::RowID(rid.spec_id()),
            },
    {
        let fields = Self::get_fields();
        let values = self.get_values();
        proof {
            self.lemma_fields_values_agree();
            assert(Self::spec_fields().take(0) =~= Seq::<(Seq<char>, DbDataType)>::empty());
        }
        let mut answer: Option<(String, RowID)> = Option::None;
        let mut i: usize = 0;
        while i < fields.len()
            invariant
                rowid_count(Self::spec_fields()) <= 1,
                i <= fields.len(),
                fields@.len() == Self::spec_fields().len(),
                values@.len() == Self::spec_fields().len(),
                forall|j: int|
                    0 <= j < fields@.len() ==> (#[trigger] fields@[j]).0@
                        == Self::spec_fields()[j].0 && fields@[j].1 == Self::spec_fields()[j].1,
                forall|j: int|
                    0 <= j < values@.len() ==> (#[trigger] values@[j])@ == self.spec_values()[j],
                self.spec_values().len() == Self::spec_fields().len(),
                forall|j: int|
                    0 <= j < Self::spec_fields().len() ==> (#[trigger] self.spec_values()[j]).tag()
                        == Self::spec_fields()[j].1,
                match answer {
                    Option::None => rowid_count(Self::spec_fields().take(i as int)) == 0,
                    Option::Some((name, rid)) => rowid_count(Self::spec_fields().take(i as int))
                        == 1 && exists|j: int|
                        0 <= j < Self::spec_fields().len() && (#[trigger] Self::spec_fields()[j]).1
                            == DbDataType::RowID && name@ == Self::spec_fields()[j].0
                            && self.spec_values()[j] == DbValue::RowID(rid.spec_id()),
                },
            decreases fields.len() - i,
        {
            proof {
                lemma_rowid_count_take_step(Self::spec_fields(), i as int);
            }
            let field_type = fields[i].1;
            if field_type == DbDataType::RowID {
                if answer.is_none() {
                    let field_name = fields[i].0.clone();
                    let field_value = RowID::from_db_data(&values[i]);
                    answer = Option::Some((field_name, field_value));
                } else {
                    proof {
                        lemma_rowid_count_take_le(Self::spec_fields(), i + 1);
                        assert(false);
                    }
                }
            }
            i = i + 1;
        }
        proof {
            assert(Self::spec_fields().take(fields@.len() as int) =~= Self::spec_fields());
        }
        answer
    }
}

/// Round-trip law: rebuilding a structure from its own value list yields a
/// structure whose fields all model the same values.
pub fn round_trip<T: Schema>(v: &T) -> (r: T)
    ensures
        r.spec_values() == v.spec_values(),
{
    let values = v.get_values();
    proof {
        v.lemma_fields_values_agree();
        assert(data_views(values@) =~= v.spec_values());
    }
    T::create_with_values(values)
}

} // verus!
