//! Ready-made schemas.  A schema implementation is normally produced by a
//! generator outside this crate; these hand-written ones discharge the same
//! obligations explicitly, serve the demo driver, and give the tests
//! concrete structures to persist.

use vstd::prelude::*;
use crate::db::{DbData, DbDataType, DbValue};
use crate::types::{data_views, NullableIntegerField, RowID, Schema, TextField};

verus! {

/// A named stock level: a NOT NULL text column and a nullable integer
/// column.
#[derive(Debug)]
pub struct Counter {
    pub name: String,
    pub stock: Option<i64>,
}

impl Schema for Counter {
    open spec fn spec_schema_name() -> Seq<char> {
        "Counter"@
    }

    open spec fn spec_fields() -> Seq<(Seq<char>, DbDataType)> {
        seq![("name"@, DbDataType::Text), ("stock"@, DbDataType::NullableInt)]
    }

    open spec fn spec_values(&self) -> Seq<DbValue> {
        seq![DbValue::Text(self.name@), DbValue::NullableInt(self.stock.int_model())]
    }

    proof fn lemma_fields_values_agree(&self) {
    }

    fn get_schema_name() -> (r: String) {
        "Counter".to_owned()
    }

    fn get_fields() -> (r: Vec<(String, DbDataType)>) {
        let mut v: Vec<(String, DbDataType)> = Vec::new();
        v.push(("name".to_owned(), DbDataType::Text));
        v.push(("stock".to_owned(), DbDataType::NullableInt));
        v
    }

    fn get_values(&self) -> (r: Vec<DbData>) {
        let mut v: Vec<DbData> = Vec::new();
        v.push(self.name.to_db_data());
        v.push(self.stock.to_db_data());
        v
    }

    fn create_with_values(values: Vec<DbData>) -> (r: Counter) {
        let name = <String as TextField>::from_db_data(&values[0]);
        let stock = <Option<i64> as NullableIntegerField>::from_db_data(&values[1]);
        let r = Counter { name, stock };
        proof {
            assert(r.spec_values() =~= data_views(values@));
        }
        r
    }
}

/// A named account row with an engine-assigned identity: an integer primary
/// key column and a NOT NULL text column.
#[derive(Debug)]
pub struct Account {
    pub id: RowID,
    pub user_name: String,
}

impl Schema for Account {
    open spec fn spec_schema_name() -> Seq<char> {
        "Account"@
    }

    open spec fn spec_fields() -> Seq<(Seq<char>, DbDataType)> {
        seq![("id"@, DbDataType::RowID), ("user_name"@, DbDataType::Text)]
    }

    open spec fn spec_values(&self) -> Seq<DbValue> {
        seq![DbValue::RowID(self.id.spec_id()), DbValue::Text(self.user_name@)]
    }

    proof fn lemma_fields_values_agree(&self) {
    }

    fn get_schema_name() -> (r: String) {
        "Account".to_owned()
    }

    fn get_fields() -> (r: Vec<(String, DbDataType)>) {
        let mut v: Vec<(String, DbDataType)> = Vec::new();
        v.push(("id".to_owned(), DbDataType::RowID));
        v.push(("user_name".to_owned(), DbDataType::Text));
        v
    }

    fn get_values(&self) -> (r: Vec<DbData>) {
        let mut v: Vec<DbData> = Vec::new();
        v.push(self.id.to_db_data());
        v.push(self.user_name.to_db_data());
        v
    }

    fn create_with_values(values: Vec<DbData>) -> (r: Account) {
        let id = RowID::from_db_data(&values[0]);
        let user_name = <String as TextField>::from_db_data(&values[1]);
        let r = Account { id, user_name };
        proof {
            assert(r.spec_values() =~= data_views(values@));
        }
        r
    }
}

/// A misdeclared schema carrying two row identity fields.  Its declarations
/// are still positionally consistent, so it can exist as a value, but
/// registration must reject it before any statement reaches the engine.
#[derive(Debug)]
pub struct DoublyKeyed {
    pub first: RowID,
    pub second: RowID,
}

impl Schema for DoublyKeyed {
    open spec fn spec_schema_name() -> Seq<char> {
        "DoublyKeyed"@
    }

    open spec fn spec_fields() -> Seq<(Seq<char>, DbDataType)> {
        seq![("first"@, DbDataType::RowID), ("second"@, DbDataType::RowID)]
    }

    open spec fn spec_values(&self) -> Seq<DbValue> {
        seq![DbValue::RowID(self.first.spec_id()), DbValue::RowID(self.second.spec_id())]
    }

    proof fn lemma_fields_values_agree(&self) {
    }

    fn get_schema_name() -> (r: String) {
        "DoublyKeyed".to_owned()
    }

    fn get_fields() -> (r: Vec<(String, DbDataType)>) {
        let mut v: Vec<(String, DbDataType)> = Vec::new();
        v.push(("first".to_owned(), DbDataType::RowID));
        v.push(("second".to_owned(), DbDataType::RowID));
        v
    }

    fn get_values(&self) -> (r: Vec<DbData>) {
        let mut v: Vec<DbData> = Vec::new();
        v.push(self.first.to_db_data());
        v.push(self.second.to_db_data());
        v
    }

    fn create_with_values(values: Vec<DbData>) -> (r: DoublyKeyed) {
        let first = RowID::from_db_data(&values[0]);
        let second = RowID::from_db_data(&values[1]);
        let r = DoublyKeyed { first, second };
        proof {
            assert(r.spec_values() =~= data_views(values@));
        }
        r
    }
}

} // verus!
