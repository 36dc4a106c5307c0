use yoshino::db::{DbData, DbDataType};
use yoshino::schemas::{Account, Counter};
use yoshino::types::{
    round_trip, IntegerField, NullableIntegerField, NullableTextField, RowID, Schema, TextField,
};

#[test]
fn text_field_round_trip() {
    let s = String::from("milk");
    let d = s.to_db_data();
    assert_eq!(d.db_data_type(), DbDataType::Text);
    let back = <String as TextField>::from_db_data(&d);
    assert_eq!(back, "milk");
}

#[test]
fn nullable_text_field_round_trip() {
    let present: Option<String> = Some(String::from("cream"));
    let absent: Option<String> = None;
    let back_present = <Option<String> as NullableTextField>::from_db_data(&present.to_db_data());
    let back_absent = <Option<String> as NullableTextField>::from_db_data(&absent.to_db_data());
    assert_eq!(back_present, Some(String::from("cream")));
    assert_eq!(back_absent, None);
}

#[test]
fn integer_field_round_trip() {
    let x: i64 = -42;
    let d = x.to_db_data();
    assert_eq!(d.db_data_type(), DbDataType::Int);
    assert_eq!(<i64 as IntegerField>::from_db_data(&d), -42);
}

#[test]
fn nullable_integer_field_round_trip() {
    let present: Option<i64> = Some(20);
    let absent: Option<i64> = None;
    assert_eq!(
        <Option<i64> as NullableIntegerField>::from_db_data(&present.to_db_data()),
        Some(20)
    );
    assert_eq!(
        <Option<i64> as NullableIntegerField>::from_db_data(&absent.to_db_data()),
        None
    );
}

#[test]
fn rowid_round_trip() {
    assert_eq!(RowID::db_field_type(), DbDataType::RowID);
    let d = RowID::ID(7).to_db_data();
    assert_eq!(d.db_data_type(), DbDataType::RowID);
    assert_eq!(RowID::from_db_data(&d), RowID::ID(7));
    assert_eq!(RowID::from_db_data(&RowID::NEW.to_db_data()), RowID::NEW);
}

#[test]
fn declared_types_per_kind() {
    assert_eq!(<String as TextField>::db_field_type(), DbDataType::Text);
    assert_eq!(
        <Option<String> as NullableTextField>::db_field_type(),
        DbDataType::NullableText
    );
    assert_eq!(<i64 as IntegerField>::db_field_type(), DbDataType::Int);
    assert_eq!(
        <Option<i64> as NullableIntegerField>::db_field_type(),
        DbDataType::NullableInt
    );
}

#[test]
fn counter_schema_round_trip() {
    let v = Counter {
        name: String::from("milk"),
        stock: Some(20),
    };
    let back = round_trip(&v);
    assert_eq!(back.name, "milk");
    assert_eq!(back.stock, Some(20));
}

#[test]
fn counter_schema_round_trip_absent_stock() {
    let v = Counter {
        name: String::from("cream"),
        stock: None,
    };
    let back = round_trip(&v);
    assert_eq!(back.name, "cream");
    assert_eq!(back.stock, None);
}

#[test]
fn account_schema_round_trip() {
    let v = Account {
        id: RowID::ID(3),
        user_name: String::from("admin"),
    };
    let back = round_trip(&v);
    assert_eq!(back.id, RowID::ID(3));
    assert_eq!(back.user_name, "admin");
}

#[test]
fn fields_and_values_agree_in_order() {
    let v = Counter {
        name: String::from("milk"),
        stock: Some(20),
    };
    let fields = Counter::get_fields();
    let values = v.get_values();
    assert_eq!(fields.len(), values.len());
    for i in 0..fields.len() {
        assert_eq!(fields[i].1, values[i].db_data_type());
    }
    assert_eq!(fields[0].0, "name");
    assert_eq!(fields[0].1, DbDataType::Text);
    assert_eq!(fields[1].0, "stock");
    assert_eq!(fields[1].1, DbDataType::NullableInt);
}

#[test]
fn create_with_values_builds_the_structure() {
    let values = vec![
        DbData::Text(String::from("apple")),
        DbData::NullableInt(Some(30)),
    ];
    let v = Counter::create_with_values(values);
    assert_eq!(v.name, "apple");
    assert_eq!(v.stock, Some(30));
}

#[test]
fn row_id_field_is_found() {
    let v = Account {
        id: RowID::ID(11),
        user_name: String::from("admin"),
    };
    let found = v.get_row_id_field();
    assert_eq!(found, Some((String::from("id"), RowID::ID(11))));
}

#[test]
fn row_id_field_absent_without_identity_column() {
    let v = Counter {
        name: String::from("milk"),
        stock: Some(20),
    };
    assert_eq!(v.get_row_id_field(), None);
}
