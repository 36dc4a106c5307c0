use yoshino::db::{DbData, DbDataType, DbError, SqlValue};
use yoshino::schemas::Counter;
use yoshino::sqlite::{decode_row, from_raw_row, RowSequence, RowStep, StepOutcome};
use yoshino::types::Schema;

#[test]
fn a_stepped_row_decodes_to_a_structure() {
    let mut seq = RowSequence::new();
    let outcome = StepOutcome::Row(vec![
        SqlValue::Text(String::from("milk")),
        SqlValue::Integer(20),
    ]);
    match seq.on_step::<Counter>(&outcome) {
        RowStep::Row(c) => {
            assert_eq!(c.name, "milk");
            assert_eq!(c.stock, Some(20));
        }
        _ => panic!("expected a decoded row"),
    }
    assert!(!seq.exhausted);
}

#[test]
fn a_null_column_decodes_to_the_absent_variant() {
    let mut seq = RowSequence::new();
    let outcome = StepOutcome::Row(vec![SqlValue::Text(String::from("cream")), SqlValue::Null]);
    match seq.on_step::<Counter>(&outcome) {
        RowStep::Row(c) => {
            assert_eq!(c.name, "cream");
            assert_eq!(c.stock, None);
        }
        _ => panic!("expected a decoded row"),
    }
}

#[test]
fn done_ends_the_sequence() {
    let mut seq = RowSequence::new();
    match seq.on_step::<Counter>(&StepOutcome::Done) {
        RowStep::End => {}
        _ => panic!("expected the end of the rows"),
    }
    assert!(seq.exhausted);
}

#[test]
fn a_fault_is_surfaced_not_swallowed() {
    let mut seq = RowSequence::new();
    match seq.on_step::<Counter>(&StepOutcome::Fault(1)) {
        RowStep::Fault(e) => assert_eq!(e, DbError::ExecutionFault),
        _ => panic!("a fault must not look like the end of the rows"),
    }
    assert!(seq.exhausted);
}

#[test]
fn a_row_that_does_not_fit_the_schema_is_a_fault() {
    let mut seq = RowSequence::new();
    let outcome = StepOutcome::Row(vec![SqlValue::Null, SqlValue::Integer(5)]);
    match seq.on_step::<Counter>(&outcome) {
        RowStep::Fault(e) => assert_eq!(e, DbError::ExecutionFault),
        _ => panic!("a NOT NULL text column cannot decode from NULL"),
    }
}

#[test]
fn decode_row_rejects_wrong_arity() {
    let fields = Counter::get_fields();
    let raws = vec![SqlValue::Text(String::from("milk"))];
    assert!(matches!(
        decode_row(&fields, &raws),
        Err(DbError::ExecutionFault)
    ));
}

#[test]
fn decode_row_decodes_by_declared_type() {
    let fields = Counter::get_fields();
    let raws = vec![SqlValue::Text(String::from("apple")), SqlValue::Integer(30)];
    let vals = decode_row(&fields, &raws).unwrap();
    assert_eq!(vals.len(), 2);
    assert_eq!(vals[0].db_data_type(), DbDataType::Text);
    assert!(matches!(&vals[0], DbData::Text(s) if s == "apple"));
    assert!(matches!(&vals[1], DbData::NullableInt(Some(30))));
}

#[test]
fn from_raw_row_builds_the_structure() {
    let raws = vec![SqlValue::Text(String::from("milk")), SqlValue::Integer(20)];
    let c: Counter = from_raw_row(&raws).unwrap();
    assert_eq!(c.name, "milk");
    assert_eq!(c.stock, Some(20));
}

#[test]
fn disposal_releases_exactly_once() {
    let mut seq = RowSequence::new();
    assert!(seq.dispose());
    assert!(!seq.dispose());
    assert!(!seq.dispose());
}

#[test]
fn disposal_after_exhaustion_still_releases_once() {
    let mut seq = RowSequence::new();
    match seq.on_step::<Counter>(&StepOutcome::Done) {
        RowStep::End => {}
        _ => panic!("expected the end of the rows"),
    }
    assert!(seq.dispose());
    assert!(!seq.dispose());
}

#[test]
fn disposal_with_no_rows_consumed_releases_once() {
    let mut seq = RowSequence::new();
    assert!(seq.dispose());
    assert!(!seq.dispose());
}
