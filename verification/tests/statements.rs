use yoshino::db::{Cond, DbError, SqlValue};
use yoshino::schemas::{Account, Counter, DoublyKeyed};
use yoshino::sqlite::{
    create_table_stmt, decimal_string, delete_with_cond_stmt, insert_record_stmt, query_all_stmt,
    query_with_cond_stmt,
};
use yoshino::types::RowID;

fn bind_is_null(v: &SqlValue) -> bool {
    matches!(v, SqlValue::Null)
}

fn bind_is_integer(v: &SqlValue, x: i64) -> bool {
    matches!(v, SqlValue::Integer(y) if *y == x)
}

fn bind_is_text(v: &SqlValue, t: &str) -> bool {
    matches!(v, SqlValue::Text(s) if s == t)
}

#[test]
fn create_table_statement_for_counter() {
    let code = create_table_stmt::<Counter>().unwrap();
    assert_eq!(
        code,
        "CREATE TABLE IF NOT EXISTS Counter (name TEXT NOT NULL, stock INTEGER);"
    );
}

#[test]
fn create_table_statement_for_account() {
    let code = create_table_stmt::<Account>().unwrap();
    assert_eq!(
        code,
        "CREATE TABLE IF NOT EXISTS Account (id INTEGER PRIMARY KEY, user_name TEXT NOT NULL);"
    );
}

#[test]
fn two_row_ids_fail_at_registration() {
    let r = create_table_stmt::<DoublyKeyed>();
    assert_eq!(r, Err(DbError::SchemaInvariant));
}

#[test]
fn insert_statement_and_binding_plan() {
    let v = Counter {
        name: String::from("milk"),
        stock: Some(20),
    };
    let (code, binds) = insert_record_stmt(&v);
    assert_eq!(code, "INSERT INTO Counter (name, stock) VALUES (?1, ?2);");
    assert_eq!(binds.len(), 2);
    assert!(bind_is_text(&binds[0], "milk"));
    assert!(bind_is_integer(&binds[1], 20));
}

#[test]
fn absent_nullable_value_binds_null() {
    let v = Counter {
        name: String::from("cream"),
        stock: None,
    };
    let (_, binds) = insert_record_stmt(&v);
    assert!(bind_is_text(&binds[0], "cream"));
    assert!(bind_is_null(&binds[1]));
}

#[test]
fn unassigned_row_id_binds_null() {
    let v = Account {
        id: RowID::NEW,
        user_name: String::from("admin"),
    };
    let (code, binds) = insert_record_stmt(&v);
    assert_eq!(code, "INSERT INTO Account (id, user_name) VALUES (?1, ?2);");
    assert!(bind_is_null(&binds[0]));
    assert!(bind_is_text(&binds[1], "admin"));
}

#[test]
fn assigned_row_id_binds_its_key() {
    let v = Account {
        id: RowID::ID(5),
        user_name: String::from("admin"),
    };
    let (_, binds) = insert_record_stmt(&v);
    assert!(bind_is_integer(&binds[0], 5));
}

#[test]
fn query_all_statement() {
    let code = query_all_stmt::<Counter>();
    assert_eq!(code, "SELECT name, stock FROM Counter;");
}

#[test]
fn filtered_query_statement_renders_placeholders() {
    let cond = Cond::or(
        Cond::is_null("stock"),
        Cond::equals_integer("stock", 20),
    );
    let (code, binds) = query_with_cond_stmt::<Counter>(&cond);
    assert_eq!(
        code,
        "SELECT name, stock FROM Counter WHERE ((stock IS NULL) OR (stock = ?));"
    );
    assert_eq!(binds.len(), 1);
    assert!(bind_is_integer(&binds[0], 20));
}

#[test]
fn conjunction_renders_both_sides_in_order() {
    let cond = Cond::and(
        Cond::equals_text("name", "milk"),
        Cond::equals_integer("stock", 20),
    );
    let (code, binds) = query_with_cond_stmt::<Counter>(&cond);
    assert_eq!(
        code,
        "SELECT name, stock FROM Counter WHERE ((name = ?) AND (stock = ?));"
    );
    assert_eq!(binds.len(), 2);
    assert!(bind_is_text(&binds[0], "milk"));
    assert!(bind_is_integer(&binds[1], 20));
}

#[test]
fn delete_statement_with_condition() {
    let cond = Cond::equals_text("name", "apple");
    let (code, binds) = delete_with_cond_stmt::<Counter>(&cond);
    assert_eq!(code, "DELETE FROM Counter WHERE (name = ?);");
    assert_eq!(binds.len(), 1);
    assert!(bind_is_text(&binds[0], "apple"));
}

#[test]
fn decimal_rendering() {
    assert_eq!(decimal_string(0), "0");
    assert_eq!(decimal_string(7), "7");
    assert_eq!(decimal_string(10), "10");
    assert_eq!(decimal_string(12345), "12345");
}

#[test]
fn end_to_end_statement_scenario() {
    let code = create_table_stmt::<Counter>().unwrap();
    assert_eq!(
        code,
        "CREATE TABLE IF NOT EXISTS Counter (name TEXT NOT NULL, stock INTEGER);"
    );
    let rows = vec![
        Counter {
            name: String::from("milk"),
            stock: Some(20),
        },
        Counter {
            name: String::from("cream"),
            stock: None,
        },
        Counter {
            name: String::from("apple"),
            stock: Some(30),
        },
    ];
    for row in &rows {
        let (code, binds) = insert_record_stmt(row);
        assert_eq!(code, "INSERT INTO Counter (name, stock) VALUES (?1, ?2);");
        assert_eq!(binds.len(), 2);
        assert!(bind_is_text(&binds[0], &row.name));
        match row.stock {
            Some(x) => assert!(bind_is_integer(&binds[1], x)),
            None => assert!(bind_is_null(&binds[1])),
        }
    }
    let cond = Cond::or(
        Cond::is_null("stock"),
        Cond::equals_integer("stock", 20),
    );
    let (code, binds) = query_with_cond_stmt::<Counter>(&cond);
    assert_eq!(
        code,
        "SELECT name, stock FROM Counter WHERE ((stock IS NULL) OR (stock = ?));"
    );
    assert!(bind_is_integer(&binds[0], 20));
    let (code, binds) = delete_with_cond_stmt::<Counter>(&Cond::equals_text("name", "apple"));
    assert_eq!(code, "DELETE FROM Counter WHERE (name = ?);");
    assert!(bind_is_text(&binds[0], "apple"));
    assert_eq!(query_all_stmt::<Counter>(), "SELECT name, stock FROM Counter;");
}

#[test]
fn literals_never_reach_the_statement_text() {
    let cond = Cond::equals_text("name", "x'); DROP TABLE Counter; --");
    let (code, binds) = delete_with_cond_stmt::<Counter>(&cond);
    assert_eq!(code, "DELETE FROM Counter WHERE (name = ?);");
    assert!(bind_is_text(&binds[0], "x'); DROP TABLE Counter; --"));
}
