use std::collections::HashMap;

use surreal_builder::field::Field;
use surreal_builder::index::Index;
use surreal_builder::param::Param;
use surreal_builder::query::Query;
use surreal_builder::table::{Table, TableKind};
use surrealdb::sql::{Idiom, Kind, Number, Permission, Permissions, Value};
use surrealdb::sql::Index as IndexType;

fn table(name: &str) -> Table<'_> {
    Table {
        name,
        kind: TableKind::Normal,
        if_not_exists: true,
        permissions: Permissions::full(),
        ..Table::default()
    }
}

#[test]
fn test_fields() {
    let table_name: &str = "test_field_define";
    let fields: Vec<Field> = Vec::from([
        Field {
            name: "fields_numeric",
            table: table_name,
            kind: Kind::Number,
            flexible: true,
            default: Some(Value::Number(Number::Int(1))),
            if_not_exists: true,
            permissions: Permissions::full(),
            ..Field::default()
        },
        Field {
            name: "fields_str",
            table: table_name,
            kind: Kind::String,
            default: Some(Value::from("mydefaultvalue")),
            if_not_exists: true,
            permissions: Permissions::full(),
            ..Field::default()
        },
    ]);
    let stmts = Query::new(fields).build().unwrap();
    assert!(stmts.len() > 0);
    assert_eq!(stmts.matches("DEFINE FIELD").count(), 2);
    assert!(stmts.find("fields_numeric").unwrap() < stmts.find("fields_str").unwrap());
}

#[test]
fn test_indexes() {
    let table_name: &str = "test_table_indexes";
    let indexes: Vec<Index> = Vec::from([
        Index {
            name: "myindex1",
            table: table_name,
            cols: vec![Idiom::from("field_index_1")],
            index: IndexType::Uniq,
            comment: "MyComment",
            if_not_exists: true,
        },
        Index {
            name: "myindex2",
            table: table_name,
            cols: vec![Idiom::from("field_index_1"), Idiom::from("field_index_2")],
            index: IndexType::Uniq,
            comment: "MyComment",
            if_not_exists: true,
        },
        Index {
            name: "myindex3",
            table: table_name,
            cols: vec![Idiom::from("field_index_2")],
            index: IndexType::Uniq,
            comment: "MyComment",
            if_not_exists: true,
        },
    ]);
    let mut query = Query::new(indexes);
    let stmts = query.build().unwrap();
    assert!(stmts.len() > 0);
    assert_eq!(query.stmts.len(), 3);
    assert_eq!(stmts, format!("{};{};{};", query.stmts[0], query.stmts[1], query.stmts[2]));
}

#[test]
fn test_tables() {
    let tables: Vec<Table> = Vec::from([
        table("my_table_normal_1"),
        Table { kind: TableKind::Any, ..table("my_table_any_1") },
        table("my_table_normal_2"),
    ]);
    let stmts = Query::new(tables).build().unwrap();
    assert!(stmts.len() > 0);
    assert_eq!(
        stmts,
        "DEFINE TABLE IF NOT EXISTS my_table_normal_1 TYPE NORMAL SCHEMAFULL PERMISSIONS FULL;\
         DEFINE TABLE IF NOT EXISTS my_table_any_1 TYPE ANY SCHEMAFULL PERMISSIONS FULL;\
         DEFINE TABLE IF NOT EXISTS my_table_normal_2 TYPE NORMAL SCHEMAFULL PERMISSIONS FULL;"
    );
}

#[test]
fn test_params() {
    let params: Vec<Param> = Vec::from([
        Param {
            name: "myparam_via_query_string",
            value: Value::from("myparam_via_query_string".to_string()),
            permission: Permission::Full,
            comment: "hello myparam_via_query_string",
            if_not_exists: true,
        },
        Param {
            name: "myparam_via_query_number",
            value: Value::from(1),
            permission: Permission::Full,
            comment: "hello myparam_via_query_string",
            if_not_exists: true,
        },
        Param {
            name: "myparam_via_query_array",
            value: Value::from(vec!["hello", "world"]),
            permission: Permission::Full,
            comment: "hello myparam_via_query_string",
            if_not_exists: true,
        },
        Param {
            name: "myparam_via_query_object",
            value: Value::from(HashMap::from([
                ("number", Value::from(1)),
                ("bool", Value::from(true)),
                ("str", Value::from("hello world")),
                ("array", Value::from(vec!["hello", "world1234567"])),
            ])),
            permission: Permission::Full,
            comment: "hello myparam_via_query_string",
            if_not_exists: false,
        },
    ]);
    let stmts = Query::new(params).build().unwrap();
    assert!(stmts.len() > 0);
    assert_eq!(stmts.matches("DEFINE PARAM").count(), 4);
    assert!(stmts.contains("$myparam_via_query_number VALUE 1"));
    assert!(stmts.contains("$myparam_via_query_array VALUE ['hello', 'world']"));
}

#[test]
fn batch_keeps_order() {
    let t1 = Table::build(table("a")).unwrap();
    let t2 = Table::build(table("b")).unwrap();
    let t3 = Table::build(table("c")).unwrap();
    let stmts = Query::new(vec![table("a"), table("b"), table("c")]).build().unwrap();
    assert_eq!(stmts, t1 + ";" + &t2 + ";" + &t3 + ";");
}

#[test]
fn batch_stops_at_first_failure() {
    let mut query = Query::new(vec![table("a"), table(""), table("c")]);
    let error = query.build().unwrap_err();
    assert_eq!(error, "QUERY STATEMENT ERROR: Table name is required.");
    assert_eq!(query.stmts.len(), 1);
    assert!(query.stmts[0].contains(" a "));
    assert_eq!(query.items.len(), 3);
}

#[test]
fn batch_of_no_params_is_a_bare_terminator() {
    let params: Vec<Param> = Vec::new();
    assert_eq!(Query::new(params).build().unwrap(), ";");
}

#[test]
fn get_statement_keeps_or_wraps() {
    let mut query: Query<Param> = Query::new(Vec::new());
    assert!(query.get_statement(Ok("DEFINE PARAM $a VALUE 1".to_string())).is_ok());
    assert_eq!(query.stmts, vec!["DEFINE PARAM $a VALUE 1".to_string()]);
    let error = query.get_statement(Err("Param name is required.".to_string()));
    assert_eq!(error, Err("QUERY STATEMENT ERROR: Param name is required.".to_string()));
    assert_eq!(query.stmts.len(), 1);
}

#[test]
fn to_string_joins_and_terminates() {
    let mut query: Query<Field> = Query::new(Vec::new());
    assert_eq!(query.to_string(), ";");
    query.stmts.push("x".to_string());
    assert_eq!(query.to_string(), "x;");
    query.stmts.push("y".to_string());
    query.stmts.push("z".to_string());
    assert_eq!(query.to_string(), "x;y;z;");
}
