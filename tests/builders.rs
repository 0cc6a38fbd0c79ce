use std::collections::HashMap;

use surreal_builder::field::Field;
use surreal_builder::fields::Fields;
use surreal_builder::index::Index;
use surreal_builder::indexes::Indexes;
use surreal_builder::param::Param;
use surreal_builder::table::{Table, TableKind};
use surrealdb::sql::{Idiom, Kind, Number, Permission, Permissions, Strand, Value};
use surrealdb::sql::Index as IndexType;

fn numeric_field<'a>(name: &'a str, table: &'a str) -> Field<'a> {
    Field {
        name,
        table,
        kind: Kind::Number,
        flexible: true,
        default: Some(Value::Number(Number::Int(1))),
        if_not_exists: true,
        permissions: Permissions::full(),
        ..Field::default()
    }
}

fn string_field<'a>(name: &'a str, table: &'a str) -> Field<'a> {
    Field {
        name,
        table,
        kind: Kind::String,
        default: Some(Value::Strand(Strand::from("mydefaultvalue"))),
        if_not_exists: true,
        permissions: Permissions::full(),
        ..Field::default()
    }
}

#[test]
fn table_test_build() {
    let stmt = Table::build(Table {
        name: "test_table_define",
        kind: TableKind::Normal,
        if_not_exists: true,
        drop: true,
        schema_less: true,
        changefeed: 3000,
        include_original: false,
        permissions: Permissions::full(),
        comment: "My comment",
        ..Table::default()
    })
    .unwrap();
    assert!(stmt.len() > 0);
    assert!(stmt.starts_with("DEFINE TABLE IF NOT EXISTS test_table_define TYPE NORMAL DROP SCHEMALESS"));
    assert!(stmt.contains("COMMENT 'My comment'"));
    assert!(stmt.contains("CHANGEFEED"));

    let error = Table::build(Table {
        name: "",
        kind: TableKind::Normal,
        if_not_exists: true,
        drop: true,
        schema_less: true,
        changefeed: 3000,
        include_original: true,
        permissions: Permissions::full(),
        comment: "My comment",
        ..Table::default()
    })
    .unwrap_err();
    assert!(error.len() > 0);
    assert_eq!(error, "Table name is required.");

    let stmt = Table::build(Table {
        name: "test_table_relation",
        kind: TableKind::Relation,
        if_not_exists: true,
        drop: true,
        schema_less: true,
        changefeed: 3000,
        include_original: false,
        permissions: Permissions::full(),
        comment: "My comment",
        relation_in: "test_table_in",
        relation_out: "test_table_out",
        ..Table::default()
    })
    .unwrap();
    assert!(stmt.contains("TYPE RELATION IN test_table_in OUT test_table_out"));

    let mut permissions = Permissions::default();
    permissions.select = Permission::Full;
    permissions.update = Permission::Full;
    permissions.create = Permission::None;
    permissions.delete = Permission::None;
    let stmt = Table::build(Table {
        name: "test_table_permission",
        kind: TableKind::Relation,
        if_not_exists: true,
        drop: true,
        schema_less: true,
        changefeed: 3000,
        include_original: false,
        permissions: permissions,
        comment: "My comment",
        relation_in: "test_table_in",
        relation_out: "test_table_out",
        ..Table::default()
    })
    .unwrap();
    assert!(stmt.contains("PERMISSIONS FOR select, update FULL, FOR create, delete NONE"));
}

#[test]
fn field_test_builder() {
    let table_name: &str = "test_field_define";
    let table = Table::build(Table {
        name: table_name,
        kind: TableKind::Normal,
        if_not_exists: true,
        permissions: Permissions::full(),
        ..Table::default()
    });
    assert!(table.is_ok());
    let mut field_stmts = String::new();
    let stmt = Field::build(string_field("field_str", table_name)).unwrap();
    assert!(stmt.len() > 0);
    field_stmts.push_str(format!("{};", stmt).as_str());
    let stmt = Field::build(numeric_field("field_numeric", table_name)).unwrap();
    assert!(stmt.len() > 0);
    field_stmts.push_str(format!("{};", stmt).as_str());
    assert!(field_stmts.len() > 0);
    assert!(field_stmts.starts_with("DEFINE FIELD IF NOT EXISTS field_str ON test_field_define TYPE string DEFAULT 'mydefaultvalue'"));
    assert!(field_stmts.contains(";DEFINE FIELD IF NOT EXISTS field_numeric ON test_field_define FLEXIBLE TYPE number DEFAULT 1"));
}

#[test]
fn fields_test_build() {
    let table_name: &str = "test_field_define";
    let fields: Vec<Field> = Vec::from([
        numeric_field("fields_numeric", table_name),
        string_field("fields_str", table_name),
    ]);
    let stmts = Fields::build(fields).unwrap();
    assert!(stmts.len() > 0);
    let first = Field::build(numeric_field("fields_numeric", table_name)).unwrap();
    let second = Field::build(string_field("fields_str", table_name)).unwrap();
    assert_eq!(stmts, format!("{};{};", first, second));
}

#[test]
fn index_test_builder() {
    let table_name: &str = "test_table_index";
    let stmt = Index::build(Index {
        name: "myindex2",
        table: table_name,
        cols: vec![Idiom::from("field_index_1"), Idiom::from("field_index_2")],
        index: IndexType::Uniq,
        comment: "MyComment",
        if_not_exists: true,
    })
    .unwrap();
    assert!(stmt.len() > 0);
    assert!(stmt.starts_with(
        "DEFINE INDEX IF NOT EXISTS myindex2 ON test_table_index FIELDS field_index_1, field_index_2 UNIQUE"
    ));
    assert!(stmt.contains("COMMENT 'MyComment'"));
}

fn three_indexes(table_name: &str) -> Vec<Index<'_>> {
    Vec::from([
        Index {
            name: "myindex1",
            table: table_name,
            cols: vec![Idiom::from("field_index_1")],
            index: IndexType::Uniq,
            comment: "MyComment",
            if_not_exists: true,
        },
        Index {
            name: "myindex2",
            table: table_name,
            cols: vec![Idiom::from("field_index_1"), Idiom::from("field_index_2")],
            index: IndexType::Uniq,
            comment: "MyComment",
            if_not_exists: true,
        },
        Index {
            name: "myindex3",
            table: table_name,
            cols: vec![Idiom::from("field_index_2")],
            index: IndexType::Uniq,
            comment: "MyComment",
            if_not_exists: true,
        },
    ])
}

#[test]
fn indexes_test_builder() {
    let table_name: &str = "test_table_indexes";
    let fields = Fields::build(Vec::from([
        numeric_field("field_index_1", table_name),
        string_field("field_index_2", table_name),
    ]))
    .unwrap();
    assert!(fields.len() > 0);
    let stmts = Indexes::build(three_indexes(table_name)).unwrap();
    assert!(stmts.len() > 0);
    assert_eq!(stmts.matches("DEFINE INDEX").count(), 3);
    assert!(stmts.ends_with(";"));
    let at1 = stmts.find("myindex1").unwrap();
    let at2 = stmts.find("myindex2").unwrap();
    let at3 = stmts.find("myindex3").unwrap();
    assert!(at1 < at2 && at2 < at3);
}

#[test]
fn param_test_builder() {
    let params: Vec<Param> = Vec::from([
        Param {
            name: "myparam_string",
            value: Value::from("hello".to_string()),
            permission: Permission::Full,
            comment: "hello string",
            if_not_exists: true,
        },
        Param {
            name: "myparam_bool",
            value: Value::from(true),
            permission: Permission::Full,
            comment: "hello boolean",
            if_not_exists: true,
        },
        Param {
            name: "myparam_array",
            value: Value::from(vec![1, 2, 3, 4]),
            permission: Permission::Full,
            comment: "hello array",
            if_not_exists: true,
        },
    ]);
    let stmts = surreal_builder::query::Query::new(params).build().unwrap();
    assert!(stmts.len() > 0);
    assert!(stmts.starts_with("DEFINE PARAM IF NOT EXISTS $myparam_string VALUE 'hello'"));
    assert!(stmts.contains("$myparam_bool VALUE true"));
    assert!(stmts.contains("$myparam_array VALUE [1, 2, 3, 4]"));
}

#[test]
fn param_values_of_every_shape() {
    let object = Value::from(HashMap::from([
        ("number", Value::from(1)),
        ("bool", Value::from(true)),
        ("str", Value::from("hello world")),
        ("array", Value::from(vec!["hello", "world1234567"])),
    ]));
    let stmt = Param::build(Param {
        name: "myparam_via_query_object",
        value: object,
        permission: Permission::Full,
        comment: "hello myparam_via_query_string",
        if_not_exists: false,
    })
    .unwrap();
    assert!(stmt.starts_with("DEFINE PARAM $myparam_via_query_object VALUE {"));
    assert!(stmt.contains("COMMENT 'hello myparam_via_query_string'"));
    assert!(stmt.ends_with("PERMISSIONS FULL"));
}
