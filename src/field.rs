//! `DEFINE FIELD` statements.
use vstd::prelude::*;
use surrealdb::sql::{Kind, Permissions, Value};
use crate::surreal::{field_text, render_field, FieldStatement};
use crate::{optional, present, result_view};

verus! {

/// A field definition.
///
/// * `name` - the field's path; required.
/// * `table` - the table that holds the field.
/// * `kind` - the type of the field's values.
/// * `flexible` - allow schemaless values in a schemafull table.
/// * `readonly` - the field cannot be changed once set.
/// * `default` - the value given when none is.
/// * `assert` - a condition that every value must meet.
/// * `value` - an expression that computes the stored value.
/// * `permissions` - the rules for select, create, update and delete.
/// * `comment` - a comment; left out when empty.
/// * `if_not_exists` - define the field only if it does not exist yet.
#[derive(Debug, Clone, Default)]
pub struct Field<'a> {
    pub name: &'a str,
    pub table: &'a str,
    pub kind: Kind,
    pub flexible: bool,
    pub readonly: bool,
    pub default: Option<Value>,
    pub assert: Option<Value>,
    pub value: Option<Value>,
    pub permissions: Permissions,
    pub comment: &'a str,
    pub if_not_exists: bool,
}

/// The statement that a field definition stands for.
pub open spec fn field_statement(f: Field) -> FieldStatement {
    FieldStatement {
        name: f.name@,
        table: f.table@,
        flexible: f.flexible,
        kind: f.kind,
        readonly: f.readonly,
        default: f.default,
        assert: f.assert,
        value: f.value,
        permissions: f.permissions,
        comment: present(f.comment@),
        if_not_exists: f.if_not_exists,
    }
}

/// What building a field definition gives: an error when the name is
/// empty, else the statement's text as surrealdb writes it under the parser
/// nesting limit `depth`.
pub open spec fn field_result(f: Field, depth: u8) -> Result<Seq<char>, Seq<char>> {
    if f.name@.len() == 0 {
        Err("Field name is required."@)
    } else {
        Ok(field_text(field_statement(f), depth))
    }
}

impl<'a> Field<'a> {
    /// Builds the `DEFINE FIELD` statement of `item`.
    pub fn build(item: Field) -> (r: Result<String, String>)
        ensures
            exists|d: u8| result_view(r) == #[trigger] field_result(item, d),
            r matches Err(e) ==> e@ == "Field name is required."@,
            r.is_ok() <==> item.name@.len() > 0,
            r matches Ok(s) ==> s@.len() > 0,
            r matches Err(e) ==> e@.len() > 0,
    {
        item.statement()
    }

    /// Builds the `DEFINE FIELD` statement of `self`.
    pub fn statement(&self) -> (r: Result<String, String>)
        ensures
            exists|d: u8| result_view(r) == #[trigger] field_result(*self, d),
            r matches Err(e) ==> e@ == "Field name is required."@,
            r.is_ok() <==> self.name@.len() > 0,
            r matches Ok(s) ==> s@.len() > 0,
            r matches Err(e) ==> e@.len() > 0,
    {
        if self.name.is_empty() {
            let e = String::from_str("Field name is required.");
            proof {
                reveal_strlit("Field name is required.");
                assert(result_view(Err::<String, String>(e)) == field_result(*self, 0));
            }
            return Err(e);
        }
        let (s, depth) = render_field(
            self.name,
            self.table,
            self.flexible,
            &self.kind,
            self.readonly,
            &self.default,
            &self.assert,
            &self.value,
            &self.permissions,
            optional(self.comment),
            self.if_not_exists,
        );
        let r = Ok(s);
        proof {
            assert(result_view(r) == field_result(*self, depth));
        }
        r
    }
}

} // verus!
