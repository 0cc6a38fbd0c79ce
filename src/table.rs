//! `DEFINE TABLE` statements.
use vstd::prelude::*;
use surrealdb::sql::Permissions;
use crate::surreal::{change_feed, change_feed_of, render_table, table_text, table_type, table_type_of, TableStatement};
use crate::{optional, present, result_view};

verus! {

/// The shape of a table.
#[derive(Debug, Clone, Copy, PartialEq, Eq, Structural)]
pub enum TableKind {
    Any,
    Normal,
    Relation,
}

impl Default for TableKind {
    fn default() -> (r: Self)
        ensures
            r == TableKind::Any,
    {
        TableKind::Any
    }
}

/// A table definition.
///
/// * `name` - the table name; required.
/// * `kind` - the shape of the table.
/// * `drop` - a dropped table refuses new and changed records.
/// * `schema_less` - `true` for SCHEMALESS, `false` for SCHEMAFULL.
/// * `changefeed` - how many seconds of changes to keep; `0` keeps none.
/// * `include_original` - whether the change feed keeps the original values too.
/// * `permissions` - the rules for select, create, update and delete.
/// * `comment` - a comment; left out when empty.
/// * `relation_in` - for a relation, the table it comes from; left out when empty.
/// * `relation_out` - for a relation, the table it goes to; left out when empty.
/// * `if_not_exists` - define the table only if it does not exist yet.
/// * `view` - the query whose result the table holds.
#[derive(Debug, Default)]
pub struct Table<'a> {
    pub name: &'a str,
    pub kind: TableKind,
    pub drop: bool,
    pub schema_less: bool,
    pub changefeed: u64,
    pub include_original: bool,
    pub permissions: Permissions,
    pub comment: &'a str,
    pub relation_in: &'a str,
    pub relation_out: &'a str,
    pub if_not_exists: bool,
    pub view: Option<surrealdb::sql::View>,
}

/// The table type of a definition: relation references count only for a
/// relation, and an empty one is left out.
pub open spec fn table_type_spec(t: Table) -> surrealdb::sql::TableType {
    if t.kind == TableKind::Relation {
        table_type_of(t.kind, present(t.relation_in@), present(t.relation_out@))
    } else {
        table_type_of(t.kind, None, None)
    }
}

/// The change feed of a definition: none when it keeps no seconds.
pub open spec fn change_feed_spec(t: Table) -> Option<surrealdb::sql::ChangeFeed> {
    if t.changefeed == 0 {
        None
    } else {
        Some(change_feed_of(t.changefeed, t.include_original))
    }
}

/// The statement that a table definition stands for.
pub open spec fn table_statement(t: Table) -> TableStatement {
    TableStatement {
        name: t.name@,
        kind: table_type_spec(t),
        drop: t.drop,
        full: !t.schema_less,
        view: t.view,
        permissions: t.permissions,
        changefeed: change_feed_spec(t),
        comment: present(t.comment@),
        if_not_exists: t.if_not_exists,
    }
}

/// What building a table definition gives: an error when the name is
/// empty, else the statement's text as surrealdb writes it under the parser
/// nesting limit `depth`.
pub open spec fn table_result(t: Table, depth: u8) -> Result<Seq<char>, Seq<char>> {
    if t.name@.len() == 0 {
        Err("Table name is required."@)
    } else {
        Ok(table_text(table_statement(t), depth))
    }
}

impl<'a> Table<'a> {
    /// Builds the `DEFINE TABLE` statement of `item`.
    pub fn build(item: Table) -> (r: Result<String, String>)
        ensures
            exists|d: u8| result_view(r) == #[trigger] table_result(item, d),
            r matches Err(e) ==> e@ == "Table name is required."@,
            r.is_ok() <==> item.name@.len() > 0,
            r matches Ok(s) ==> s@.len() > 0,
            r matches Err(e) ==> e@.len() > 0,
    {
        item.statement()
    }

    /// Builds the `DEFINE TABLE` statement of `self`.
    pub fn statement(&self) -> (r: Result<String, String>)
        ensures
            exists|d: u8| result_view(r) == #[trigger] table_result(*self, d),
            r matches Err(e) ==> e@ == "Table name is required."@,
            r.is_ok() <==> self.name@.len() > 0,
            r matches Ok(s) ==> s@.len() > 0,
            r matches Err(e) ==> e@.len() > 0,
    {
        if self.name.is_empty() {
            let e = String::from_str("Table name is required.");
            proof {
                reveal_strlit("Table name is required.");
                assert(result_view(Err::<String, String>(e)) == table_result(*self, 0));
            }
            return Err(e);
        }
        let kind = if self.kind == TableKind::Relation {
            table_type(&self.kind, optional(self.relation_in), optional(self.relation_out))
        } else {
            table_type(&self.kind, None, None)
        };
        let changefeed = if self.changefeed == 0 {
            None
        } else {
            Some(change_feed(self.changefeed, self.include_original))
        };
        let (s, depth) = render_table(
            self.name,
            &kind,
            self.drop,
            !self.schema_less,
            &self.view,
            &self.permissions,
            &changefeed,
            optional(self.comment),
            self.if_not_exists,
        );
        let r = Ok(s);
        proof {
            assert(result_view(r) == table_result(*self, depth));
        }
        r
    }
}

} // verus!
