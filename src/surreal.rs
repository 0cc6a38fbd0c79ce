//! What the builders take from surrealdb: its statement types, and the
//! text that their `Display` writes.
use vstd::prelude::*;
use surrealdb::sql::statements::{DefineFieldStatement, DefineIndexStatement, DefineParamStatement, DefineTableStatement};
use surrealdb::sql::{ChangeFeed, Ident, Idiom, Idioms, Kind, Permission, Permissions, Relation, Strand, TableType, Value};
use surrealdb::sql::Index as IndexType;
use surrealdb::cnf::MAX_COMPUTATION_DEPTH;
use crate::opt_view;
use crate::table::TableKind;

verus! {

/// surrealdb's `Permissions`: a table's or field's access rules, carried
/// into its statement unopened.
#[verifier::external_type_specification]
#[verifier::external_body]
pub struct ExPermissions(Permissions);

/// surrealdb's `Permission`: one access rule, carried into a parameter's
/// statement unopened.
#[verifier::external_type_specification]
#[verifier::external_body]
pub struct ExPermission(Permission);

/// surrealdb's `Kind`: a field's type, carried into its statement unopened.
#[verifier::external_type_specification]
#[verifier::external_body]
pub struct ExKind(Kind);

/// surrealdb's `Value`: a value or an expression, carried into a
/// statement unopened.
#[verifier::external_type_specification]
#[verifier::external_body]
pub struct ExValue(Value);

/// surrealdb's `Idiom`: a field path that an index covers, carried into its
/// statement unopened.
#[verifier::external_type_specification]
#[verifier::external_body]
pub struct ExIdiom(Idiom);

/// surrealdb's `Part`: what an `Idiom` dereferences to; never opened here.
#[verifier::external_type_specification]
#[verifier::external_body]
pub struct ExPart(surrealdb::sql::Part);

/// surrealdb's `Index`: the kind of an index, carried into its statement
/// unopened.
#[verifier::external_type_specification]
#[verifier::external_body]
pub struct ExIndexType(IndexType);

/// surrealdb's `View`: the query of a precomputed table, carried into its
/// statement unopened.
#[verifier::external_type_specification]
#[verifier::external_body]
pub struct ExView(surrealdb::sql::View);

/// surrealdb's `TableType`: the shape of a table, as `table_type` builds it.
#[verifier::external_type_specification]
#[verifier::external_body]
pub struct ExTableType(TableType);

/// surrealdb's `ChangeFeed`: a change-feed clause, as `change_feed` builds it.
#[verifier::external_type_specification]
#[verifier::external_body]
pub struct ExChangeFeed(ChangeFeed);

/// Relies on the derived `Clone` of surrealdb's `Permissions`.
pub assume_specification[ <Permissions as Clone>::clone ](p: &Permissions) -> Permissions;

/// Relies on the derived `Clone` of surrealdb's `Permission`.
pub assume_specification[ <Permission as Clone>::clone ](p: &Permission) -> Permission;

/// Relies on the derived `Clone` of surrealdb's `Kind`.
pub assume_specification[ <Kind as Clone>::clone ](k: &Kind) -> Kind;

/// Relies on the derived `Clone` of surrealdb's `Value`.
pub assume_specification[ <Value as Clone>::clone ](v: &Value) -> Value;

/// Relies on the derived `Clone` of surrealdb's `Idiom`.
pub assume_specification[ <Idiom as Clone>::clone ](i: &Idiom) -> Idiom;

/// Relies on the derived `Clone` of surrealdb's `Index`.
pub assume_specification[ <IndexType as Clone>::clone ](i: &IndexType) -> IndexType;

/// The parts of a `DEFINE TABLE` statement, as the builder decided them.
pub struct TableStatement {
    pub name: Seq<char>,
    pub kind: TableType,
    pub drop: bool,
    pub full: bool,
    pub view: Option<surrealdb::sql::View>,
    pub permissions: Permissions,
    pub changefeed: Option<ChangeFeed>,
    pub comment: Option<Seq<char>>,
    pub if_not_exists: bool,
}

/// The table type that surrealdb builds for a table kind and the tables a
/// relation comes from and goes to.
pub uninterp spec fn table_type_of(kind: TableKind, from: Option<Seq<char>>, to: Option<Seq<char>>) -> TableType;

/// The change feed that keeps changes for `seconds` seconds.
pub uninterp spec fn change_feed_of(seconds: u64, store_original: bool) -> ChangeFeed;

/// The text of a `DEFINE TABLE` statement, written while surrealdb's parser
/// nesting limit is `depth`: the quoting of strings runs that parser.
pub uninterp spec fn table_text(s: TableStatement, depth: u8) -> Seq<char>;

/// Relies on surrealdb's `TableType`, `Relation`, `Kind::Record` and
/// `Table::from`: the value is built from the arguments alone.
#[verifier::external_body]
pub(crate) fn table_type(kind: &TableKind, from: Option<&str>, to: Option<&str>) -> (r: TableType)
    ensures
        r == table_type_of(*kind, opt_view(from), opt_view(to)),
{
    let mut relation = Relation::default();
    relation.from = from.map(|t| Kind::Record(vec![surrealdb::sql::Table::from(t.to_string())]));
    relation.to = to.map(|t| Kind::Record(vec![surrealdb::sql::Table::from(t.to_string())]));
    match kind {
        TableKind::Any => TableType::Any,
        TableKind::Normal => TableType::Normal,
        TableKind::Relation => TableType::Relation(relation),
    }
}

/// Relies on surrealdb's `ChangeFeed` and `Duration::from_secs`: the value is
/// built from the arguments alone.
#[verifier::external_body]
pub(crate) fn change_feed(seconds: u64, store_original: bool) -> (r: ChangeFeed)
    ensures
        r == change_feed_of(seconds, store_original),
{
    let mut feed = ChangeFeed::default();
    feed.expiry = core::time::Duration::from_secs(seconds);
    feed.store_original = store_original;
    feed
}

/// Relies on the `Display` of surrealdb's `DefineTableStatement`: the text
/// depends on the statement's fields and on `MAX_COMPUTATION_DEPTH`, which
/// the environment sets and which is handed back; it opens with `DEFINE TABLE`.
#[verifier::external_body]
pub(crate) fn render_table(
    name: &str,
    kind: &TableType,
    drop: bool,
    full: bool,
    view: &Option<surrealdb::sql::View>,
    permissions: &Permissions,
    changefeed: &Option<ChangeFeed>,
    comment: Option<&str>,
    if_not_exists: bool,
) -> (r: (String, u8))
    ensures
        r.0@ == table_text(
            (TableStatement {
                name: name@,
                kind: *kind,
                drop,
                full,
                view: *view,
                permissions: *permissions,
                changefeed: *changefeed,
                comment: opt_view(comment),
                if_not_exists,
            }),
            r.1,
        ),
        r.0@.len() > 0,
{
    let mut stmt = DefineTableStatement::default();
    stmt.name = Ident::from(name.to_string());
    stmt.kind = kind.clone();
    stmt.drop = drop;
    stmt.full = full;
    stmt.view = view.clone();
    stmt.permissions = permissions.clone();
    stmt.changefeed = *changefeed;
    let mut note = Strand::default();
    note.0 = comment.unwrap_or_default().to_string();
    stmt.comment = comment.and(Some(note));
    stmt.if_not_exists = if_not_exists;
    (stmt.to_string(), *MAX_COMPUTATION_DEPTH)
}

/// The parts of a `DEFINE FIELD` statement, as the builder decided them.
pub struct FieldStatement {
    pub name: Seq<char>,
    pub table: Seq<char>,
    pub flexible: bool,
    pub kind: Kind,
    pub readonly: bool,
    pub default: Option<Value>,
    pub assert: Option<Value>,
    pub value: Option<Value>,
    pub permissions: Permissions,
    pub comment: Option<Seq<char>>,
    pub if_not_exists: bool,
}

/// The text of a `DEFINE FIELD` statement, written while surrealdb's parser
/// nesting limit is `depth`: the quoting of strings runs that parser.
pub uninterp spec fn field_text(s: FieldStatement, depth: u8) -> Seq<char>;

/// Relies on the `Display` of surrealdb's `DefineFieldStatement`: the text
/// depends on the statement's fields and on `MAX_COMPUTATION_DEPTH`, which
/// the environment sets and which is handed back; it opens with `DEFINE FIELD`.
#[verifier::external_body]
pub(crate) fn render_field(
    name: &str,
    table: &str,
    flexible: bool,
    kind: &Kind,
    readonly: bool,
    default: &Option<Value>,
    assert: &Option<Value>,
    value: &Option<Value>,
    permissions: &Permissions,
    comment: Option<&str>,
    if_not_exists: bool,
) -> (r: (String, u8))
    ensures
        r.0@ == field_text(
            (FieldStatement {
                name: name@,
                table: table@,
                flexible,
                kind: *kind,
                readonly,
                default: *default,
                assert: *assert,
                value: *value,
                permissions: *permissions,
                comment: opt_view(comment),
                if_not_exists,
            }),
            r.1,
        ),
        r.0@.len() > 0,
{
    let mut stmt = DefineFieldStatement::default();
    stmt.name = Idiom::from(name.to_string());
    stmt.what = Ident::from(table.to_string());
    stmt.flex = flexible;
    stmt.kind = Some(kind.clone());
    stmt.readonly = readonly;
    stmt.default = default.clone();
    stmt.assert = assert.clone();
    stmt.value = value.clone();
    stmt.permissions = permissions.clone();
    let mut note = Strand::default();
    note.0 = comment.unwrap_or_default().to_string();
    stmt.comment = comment.and(Some(note));
    stmt.if_not_exists = if_not_exists;
    (stmt.to_string(), *MAX_COMPUTATION_DEPTH)
}

/// The parts of a `DEFINE INDEX` statement, as the builder decided them.
pub struct IndexStatement {
    pub name: Seq<char>,
    pub table: Seq<char>,
    pub cols: Seq<Idiom>,
    pub index: IndexType,
    pub comment: Option<Seq<char>>,
    pub if_not_exists: bool,
}

/// The text of a `DEFINE INDEX` statement, written while surrealdb's parser
/// nesting limit is `depth`: the quoting of strings runs that parser.
pub uninterp spec fn index_text(s: IndexStatement, depth: u8) -> Seq<char>;

/// Relies on the `Display` of surrealdb's `DefineIndexStatement`: the text
/// depends on the statement's fields and on `MAX_COMPUTATION_DEPTH`, which
/// the environment sets and which is handed back; it opens with `DEFINE INDEX`.
#[verifier::external_body]
pub(crate) fn render_index(
    name: &str,
    table: &str,
    cols: &Vec<Idiom>,
    index: &IndexType,
    comment: Option<&str>,
    if_not_exists: bool,
) -> (r: (String, u8))
    ensures
        r.0@ == index_text(
            (IndexStatement {
                name: name@,
                table: table@,
                cols: cols@,
                index: *index,
                comment: opt_view(comment),
                if_not_exists,
            }),
            r.1,
        ),
        r.0@.len() > 0,
{
    let mut stmt = DefineIndexStatement::default();
    let mut idioms = Idioms::default();
    idioms.0 = cols.clone();
    stmt.name = Ident::from(name.to_string());
    stmt.what = Ident::from(table.to_string());
    stmt.cols = idioms;
    stmt.index = index.clone();
    let mut note = Strand::default();
    note.0 = comment.unwrap_or_default().to_string();
    stmt.comment = comment.and(Some(note));
    stmt.if_not_exists = if_not_exists;
    (stmt.to_string(), *MAX_COMPUTATION_DEPTH)
}

/// The parts of a `DEFINE PARAM` statement, as the builder decided them.
pub struct ParamStatement {
    pub name: Seq<char>,
    pub value: Value,
    pub comment: Option<Seq<char>>,
    pub permission: Permission,
    pub if_not_exists: bool,
}

/// The text of a `DEFINE PARAM` statement, written while surrealdb's parser
/// nesting limit is `depth`: the quoting of strings runs that parser.
pub uninterp spec fn param_text(s: ParamStatement, depth: u8) -> Seq<char>;

/// Relies on the `Display` of surrealdb's `DefineParamStatement`: the text
/// depends on the statement's fields and on `MAX_COMPUTATION_DEPTH`, which
/// the environment sets and which is handed back; it opens with `DEFINE PARAM`.
#[verifier::external_body]
pub(crate) fn render_param(
    name: &str,
    value: &Value,
    comment: Option<&str>,
    permission: &Permission,
    if_not_exists: bool,
) -> (r: (String, u8))
    ensures
        r.0@ == param_text(
            (ParamStatement {
                name: name@,
                value: *value,
                comment: opt_view(comment),
                permission: *permission,
                if_not_exists,
            }),
            r.1,
        ),
        r.0@.len() > 0,
{
    let mut stmt = DefineParamStatement::default();
    stmt.name = Ident::from(name.to_string());
    stmt.value = value.clone();
    let mut note = Strand::default();
    note.0 = comment.unwrap_or_default().to_string();
    stmt.comment = comment.and(Some(note));
    stmt.permissions = permission.clone();
    stmt.if_not_exists = if_not_exists;
    (stmt.to_string(), *MAX_COMPUTATION_DEPTH)
}

} // verus!
