//! `DEFINE INDEX` statements.
use vstd::prelude::*;
use surrealdb::sql::Idiom;
use surrealdb::sql::Index as IndexType;
use crate::surreal::{index_text, render_index, IndexStatement};
use crate::{optional, present, result_view};

verus! {

/// An index definition.
///
/// * `name` - the index name; required.
/// * `table` - the table that the index covers.
/// * `cols` - the indexed fields, in order; the list may be empty.
/// * `index` - the kind of index.
/// * `comment` - a comment; left out when empty.
/// * `if_not_exists` - define the index only if it does not exist yet.
#[derive(Debug, Clone, Default)]
pub struct Index<'a> {
    pub name: &'a str,
    pub table: &'a str,
    pub cols: Vec<Idiom>,
    pub index: IndexType,
    pub comment: &'a str,
    pub if_not_exists: bool,
}

/// The statement that an index definition stands for.
pub open spec fn index_statement(i: Index) -> IndexStatement {
    IndexStatement {
        name: i.name@,
        table: i.table@,
        cols: i.cols@,
        index: i.index,
        comment: present(i.comment@),
        if_not_exists: i.if_not_exists,
    }
}

/// What building an index definition gives: an error when the name is
/// empty, else the statement's text as surrealdb writes it under the parser
/// nesting limit `depth`.
pub open spec fn index_result(i: Index, depth: u8) -> Result<Seq<char>, Seq<char>> {
    if i.name@.len() == 0 {
        Err("Index name is required."@)
    } else {
        Ok(index_text(index_statement(i), depth))
    }
}

impl<'a> Index<'a> {
    /// Builds the `DEFINE INDEX` statement of `item`.
    pub fn build(item: Index) -> (r: Result<String, String>)
        ensures
            exists|d: u8| result_view(r) == #[trigger] index_result(item, d),
            r matches Err(e) ==> e@ == "Index name is required."@,
            r.is_ok() <==> item.name@.len() > 0,
            r matches Ok(s) ==> s@.len() > 0,
            r matches Err(e) ==> e@.len() > 0,
    {
        item.statement()
    }

    /// Builds the `DEFINE INDEX` statement of `self`.
    pub fn statement(&self) -> (r: Result<String, String>)
        ensures
            exists|d: u8| result_view(r) == #[trigger] index_result(*self, d),
            r matches Err(e) ==> e@ == "Index name is required."@,
            r.is_ok() <==> self.name@.len() > 0,
            r matches Ok(s) ==> s@.len() > 0,
            r matches Err(e) ==> e@.len() > 0,
    {
        if self.name.is_empty() {
            let e = String::from_str("Index name is required.");
            proof {
                reveal_strlit("Index name is required.");
                assert(result_view(Err::<String, String>(e)) == index_result(*self, 0));
            }
            return Err(e);
        }
        let (s, depth) = render_index(
            self.name,
            self.table,
            &self.cols,
            &self.index,
            optional(self.comment),
            self.if_not_exists,
        );
        let r = Ok(s);
        proof {
            assert(result_view(r) == index_result(*self, depth));
        }
        r
    }
}

} // verus!
