//! Builders that turn typed schema definitions (tables, fields, indexes and
//! parameters) into SurrealQL `DEFINE` statements, and a composer that joins
//! a list of definitions into one statement sequence.
use vstd::prelude::*;

pub mod surreal;
pub mod table;
pub mod field;
pub mod index;
pub mod param;
pub mod query;
pub mod fields;
pub mod indexes;
pub mod laws;

verus! {

/// A `Result` of strings seen as a `Result` of character sequences.
pub open spec fn result_view(r: Result<String, String>) -> Result<Seq<char>, Seq<char>> {
    match r {
        Ok(s) => Ok(s@),
        Err(e) => Err(e@),
    }
}

/// An optional clause: absent when its text is empty.
pub open spec fn present(s: Seq<char>) -> Option<Seq<char>> {
    if s.len() == 0 {
        None
    } else {
        Some(s)
    }
}

/// An optional string seen as an optional character sequence.
pub open spec fn opt_view(o: Option<&str>) -> Option<Seq<char>> {
    match o {
        Some(s) => Some(s@),
        None => None,
    }
}

/// `None` for an empty string, else the string.
pub(crate) fn optional<'b>(s: &'b str) -> (r: Option<&'b str>)
    ensures
        opt_view(r) == present(s@),
{
    if s.is_empty() {
        None
    } else {
        Some(s)
    }
}

} // verus!
