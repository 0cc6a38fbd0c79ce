//! `DEFINE PARAM` statements.
use vstd::prelude::*;
use surrealdb::sql::{Permission, Value};
use crate::surreal::{param_text, render_param, ParamStatement};
use crate::{optional, present, result_view};

verus! {

/// A parameter definition.
///
/// * `name` - the parameter name, without `$`; required.
/// * `value` - the parameter's value.
/// * `comment` - a comment; left out when empty.
/// * `permission` - who may read the parameter.
/// * `if_not_exists` - define the parameter only if it does not exist yet.
#[derive(Debug, Clone, Default)]
pub struct Param<'a> {
    pub name: &'a str,
    pub value: Value,
    pub comment: &'a str,
    pub permission: Permission,
    pub if_not_exists: bool,
}

/// The statement that a parameter definition stands for.
pub open spec fn param_statement(p: Param) -> ParamStatement {
    ParamStatement {
        name: p.name@,
        value: p.value,
        comment: present(p.comment@),
        permission: p.permission,
        if_not_exists: p.if_not_exists,
    }
}

/// What building a parameter definition gives: an error when the name is
/// empty, else the statement's text as surrealdb writes it under the parser
/// nesting limit `depth`.
pub open spec fn param_result(p: Param, depth: u8) -> Result<Seq<char>, Seq<char>> {
    if p.name@.len() == 0 {
        Err("Param name is required."@)
    } else {
        Ok(param_text(param_statement(p), depth))
    }
}

impl<'a> Param<'a> {
    /// Builds the `DEFINE PARAM` statement of `item`.
    pub fn build(item: Param) -> (r: Result<String, String>)
        ensures
            exists|d: u8| result_view(r) == #[trigger] param_result(item, d),
            r matches Err(e) ==> e@ == "Param name is required."@,
            r.is_ok() <==> item.name@.len() > 0,
            r matches Ok(s) ==> s@.len() > 0,
            r matches Err(e) ==> e@.len() > 0,
    {
        item.statement()
    }

    /// Builds the `DEFINE PARAM` statement of `self`.
    pub fn statement(&self) -> (r: Result<String, String>)
        ensures
            exists|d: u8| result_view(r) == #[trigger] param_result(*self, d),
            r matches Err(e) ==> e@ == "Param name is required."@,
            r.is_ok() <==> self.name@.len() > 0,
            r matches Ok(s) ==> s@.len() > 0,
            r matches Err(e) ==> e@.len() > 0,
    {
        if self.name.is_empty() {
            let e = String::from_str("Param name is required.");
            proof {
                reveal_strlit("Param name is required.");
                assert(result_view(Err::<String, String>(e)) == param_result(*self, 0));
            }
            return Err(e);
        }
        let (s, depth) = render_param(
            self.name,
            &self.value,
            optional(self.comment),
            &self.permission,
            self.if_not_exists,
        );
        let r = Ok(s);
        proof {
            assert(result_view(r) == param_result(*self, depth));
        }
        r
    }
}

} // verus!
