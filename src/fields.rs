//! Several field definitions at once.
use vstd::prelude::*;
use crate::field::Field;
use crate::query::{batch_outcome, compose, sequence_outcome, texts, Query};

verus! {

/// Builds several field definitions into one statement sequence.
#[derive(Debug)]
pub struct Fields;

impl Fields {
    /// Builds `items` in order into one statement sequence, or gives the
    /// error of the first that fails, prefixed with `QUERY STATEMENT ERROR: `
    /// as every batch reports it.
    pub fn build(items: Vec<Field>) -> (r: Result<String, String>)
        ensures
            exists|depths: Seq<u8>| #[trigger] sequence_outcome(items@, depths, r),
    {
        let ghost all = items@;
        let mut query = Query::new(items);
        let ghost before = texts(query.stmts@);
        proof {
            assert(before =~= seq![]);
        }
        let r = query.build();
        proof {
            let depths = choose|depths: Seq<u8>|
                #[trigger] batch_outcome(all, depths, before, texts(query.stmts@), r);
            assert(seq![] + compose(all, depths).0 =~= compose(all, depths).0);
            assert(sequence_outcome(all, depths, r));
        }
        r
    }
}

} // verus!
