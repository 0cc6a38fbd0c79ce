//! Composing several definitions of one kind into one statement sequence.
use vstd::prelude::*;
use crate::field::{field_result, Field};
use crate::index::{index_result, Index};
use crate::param::{param_result, Param};
use crate::table::{table_result, Table};
use crate::result_view;

verus! {

/// A definition that builds into one statement.
pub trait Definition: Sized {
    /// What building the definition gives: the statement's text as
    /// surrealdb writes it under the parser nesting limit `depth`, or an
    /// error message.
    spec fn result(&self, depth: u8) -> Result<Seq<char>, Seq<char>>;

    /// Builds the definition's statement.
    fn define(&self) -> (r: Result<String, String>)
        ensures
            exists|d: u8| result_view(r) == #[trigger] self.result(d),
    ;
}

impl<'a> Definition for Table<'a> {
    open spec fn result(&self, depth: u8) -> Result<Seq<char>, Seq<char>> {
        table_result(*self, depth)
    }

    fn define(&self) -> (r: Result<String, String>) {
        let r = self.statement();
        proof {
            let d = choose|d: u8| result_view(r) == #[trigger] table_result(*self, d);
            assert(result_view(r) == self.result(d));
        }
        r
    }
}

impl<'a> Definition for Field<'a> {
    open spec fn result(&self, depth: u8) -> Result<Seq<char>, Seq<char>> {
        field_result(*self, depth)
    }

    fn define(&self) -> (r: Result<String, String>) {
        let r = self.statement();
        proof {
            let d = choose|d: u8| result_view(r) == #[trigger] field_result(*self, d);
            assert(result_view(r) == self.result(d));
        }
        r
    }
}

impl<'a> Definition for Index<'a> {
    open spec fn result(&self, depth: u8) -> Result<Seq<char>, Seq<char>> {
        index_result(*self, depth)
    }

    fn define(&self) -> (r: Result<String, String>) {
        let r = self.statement();
        proof {
            let d = choose|d: u8| result_view(r) == #[trigger] index_result(*self, d);
            assert(result_view(r) == self.result(d));
        }
        r
    }
}

impl<'a> Definition for Param<'a> {
    open spec fn result(&self, depth: u8) -> Result<Seq<char>, Seq<char>> {
        param_result(*self, depth)
    }

    fn define(&self) -> (r: Result<String, String>) {
        let r = self.statement();
        proof {
            let d = choose|d: u8| result_view(r) == #[trigger] param_result(*self, d);
            assert(result_view(r) == self.result(d));
        }
        r
    }
}

/// Builds `items` in order and stops at the first error: the texts of the
/// statements built, and the error if one came. Item `i` is written under
/// the parser nesting limit `depths[i]`.
pub open spec fn compose<T: Definition>(items: Seq<T>, depths: Seq<u8>) -> (
    Seq<Seq<char>>,
    Option<Seq<char>>,
)
    decreases items.len(),
{
    if items.len() == 0 {
        (seq![], None)
    } else {
        let (texts, error) = compose(items.drop_last(), depths);
        if error is Some {
            (texts, error)
        } else {
            match items.last().result(depths[items.len() - 1]) {
                Ok(t) => (texts.push(t), None),
                Err(e) => (texts, Some(e)),
            }
        }
    }
}

/// Statements joined by `;`.
pub open spec fn joined(stmts: Seq<Seq<char>>) -> Seq<char>
    decreases stmts.len(),
{
    if stmts.len() == 0 {
        seq![]
    } else if stmts.len() == 1 {
        stmts[0]
    } else {
        joined(stmts.drop_last()) + seq![';'] + stmts.last()
    }
}

/// A statement sequence: the statements joined by `;`, with a `;` after
/// the last; `;` alone when there are none.
pub open spec fn sequence_text(stmts: Seq<Seq<char>>) -> Seq<char> {
    joined(stmts) + seq![';']
}

/// The error that a batch reports for the error of one of its definitions.
pub open spec fn batch_error(e: Seq<char>) -> Seq<char> {
    "QUERY STATEMENT ERROR: "@ + e
}

/// The texts of a list of strings.
pub open spec fn texts(v: Seq<String>) -> Seq<Seq<char>> {
    v.map_values(|s: String| s@)
}

/// A batch of definitions of one kind, and the statements built so far.
#[derive(Debug, Clone)]
pub struct Query<T> {
    pub items: Vec<T>,
    pub stmts: Vec<String>,
}

impl<T> Query<T> {
    /// A batch of `items` with no statement built yet.
    pub fn new(items: Vec<T>) -> (r: Self)
        ensures
            r.items@ == items@,
            r.stmts@.len() == 0,
    {
        Query { items, stmts: Vec::new() }
    }

    /// Keeps the statement of a successful build, or turns a failed build
    /// into the batch's error.
    pub fn get_statement(&mut self, item: Result<String, String>) -> (r: Result<(), String>)
        ensures
            final(self).items@ == old(self).items@,
            r.is_ok() == item.is_ok(),
            item matches Ok(s) ==> final(self).stmts@ == old(self).stmts@.push(s),
            item matches Err(e) ==> final(self).stmts@ == old(self).stmts@,
            item matches Err(e) ==> r matches Err(m) && m@ == batch_error(e@),
    {
        match item {
            Ok(stmt) => {
                self.stmts.push(stmt);
                Ok(())
            },
            Err(error) => {
                let prefix = String::from_str("QUERY STATEMENT ERROR: ");
                Err(prefix.concat(error.as_str()))
            },
        }
    }

    /// The statements built so far as one statement sequence.
    pub fn to_string(&self) -> (r: String)
        ensures
            r@ == sequence_text(texts(self.stmts@)),
    {
        let ghost all = texts(self.stmts@);
        let mut out = String::new();
        let mut i: usize = 0;
        proof {
            reveal_strlit(";");
            assert(all.take(0) =~= seq![]);
        }
        while i < self.stmts.len()
            invariant
                i <= self.stmts@.len(),
                all == texts(self.stmts@),
                out@ == joined(all.take(i as int)),
                ";"@ == seq![';'],
            decreases self.stmts@.len() - i,
        {
            proof {
                assert(all.take(i + 1).drop_last() =~= all.take(i as int));
            }
            if i > 0 {
                out.append(";");
            }
            out.append(self.stmts[i].as_str());
            i = i + 1;
            proof {
                assert(out@ =~= joined(all.take(i as int)));
            }
        }
        proof {
            assert(all.take(i as int) =~= all);
        }
        out.append(";");
        out
    }
}

/// What a batch ends with, under the parser nesting limits `depths`: the
/// statements kept grow from `before` to `after` by those built, and the
/// result is the whole sequence, or the first error with the batch's prefix.
pub open spec fn batch_outcome<T: Definition>(
    items: Seq<T>,
    depths: Seq<u8>,
    before: Seq<Seq<char>>,
    after: Seq<Seq<char>>,
    r: Result<String, String>,
) -> bool {
    &&& after == before + compose(items, depths).0
    &&& (r.is_ok() <==> compose(items, depths).1 is None)
    &&& (r matches Ok(s) ==> s@ == sequence_text(after))
    &&& (r matches Err(m) ==> m@ == batch_error(compose(items, depths).1->Some_0))
}

/// What composing `items` into one statement sequence gives, under the
/// parser nesting limits `depths`: the whole sequence, or the first error
/// with the batch's prefix.
pub open spec fn sequence_outcome<T: Definition>(
    items: Seq<T>,
    depths: Seq<u8>,
    r: Result<String, String>,
) -> bool {
    &&& (r.is_ok() <==> compose(items, depths).1 is None)
    &&& (r matches Ok(s) ==> s@ == sequence_text(compose(items, depths).0))
    &&& (r matches Err(m) ==> m@ == batch_error(compose(items, depths).1->Some_0))
}

/// Composing looks only at the limits of the items it builds.
proof fn lemma_compose_depths<T: Definition>(items: Seq<T>, a: Seq<u8>, b: Seq<u8>)
    requires
        forall|j: int| 0 <= j < items.len() ==> a[j] == b[j],
    ensures
        compose(items, a) == compose(items, b),
    decreases items.len(),
{
    if items.len() > 0 {
        lemma_compose_depths(items.drop_last(), a, b);
    }
}

/// When building a prefix of `items` has failed, building all of them fails
/// the same way.
proof fn lemma_compose_stops<T: Definition>(items: Seq<T>, depths: Seq<u8>, k: int)
    requires
        0 <= k <= items.len(),
        compose(items.take(k), depths).1 is Some,
    ensures
        compose(items, depths) == compose(items.take(k), depths),
    decreases items.len() - k,
{
    if k == items.len() {
        assert(items.take(k) =~= items);
    } else {
        assert(items.take(k + 1).drop_last() =~= items.take(k));
        lemma_compose_stops(items, depths, k + 1);
    }
}

impl<T: Definition> Query<T> {
    /// Builds the items in order, keeping each statement, and stops at the
    /// first failure; on success gives the whole statement sequence.
    pub fn build(&mut self) -> (r: Result<String, String>)
        ensures
            final(self).items@ == old(self).items@,
            exists|depths: Seq<u8>|
                #[trigger] batch_outcome(
                    old(self).items@,
                    depths,
                    texts(old(self).stmts@),
                    texts(final(self).stmts@),
                    r,
                ),
    {
        let ghost items = self.items@;
        let ghost before = texts(self.stmts@);
        let ghost mut depths: Seq<u8> = Seq::new(items.len(), |j: int| 0u8);
        let mut i: usize = 0;
        proof {
            assert(items.take(0) =~= seq![]);
            assert(texts(self.stmts@) =~= before + seq![]);
        }
        while i < self.items.len()
            invariant
                i <= items.len(),
                items == old(self).items@,
                before == texts(old(self).stmts@),
                self.items@ == items,
                depths.len() == items.len(),
                compose(items.take(i as int), depths).1 is None,
                texts(self.stmts@) == before + compose(items.take(i as int), depths).0,
            decreases items.len() - i,
        {
            let built = self.items[i].define();
            let ghost d = choose|d: u8| result_view(built) == #[trigger] items[i as int].result(d);
            proof {
                let next = depths.update(i as int, d);
                lemma_compose_depths(items.take(i as int), depths, next);
                depths = next;
                assert(items.take(i + 1).drop_last() =~= items.take(i as int));
                assert(items.take(i + 1).last() == items[i as int]);
                assert(items.take(i + 1).len() == i + 1);
            }
            let ghost old_stmts = self.stmts@;
            match self.get_statement(built) {
                Ok(()) => {},
                Err(e) => {
                    proof {
                        lemma_compose_stops(items, depths, i + 1);
                        assert(batch_outcome(items, depths, before, texts(self.stmts@), Err(e)));
                    }
                    return Err(e);
                },
            }
            proof {
                assert(texts(self.stmts@) =~= texts(old_stmts).push(self.stmts@.last()@));
                assert(texts(self.stmts@) =~= before + compose(items.take(i + 1), depths).0);
            }
            i = i + 1;
        }
        proof {
            assert(items.take(i as int) =~= items);
        }
        let r = Ok(self.to_string());
        proof {
            assert(batch_outcome(items, depths, before, texts(self.stmts@), r));
        }
        r
    }
}

} // verus!
