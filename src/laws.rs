//! Laws of the builders and of the composer.
use vstd::prelude::*;
use crate::present;
use crate::query::{compose, joined, sequence_text, Definition};
use crate::surreal::{change_feed_of, table_text, table_type_of};
use crate::table::{table_result, table_statement, Table, TableKind};

verus! {

/// Composing three definitions that all build gives their statements in
/// the order given, each followed by `;`. `depths` are the parser nesting
/// limits that surrealdb writes each statement under.
pub proof fn lemma_sequence_keeps_order<T: Definition>(d1: T, d2: T, d3: T, depths: Seq<u8>)
    requires
        depths.len() == 3,
        d1.result(depths[0]) is Ok,
        d2.result(depths[1]) is Ok,
        d3.result(depths[2]) is Ok,
    ensures
        compose(seq![d1, d2, d3], depths) == (
            seq![
                d1.result(depths[0])->Ok_0,
                d2.result(depths[1])->Ok_0,
                d3.result(depths[2])->Ok_0,
            ],
            None::<Seq<char>>,
        ),
        sequence_text(compose(seq![d1, d2, d3], depths).0) == d1.result(depths[0])->Ok_0
            + seq![';'] + d2.result(depths[1])->Ok_0 + seq![';'] + d3.result(depths[2])->Ok_0
            + seq![';'],
{
    let items = seq![d1, d2, d3];
    let (t1, t2, t3) = (
        d1.result(depths[0])->Ok_0,
        d2.result(depths[1])->Ok_0,
        d3.result(depths[2])->Ok_0,
    );
    assert(seq![d1].drop_last() =~= Seq::<T>::empty());
    assert(seq![d1, d2].drop_last() =~= seq![d1]);
    assert(items.drop_last() =~= seq![d1, d2]);
    assert(compose(Seq::<T>::empty(), depths) == (Seq::<Seq<char>>::empty(), None::<Seq<char>>));
    assert(compose(seq![d1], depths).0 =~= seq![t1]);
    assert(compose(seq![d1, d2], depths).0 =~= seq![t1, t2]);
    assert(compose(items, depths).0 =~= seq![t1, t2, t3]);
    let texts = seq![t1, t2, t3];
    assert(texts.drop_last() =~= seq![t1, t2]);
    assert(texts.drop_last().drop_last() =~= seq![t1]);
    assert(seq![t1, t2].drop_last() =~= seq![t1]);
    assert(seq![t1, t2].last() == t2);
    assert(joined(seq![t1]) == t1);
    assert(joined(seq![t1, t2]) =~= t1 + seq![';'] + t2);
    assert(sequence_text(texts) =~= t1 + seq![';'] + t2 + seq![';'] + t3 + seq![';']);
}

/// Composing a definition that builds, one that fails and a third stops at
/// the second: its error is the batch's, and the third is never built,
/// whatever parser nesting limits the statements are written under.
pub proof fn lemma_first_failure_stops<T: Definition>(d1: T, d2: T, d3: T, depths: Seq<u8>)
    requires
        depths.len() == 3,
        d1.result(depths[0]) is Ok,
        d2.result(depths[1]) is Err,
    ensures
        compose(seq![d1, d2, d3], depths) == (
            seq![d1.result(depths[0])->Ok_0],
            Some(d2.result(depths[1])->Err_0),
        ),
{
    let items = seq![d1, d2, d3];
    assert(seq![d1].drop_last() =~= Seq::<T>::empty());
    assert(seq![d1, d2].drop_last() =~= seq![d1]);
    assert(items.drop_last() =~= seq![d1, d2]);
    assert(compose(Seq::<T>::empty(), depths) == (Seq::<Seq<char>>::empty(), None::<Seq<char>>));
    assert(compose(seq![d1], depths).0 =~= seq![d1.result(depths[0])->Ok_0]);
    assert(seq![d1, d2].last() == d2);
    assert(compose(seq![d1, d2], depths) == (
        seq![d1.result(depths[0])->Ok_0],
        Some(d2.result(depths[1])->Err_0),
    ));
}

/// Composing no definitions succeeds with `;` alone.
pub proof fn lemma_empty_sequence<T: Definition>(items: Seq<T>, depths: Seq<u8>)
    requires
        items.len() == 0,
    ensures
        compose(items, depths) == (Seq::<Seq<char>>::empty(), None::<Seq<char>>),
        sequence_text(compose(items, depths).0) == seq![';'],
{
    assert(seq![] + seq![';'] =~= seq![';']);
}

/// Building equal definitions under the same parser nesting limit gives the
/// same outcome, byte for byte. The limit is read from the environment once
/// in a process, so within one process building twice gives the same text.
pub proof fn lemma_build_repeatable<T: Definition>(a: T, b: T, depth: u8)
    requires
        a == b,
    ensures
        a.result(depth) == b.result(depth),
        compose(seq![a], seq![depth]) == compose(seq![b], seq![depth]),
{
}

/// A table's comment clause is there exactly when the comment is not empty,
/// and its change-feed clause exactly when it keeps some seconds of changes.
pub proof fn lemma_table_optional_clauses(t: Table, depth: u8)
    requires
        t.name@.len() > 0,
    ensures
        table_result(t, depth) == Ok::<Seq<char>, Seq<char>>(table_text(table_statement(t), depth)),
        t.comment@.len() == 0 ==> table_statement(t).comment is None,
        t.comment@.len() > 0 ==> table_statement(t).comment == Some(t.comment@),
        t.changefeed == 0 ==> table_statement(t).changefeed is None,
        t.changefeed > 0 ==> table_statement(t).changefeed == Some(
            change_feed_of(t.changefeed, t.include_original),
        ),
{
}

/// A relation names each of its incoming and outgoing tables only when that
/// reference is set; another kind of table ignores both.
pub proof fn lemma_relation_references(t: Table)
    ensures
        t.kind == TableKind::Relation ==> table_statement(t).kind == table_type_of(
            TableKind::Relation,
            present(t.relation_in@),
            present(t.relation_out@),
        ),
        t.kind == TableKind::Relation && t.relation_in@.len() > 0 && t.relation_out@.len() == 0
            ==> table_statement(t).kind == table_type_of(
            TableKind::Relation,
            Some(t.relation_in@),
            None,
        ),
        t.kind == TableKind::Relation && t.relation_in@.len() > 0 && t.relation_out@.len() > 0
            ==> table_statement(t).kind == table_type_of(
            TableKind::Relation,
            Some(t.relation_in@),
            Some(t.relation_out@),
        ),
        t.kind == TableKind::Relation && t.relation_in@.len() == 0 && t.relation_out@.len() == 0
            ==> table_statement(t).kind == table_type_of(TableKind::Relation, None, None),
        t.kind != TableKind::Relation ==> table_statement(t).kind == table_type_of(
            t.kind,
            None,
            None,
        ),
{
}

} // verus!
