//! Why the operations on a table keep it consistent.

use vstd::prelude::*;
use crate::ownership::model::{
    Node, alive, all_alive, balanced, cascaded, children_first, destroy_of, destroyed_before,
    destroys, died, occurrences, ready_to_settle, retain_each, retainers, same_records, settle,
    unretain, unretain_each, well_linked, with_retained,
};
use crate::ownership::{Destroy, ObjectId};

verus! {

/// Counting occurrences distributes over concatenation.
pub(crate) proof fn lemma_occurrences_add(a: Seq<ObjectId>, b: Seq<ObjectId>, p: int)
    ensures
        occurrences(a + b, p) == occurrences(a, p) + occurrences(b, p),
    decreases b.len(),
{
    if b.len() == 0 {
        assert(a + b =~= a);
    } else {
        assert((a + b).drop_last() =~= a + b.drop_last());
        lemma_occurrences_add(a, b.drop_last(), p);
    }
}

/// A list of one identifier holds that identifier once and no other.
pub(crate) proof fn lemma_occurrences_one(id: ObjectId, p: int)
    ensures
        occurrences(seq![id], p) == if id@ == p {
            1nat
        } else {
            0nat
        },
{
    assert(seq![id].drop_last() =~= Seq::<ObjectId>::empty());
    assert(occurrences(seq![id].drop_last(), p) == 0);
    assert(seq![id].last() == id);
}

/// An identifier occurs in a list exactly when the list holds it somewhere.
pub(crate) proof fn lemma_occurrences_positive(ids: Seq<ObjectId>, p: int)
    ensures
        occurrences(ids, p) > 0 <==> exists|k: int| 0 <= k < ids.len() && (#[trigger] ids[k])@ == p,
    decreases ids.len(),
{
    if ids.len() > 0 {
        lemma_occurrences_positive(ids.drop_last(), p);
        if occurrences(ids, p) > 0 {
            if ids.last()@ == p {
                assert(ids[ids.len() - 1]@ == p);
            } else {
                let k = choose|k: int| 0 <= k < ids.drop_last().len() && (#[trigger] ids.drop_last()[k])@ == p;
                assert(ids[k]@ == p);
            }
        }
        if exists|k: int| 0 <= k < ids.len() && (#[trigger] ids[k])@ == p {
            let k = choose|k: int| 0 <= k < ids.len() && (#[trigger] ids[k])@ == p;
            if k < ids.len() - 1 {
                assert(ids.drop_last()[k]@ == p);
            }
        }
    }
}

/// The count of living retainers does not depend on the counts themselves, only
/// on which records live and on what they retain.
pub(crate) proof fn lemma_retainers_same(m: Seq<Node>, m2: Seq<Node>, p: int, n: int)
    requires
        n <= m.len(),
        n <= m2.len(),
        forall|i: int| 0 <= i < n ==> alive(#[trigger] m[i]) == alive(m2[i])
            && m[i].retains == m2[i].retains,
    ensures
        retainers(m, p, n) == retainers(m2, p, n),
    decreases n,
{
    if n > 0 {
        lemma_retainers_same(m, m2, p, n - 1);
        assert(alive(m[n - 1]) == alive(m2[n - 1]));
    }
}

/// When record `c` dies, each record loses as many living retainers as `c`
/// retained it.
pub(crate) proof fn lemma_retainers_kill(m: Seq<Node>, m2: Seq<Node>, c: int, p: int, n: int)
    requires
        0 <= c < m.len(),
        m.len() == m2.len(),
        n <= m.len(),
        forall|i: int| 0 <= i < n && i != c ==> alive(#[trigger] m[i]) == alive(m2[i])
            && m[i].retains == m2[i].retains,
        alive(m[c]),
        !alive(m2[c]),
    ensures
        retainers(m, p, n) == retainers(m2, p, n) + if c < n {
            occurrences(m[c].retains, p)
        } else {
            0nat
        },
    decreases n,
{
    if n > 0 {
        lemma_retainers_kill(m, m2, c, p, n - 1);
        if n - 1 != c {
            assert(alive(m[n - 1]) == alive(m2[n - 1]));
        }
    }
}

/// A record that no living record retains is retained by none of them.
pub(crate) proof fn lemma_retainers_zero(m: Seq<Node>, p: int, n: int, c: int)
    requires
        retainers(m, p, n) == 0,
        0 <= c < n,
        alive(m[c]),
    ensures
        occurrences(m[c].retains, p) == 0,
    decreases n,
{
    if n - 1 != c {
        lemma_retainers_zero(m, p, n - 1, c);
    }
}

/// A concatenation destroys what either part destroys.
pub(crate) proof fn lemma_destroys_add(a: Seq<Destroy>, b: Seq<Destroy>, i: int)
    ensures
        destroys(a + b, i) <==> destroys(a, i) || destroys(b, i),
{
    if destroys(a, i) {
        let j = choose|j: int| 0 <= j < a.len() && (#[trigger] a[j]).object@ == i;
        assert((a + b)[j].object@ == i);
    }
    if destroys(b, i) {
        let j = choose|j: int| 0 <= j < b.len() && (#[trigger] b[j]).object@ == i;
        assert((a + b)[a.len() + j].object@ == i);
    }
    if destroys(a + b, i) {
        let j = choose|j: int| 0 <= j < (a + b).len() && (#[trigger] (a + b)[j]).object@ == i;
        if j < a.len() {
            assert(a[j].object@ == i);
        } else {
            assert(b[j - a.len()].object@ == i);
        }
    }
}

/// The shape of what [`settle`] returns.
pub(crate) proof fn lemma_settle_cascades(m: Seq<Node>, p: int)
    requires
        0 <= p < m.len() <= usize::MAX,
    ensures
        cascaded(m, settle(m, p).0, settle(m, p).1, p + 1),
        forall|i: int|
            0 <= i < m.len() ==> (destroys(settle(m, p).1, i) <==> died(m, settle(m, p).0, i) || (i
                == p && !alive(m[p]))),
        !alive(m[p]) ==> settle(m, p).1.len() > 0 && settle(m, p).1[0] == destroy_of(m, p),
        alive(m[p]) ==> settle(m, p) == (m, Seq::<Destroy>::empty()),
    decreases p, m[p].retains.len() + 2,
{
    let (m2, actions) = settle(m, p);
    if !alive(m[p]) {
        let (each_m, each) = unretain_each(m, m[p].retains, p);
        lemma_unretain_each_cascades(m, m[p].retains, p);
        let head = seq![destroy_of(m, p)];
        assert(actions == head + each);
        assert(m2 == each_m);
        assert(m2[p] == m[p]);
        assert(actions[0] == destroy_of(m, p));
        assert forall|j: int| 0 <= j < actions.len() implies 0 <= (#[trigger] actions[j]).object@ < p + 1
            && actions[j] == destroy_of(m, actions[j].object@) && !alive(m2[actions[j].object@]) by {
            if j > 0 {
                assert(actions[j] == each[j - 1]);
            }
        }
        assert forall|j1: int, j2: int| 0 <= j1 < j2 < actions.len() implies (
        #[trigger] actions[j1]).object@ != (#[trigger] actions[j2]).object@ by {
            assert(actions[j2] == each[j2 - 1]);
            if j1 > 0 {
                assert(actions[j1] == each[j1 - 1]);
            }
        }
        assert forall|i: int| 0 <= i < m.len() implies (destroys(actions, i) <==> died(m, m2, i) || (i
            == p && !alive(m[p]))) by {
            lemma_destroys_add(head, each, i);
            if i == p {
                assert(head[0].object@ == p);
            }
            if destroys(head, i) {
                let j = choose|j: int| 0 <= j < head.len() && (#[trigger] head[j]).object@ == i;
                assert(i == p);
            }
        }
    } else {
        assert(!destroys(actions, p));
        assert forall|i: int| 0 <= i < m.len() implies (destroys(actions, i) <==> died(m, m2, i) || (i
            == p && !alive(m[p]))) by {}
    }
}

/// The shape of what [`unretain`] returns.
pub(crate) proof fn lemma_unretain_cascades(m: Seq<Node>, p: int)
    requires
        0 <= p < m.len() <= usize::MAX,
    ensures
        cascaded(m, unretain(m, p).0, unretain(m, p).1, p + 1),
        forall|i: int| 0 <= i < m.len() ==> (destroys(unretain(m, p).1, i) <==> died(m, unretain(m, p).0, i)),
    decreases p + 1, 0nat,
{
    let (m2, actions) = unretain(m, p);
    if m[p].retained > 0 {
        let m1 = with_retained(m, p, (m[p].retained - 1) as nat);
        lemma_settle_cascades(m1, p);
        assert forall|j: int| 0 <= j < actions.len() implies 0 <= (#[trigger] actions[j]).object@ < p + 1
            && actions[j] == destroy_of(m, actions[j].object@) && !alive(m2[actions[j].object@]) by {
            assert(actions[j] == destroy_of(m1, actions[j].object@));
        }
        assert forall|i: int| 0 <= i < m.len() implies (destroys(actions, i) <==> died(m, m2, i)) by {
            assert(destroys(actions, i) <==> died(m1, m2, i) || (i == p && !alive(m1[p])));
            if i == p && !alive(m1[p]) {
                assert(actions[0].object@ == p);
                assert(!alive(m2[actions[0].object@]));
            }
        }
        assert(cascaded(m, m2, actions, p + 1));
    } else {
        assert forall|i: int| 0 <= i < m.len() implies (destroys(actions, i) <==> died(m, m2, i)) by {}
    }
}

/// The shape of what [`unretain_each`] returns.
pub(crate) proof fn lemma_unretain_each_cascades(m: Seq<Node>, ids: Seq<ObjectId>, bound: int)
    requires
        0 <= bound <= m.len() <= usize::MAX,
    ensures
        cascaded(m, unretain_each(m, ids, bound).0, unretain_each(m, ids, bound).1, bound),
        forall|i: int|
            0 <= i < m.len() ==> (destroys(unretain_each(m, ids, bound).1, i) <==> died(
                m,
                unretain_each(m, ids, bound).0,
                i,
            )),
    decreases bound, ids.len() + 1,
{
    let (m2, actions) = unretain_each(m, ids, bound);
    if ids.len() == 0 {
        assert forall|i: int| 0 <= i < m.len() implies (destroys(actions, i) <==> died(m, m2, i)) by {}
    } else {
        let (before, first) = unretain_each(m, ids.drop_last(), bound);
        lemma_unretain_each_cascades(m, ids.drop_last(), bound);
        let x = ids.last()@;
        if 0 <= x < bound {
            let (after, last) = unretain(before, x);
            lemma_unretain_cascades(before, x);
            assert(m2 == after);
            assert(actions == first + last);
            assert forall|j: int| 0 <= j < actions.len() implies 0 <= (#[trigger] actions[j]).object@ < bound
                && actions[j] == destroy_of(m, actions[j].object@) && !alive(m2[actions[j].object@]) by {
                if j < first.len() {
                    assert(actions[j] == first[j]);
                } else {
                    assert(actions[j] == last[j - first.len()]);
                    assert(last[j - first.len()] == destroy_of(before, actions[j].object@));
                }
            }
            assert forall|i: int| 0 <= i < m.len() implies (destroys(actions, i) <==> died(m, m2, i)) by {
                lemma_destroys_add(first, last, i);
                assert(destroys(first, i) <==> died(m, before, i));
                assert(destroys(last, i) <==> died(before, after, i));
            }
            assert forall|j1: int, j2: int| 0 <= j1 < j2 < actions.len() implies (
            #[trigger] actions[j1]).object@ != (#[trigger] actions[j2]).object@ by {
                if j2 < first.len() {
                    assert(actions[j1] == first[j1] && actions[j2] == first[j2]);
                } else if j1 >= first.len() {
                    assert(actions[j1] == last[j1 - first.len()] && actions[j2] == last[j2
                        - first.len()]);
                } else {
                    let a = first[j1];
                    let b = last[j2 - first.len()];
                    assert(actions[j1] == a && actions[j2] == b);
                    assert(!alive(before[a.object@]));
                    assert(destroys(last, b.object@));
                    assert(died(before, after, b.object@));
                }
            }
            assert(cascaded(m, m2, actions, bound));
        }
    }
}

/// Links depend on the records alone, not on their counts.
pub(crate) proof fn lemma_well_linked_same(m: Seq<Node>, m2: Seq<Node>)
    requires
        well_linked(m),
        same_records(m, m2),
    ensures
        well_linked(m2),
{
    assert forall|i: int, k: int| 0 <= i < m2.len() && 0 <= k < m2[i].retains.len() implies 0 <= (
    #[trigger] m2[i].retains[k])@ < i by {
        assert(m2[i].retains == m[i].retains);
        assert(0 <= m[i].retains[k]@ < i);
    }
}

/// A record does not occur among ids that are all older than it.
pub(crate) proof fn lemma_occurrences_older(ids: Seq<ObjectId>, p: int)
    requires
        forall|k: int| 0 <= k < ids.len() ==> (#[trigger] ids[k])@ < p,
    ensures
        occurrences(ids, p) == 0,
    decreases ids.len(),
{
    if ids.len() > 0 {
        assert(ids[ids.len() - 1]@ < p);
        assert forall|k: int| 0 <= k < ids.drop_last().len() implies (#[trigger] ids.drop_last()[k])@ < p by {
            assert(ids[k]@ < p);
        }
        lemma_occurrences_older(ids.drop_last(), p);
    }
}

/// Taking a counted reference away from a record of a balanced table leaves
/// the table ready to settle that record.
pub(crate) proof fn lemma_lose_reference(
    m: Seq<Node>,
    m1: Seq<Node>,
    p: int,
    pending: Seq<ObjectId>,
    rest: Seq<ObjectId>,
)
    requires
        0 <= p < m.len(),
        well_linked(m),
        balanced(m, pending),
        alive(m[p]),
        same_records(m, m1),
        forall|i: int| 0 <= i < m.len() && i != p ==> #[trigger] m1[i] == m[i],
        m1[p].handles <= m[p].handles,
        m1[p].retained + occurrences(pending, p) == m[p].retained + occurrences(rest, p),
        forall|q: int| 0 <= q < m.len() && q != p ==> occurrences(pending, q) == occurrences(rest, q),
    ensures
        well_linked(m1),
        ready_to_settle(m1, p, rest),
{
    lemma_well_linked_same(m, m1);
    let n = m.len() as int;
    if alive(m1[p]) {
        assert forall|q: int| 0 <= q < m1.len() implies (#[trigger] m1[q]).retained == retainers(m1, q, n)
            + occurrences(rest, q) by {
            lemma_retainers_same(m, m1, q, n);
            assert(m[q].retained == retainers(m, q, n) + occurrences(pending, q));
        }
    } else {
        let kept = m1[p].retains;
        assert(kept == m[p].retains);
        assert forall|q: int| 0 <= q < m1.len() implies (#[trigger] m1[q]).retained == retainers(m1, q, n)
            + occurrences(kept + rest, q) by {
            lemma_retainers_kill(m, m1, p, q, n);
            lemma_occurrences_add(kept, rest, q);
            assert(m[q].retained == retainers(m, q, n) + occurrences(pending, q));
            if q == p {
                assert forall|k: int| 0 <= k < kept.len() implies (#[trigger] kept[k])@ < p by {
                    assert(0 <= m[p].retains[k]@ < p);
                }
                lemma_occurrences_older(kept, p);
            }
        }
    }
}

/// [`settle`] restores the balance.
pub(crate) proof fn lemma_settle_balanced(m: Seq<Node>, p: int, rest: Seq<ObjectId>)
    requires
        0 <= p < m.len() <= usize::MAX,
        well_linked(m),
        ready_to_settle(m, p, rest),
    ensures
        balanced(settle(m, p).0, rest),
    decreases p, m[p].retains.len() + 2,
{
    if !alive(m[p]) {
        assert forall|k: int| 0 <= k < m[p].retains.len() implies 0 <= (#[trigger] m[p].retains[k])@ < p by {}
        lemma_unretain_each_balanced(m, m[p].retains, p, rest);
    }
}

/// [`unretain`] uses up the pending reference it is given.
pub(crate) proof fn lemma_unretain_balanced(m: Seq<Node>, id: ObjectId, rest: Seq<ObjectId>)
    requires
        id@ < m.len() <= usize::MAX,
        well_linked(m),
        balanced(m, seq![id] + rest),
    ensures
        m[id@].retained > 0,
        balanced(unretain(m, id@).0, rest),
    decreases id@ + 1, 0nat,
{
    let p = id@;
    let pending = seq![id] + rest;
    assert forall|q: int| 0 <= q < m.len() implies occurrences(pending, q) == occurrences(rest, q) + if q
        == p {
        1nat
    } else {
        0nat
    } by {
        lemma_occurrences_add(seq![id], rest, q);
        lemma_occurrences_one(id, q);
    }
    assert(m[p].retained == retainers(m, p, m.len() as int) + occurrences(pending, p));
    let m1 = with_retained(m, p, (m[p].retained - 1) as nat);
    lemma_lose_reference(m, m1, p, pending, rest);
    lemma_settle_balanced(m1, p, rest);
}

/// [`unretain_each`] uses up the pending references it is given.
pub(crate) proof fn lemma_unretain_each_balanced(
    m: Seq<Node>,
    ids: Seq<ObjectId>,
    bound: int,
    rest: Seq<ObjectId>,
)
    requires
        0 <= bound <= m.len() <= usize::MAX,
        well_linked(m),
        balanced(m, ids + rest),
        forall|k: int| 0 <= k < ids.len() ==> 0 <= (#[trigger] ids[k])@ < bound,
    ensures
        balanced(unretain_each(m, ids, bound).0, rest),
    decreases bound, ids.len() + 1,
{
    if ids.len() == 0 {
        assert(ids + rest =~= rest);
    } else {
        let id = ids.last();
        let (before, first) = unretain_each(m, ids.drop_last(), bound);
        assert(ids + rest =~= ids.drop_last() + (seq![id] + rest));
        assert forall|k: int| 0 <= k < ids.drop_last().len() implies 0 <= (
        #[trigger] ids.drop_last()[k])@ < bound by {
            assert(0 <= ids[k]@ < bound);
        }
        lemma_unretain_each_balanced(m, ids.drop_last(), bound, seq![id] + rest);
        lemma_unretain_each_cascades(m, ids.drop_last(), bound);
        lemma_well_linked_same(m, before);
        assert(0 <= ids[ids.len() - 1]@ < bound);
        lemma_unretain_balanced(before, id, rest);
    }
}

/// [`settle`] destroys children before their parents.
pub(crate) proof fn lemma_settle_children_first(m: Seq<Node>, p: int, rest: Seq<ObjectId>)
    requires
        0 <= p < m.len() <= usize::MAX,
        well_linked(m),
        ready_to_settle(m, p, rest),
    ensures
        children_first(m, settle(m, p).1, p),
    decreases p, m[p].retains.len() + 2,
{
    let actions = settle(m, p).1;
    if !alive(m[p]) {
        let kept = m[p].retains;
        let each = unretain_each(m, kept, p).1;
        assert forall|k: int| 0 <= k < kept.len() implies 0 <= (#[trigger] kept[k])@ < p by {
            assert(0 <= m[p].retains[k]@ < p);
        }
        lemma_unretain_each_children_first(m, kept, p, rest);
        lemma_occurrences_older(kept, p);
        assert(actions == seq![destroy_of(m, p)] + each);
        assert forall|c: int, j: int|
            0 <= c < m.len() && (alive(#[trigger] m[c]) || c == p) && 0 <= j < actions.len()
                && occurrences(m[c].retains, (#[trigger] actions[j]).object@)
                > 0 implies destroyed_before(actions, c, j) by {
            if j == 0 {
                assert(actions[0].object@ == p);
                if c != p {
                    assert(m[p].retained == retainers(m, p, m.len() as int) + occurrences(
                        kept + rest,
                        p,
                    ));
                    lemma_retainers_zero(m, p, m.len() as int, c);
                }
            } else {
                assert(actions[j] == each[j - 1]);
                if c == p {
                    assert(actions[0].object@ == p);
                } else {
                    assert(destroyed_before(each, c, j - 1));
                    let i = choose|i: int| 0 <= i < j - 1 && i < each.len() && (#[trigger] each[i]).object@ == c;
                    assert(actions[i + 1] == each[i]);
                }
            }
        }
    }
}

/// [`unretain`] destroys children before their parents.
pub(crate) proof fn lemma_unretain_children_first(m: Seq<Node>, id: ObjectId, rest: Seq<ObjectId>)
    requires
        id@ < m.len() <= usize::MAX,
        well_linked(m),
        balanced(m, seq![id] + rest),
    ensures
        children_first(m, unretain(m, id@).1, id@),
    decreases id@ + 1, 0nat,
{
    let p = id@;
    let pending = seq![id] + rest;
    assert forall|q: int| 0 <= q < m.len() implies occurrences(pending, q) == occurrences(rest, q) + if q
        == p {
        1nat
    } else {
        0nat
    } by {
        lemma_occurrences_add(seq![id], rest, q);
        lemma_occurrences_one(id, q);
    }
    assert(m[p].retained == retainers(m, p, m.len() as int) + occurrences(pending, p));
    let m1 = with_retained(m, p, (m[p].retained - 1) as nat);
    lemma_lose_reference(m, m1, p, pending, rest);
    lemma_settle_children_first(m1, p, rest);
    let actions = unretain(m, p).1;
    assert forall|c: int, j: int|
        0 <= c < m.len() && (alive(#[trigger] m[c]) || c == p) && 0 <= j < actions.len()
            && occurrences(m[c].retains, (#[trigger] actions[j]).object@) > 0 implies destroyed_before(
        actions,
        c,
        j,
    ) by {
        assert(alive(m1[c]) || c == p);
        assert(m1[c].retains == m[c].retains);
    }
}

/// [`unretain_each`] destroys children before their parents.
pub(crate) proof fn lemma_unretain_each_children_first(
    m: Seq<Node>,
    ids: Seq<ObjectId>,
    bound: int,
    rest: Seq<ObjectId>,
)
    requires
        0 <= bound <= m.len() <= usize::MAX,
        well_linked(m),
        balanced(m, ids + rest),
        forall|k: int| 0 <= k < ids.len() ==> 0 <= (#[trigger] ids[k])@ < bound,
    ensures
        children_first(m, unretain_each(m, ids, bound).1, -1),
    decreases bound, ids.len() + 1,
{
    let actions = unretain_each(m, ids, bound).1;
    if ids.len() > 0 {
        let id = ids.last();
        let (before, first) = unretain_each(m, ids.drop_last(), bound);
        let last = unretain(before, id@).1;
        assert(ids + rest =~= ids.drop_last() + (seq![id] + rest));
        assert forall|k: int| 0 <= k < ids.drop_last().len() implies 0 <= (
        #[trigger] ids.drop_last()[k])@ < bound by {
            assert(0 <= ids[k]@ < bound);
        }
        lemma_unretain_each_children_first(m, ids.drop_last(), bound, seq![id] + rest);
        lemma_unretain_each_balanced(m, ids.drop_last(), bound, seq![id] + rest);
        lemma_unretain_each_cascades(m, ids.drop_last(), bound);
        lemma_well_linked_same(m, before);
        assert(0 <= ids[ids.len() - 1]@ < bound);
        lemma_unretain_children_first(before, id, rest);
        assert(actions == first + last);
        assert forall|c: int, j: int|
            0 <= c < m.len() && (alive(#[trigger] m[c]) || c == -1) && 0 <= j < actions.len()
                && occurrences(m[c].retains, (#[trigger] actions[j]).object@)
                > 0 implies destroyed_before(actions, c, j) by {
            if j < first.len() {
                assert(actions[j] == first[j]);
                assert(destroyed_before(first, c, j));
                let i = choose|i: int| 0 <= i < j && i < first.len() && (#[trigger] first[i]).object@ == c;
                assert(actions[i] == first[i]);
            } else {
                assert(actions[j] == last[j - first.len()]);
                assert(before[c].retains == m[c].retains);
                if alive(before[c]) {
                    assert(destroyed_before(last, c, j - first.len()));
                    let i = choose|i: int|
                        0 <= i < j - first.len() && i < last.len() && (#[trigger] last[i]).object@ == c;
                    assert(actions[first.len() + i] == last[i]);
                } else {
                    assert(died(m, before, c));
                    assert(destroys(first, c));
                    let i = choose|i: int| 0 <= i < first.len() && (#[trigger] first[i]).object@ == c;
                    assert(actions[i] == first[i]);
                }
            }
        }
    }
}

/// An identifier occurs in a list no more often than the list is long.
pub(crate) proof fn lemma_occurrences_bounded(ids: Seq<ObjectId>, p: int)
    ensures
        occurrences(ids, p) <= ids.len(),
    decreases ids.len(),
{
    if ids.len() > 0 {
        lemma_occurrences_bounded(ids.drop_last(), p);
    }
}

/// No record is retained by records that are not younger than it.
pub(crate) proof fn lemma_retainers_older(m: Seq<Node>, p: int, n: int)
    requires
        well_linked(m),
        0 <= n <= m.len(),
        n <= p + 1,
    ensures
        retainers(m, p, n) == 0,
    decreases n,
{
    if n > 0 {
        lemma_retainers_older(m, p, n - 1);
        let kept = m[n - 1].retains;
        assert forall|k: int| 0 <= k < kept.len() implies (#[trigger] kept[k])@ < p by {
            assert(0 <= m[n - 1].retains[k]@ < n - 1);
        }
        lemma_occurrences_older(kept, p);
    }
}

/// What [`retain_each`] does to the counts, and that it turns a balanced table
/// into one that is balanced but for the references it has counted.
pub(crate) proof fn lemma_retain_each(m: Seq<Node>, ids: Seq<ObjectId>, rest: Seq<ObjectId>)
    requires
        well_linked(m),
        balanced(m, rest),
        all_alive(m, ids),
    ensures
        same_records(m, retain_each(m, ids)),
        well_linked(retain_each(m, ids)),
        balanced(retain_each(m, ids), rest + ids),
        forall|i: int|
            0 <= i < m.len() ==> (#[trigger] retain_each(m, ids)[i]).handles == m[i].handles
                && retain_each(m, ids)[i].retained == m[i].retained + occurrences(ids, i),
    decreases ids.len(),
{
    let m2 = retain_each(m, ids);
    if ids.len() == 0 {
        assert(rest + ids =~= rest);
    } else {
        let before = retain_each(m, ids.drop_last());
        let p = ids.last()@;
        assert forall|k: int| 0 <= k < ids.drop_last().len() implies (#[trigger] ids.drop_last()[k])@
            < m.len() && alive(m[ids.drop_last()[k]@]) by {
            assert(ids[k]@ < m.len() && alive(m[ids[k]@]));
        }
        lemma_retain_each(m, ids.drop_last(), rest);
        assert(ids[ids.len() - 1]@ < m.len() && alive(m[ids[ids.len() - 1]@]));
        assert(m2 == with_retained(before, p, before[p].retained + 1));
        lemma_well_linked_same(m, m2);
        let n = m.len() as int;
        assert(rest + ids =~= (rest + ids.drop_last()).push(ids.last()));
        assert forall|q: int| 0 <= q < m2.len() implies (#[trigger] m2[q]).retained == retainers(m2, q, n)
            + occurrences(rest + ids, q) by {
            lemma_retainers_same(before, m2, q, n);
            assert(before[q].retained == retainers(before, q, n) + occurrences(
                rest + ids.drop_last(),
                q,
            ));
            assert((rest + ids).drop_last() =~= rest + ids.drop_last());
        }
    }
}

/// Appending a living record that accounts for some of the pending references
/// keeps the table balanced.
pub(crate) proof fn lemma_push_balanced(
    m: Seq<Node>,
    node: Node,
    before: Seq<ObjectId>,
    after: Seq<ObjectId>,
)
    requires
        well_linked(m),
        balanced(m, before),
        alive(node),
        forall|k: int| 0 <= k < node.retains.len() ==> 0 <= (#[trigger] node.retains[k])@ < m.len(),
        forall|q: int|
            0 <= q < m.len() ==> occurrences(before, q) == occurrences(node.retains, q)
                + occurrences(after, q),
        node.retained == occurrences(after, m.len() as int),
    ensures
        well_linked(m.push(node)),
        balanced(m.push(node), after),
{
    let m2 = m.push(node);
    let n = m.len() as int;
    assert forall|i: int, k: int| 0 <= i < m2.len() && 0 <= k < m2[i].retains.len() implies 0 <= (
    #[trigger] m2[i].retains[k])@ < i by {
        if i < n {
            assert(0 <= m[i].retains[k]@ < i);
        } else {
            assert(0 <= node.retains[k]@ < n);
        }
    }
    assert forall|q: int| 0 <= q < m2.len() implies (#[trigger] m2[q]).retained == retainers(
        m2,
        q,
        m2.len() as int,
    ) + occurrences(after, q) by {
        lemma_retainers_same(m, m2, q, n);
        if q < n {
            assert(m[q].retained == retainers(m, q, n) + occurrences(before, q));
        } else {
            lemma_retainers_older(m2, q, n);
            lemma_occurrences_older(node.retains, q);
        }
    }
}

/// A living record adds what it retains to the count of living retainers.
pub(crate) proof fn lemma_retainers_include(m: Seq<Node>, p: int, n: int, c: int)
    requires
        0 <= c < n,
        alive(m[c]),
    ensures
        retainers(m, p, n) >= occurrences(m[c].retains, p),
    decreases n,
{
    if n - 1 != c {
        lemma_retainers_include(m, p, n - 1, c);
    }
}

/// When a record dies and no dead record revives, each record is left with
/// at most the living retainers it had, less those the dead record was.
pub(crate) proof fn lemma_retainers_shrink(m: Seq<Node>, m2: Seq<Node>, c: int, p: int, n: int)
    requires
        0 <= c < m.len(),
        m.len() == m2.len(),
        n <= m.len(),
        forall|i: int| 0 <= i < n ==> (alive(#[trigger] m2[i]) ==> alive(m[i]))
            && m[i].retains == m2[i].retains,
        alive(m[c]),
        !alive(m2[c]),
    ensures
        retainers(m2, p, n) + if c < n {
            occurrences(m[c].retains, p)
        } else {
            0nat
        } <= retainers(m, p, n),
    decreases n,
{
    if n > 0 {
        lemma_retainers_shrink(m, m2, c, p, n - 1);
        assert(alive(m2[n - 1]) ==> alive(m[n - 1]));
    }
}

} // verus!
