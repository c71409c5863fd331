//! What holds of every table of objects, whatever is done with it.

use vstd::prelude::*;
use crate::ownership::lemmas::{
    lemma_occurrences_add, lemma_occurrences_older, lemma_lose_reference, lemma_occurrences_one,
    lemma_occurrences_positive, lemma_push_balanced, lemma_retain_each, lemma_retainers_include,
    lemma_retainers_same, lemma_retainers_shrink, lemma_settle_balanced, lemma_settle_cascades,
    lemma_settle_children_first, lemma_well_linked_same,
};
use crate::ownership::model::{
    adopt_cyclic, Node, adopt, adopt_each, alive, all_alive, all_fit, can_adopt, can_adopt_each,
    consistent, destroy_of, destroyed_before, destroys, died, holds, occurrences, precedes,
    release,
    release_times, retain_each, retainers, same_records, share, share_times, with_handles,
};
use crate::ownership::{Destroy, ObjectId, ObjectKind};

verus! {

/// Giving up a handle keeps a table consistent, destroys exactly the records
/// that die of it, each once, and destroys a record only after every living
/// record that retained it.
pub proof fn law_release(m: Seq<Node>, id: int)
    requires
        consistent(m),
    ensures
        consistent(release(m, id).0),
        same_records(m, release(m, id).0),
        forall|i: int| 0 <= i < m.len() ==> (destroys(release(m, id).1, i) <==> died(m, release(m, id).0, i)),
        forall|i: int| 0 <= i < m.len() && !alive(m[i]) ==> !alive(release(m, id).0[i]),
        forall|j: int|
            0 <= j < release(m, id).1.len() ==> (#[trigger] release(m, id).1[j]) == destroy_of(
                m,
                release(m, id).1[j].object@,
            ) && release(m, id).1[j].object@ < m.len(),
        forall|j1: int, j2: int|
            0 <= j1 < j2 < release(m, id).1.len() ==> (#[trigger] release(m, id).1[j1]).object@ != (
            #[trigger] release(m, id).1[j2]).object@,
        forall|c: int, j: int|
            0 <= c < m.len() && alive(#[trigger] m[c]) && 0 <= j < release(m, id).1.len()
                && occurrences(m[c].retains, (#[trigger] release(m, id).1[j]).object@) > 0
                ==> destroyed_before(release(m, id).1, c, j),
{
    let (m2, actions) = release(m, id);
    if 0 <= id < m.len() && m[id].handles > 0 {
        let none = Seq::<ObjectId>::empty();
        let m1 = with_handles(m, id, (m[id].handles - 1) as nat);
        lemma_lose_reference(m, m1, id, none, none);
        lemma_settle_balanced(m1, id, none);
        lemma_settle_cascades(m1, id);
        lemma_settle_children_first(m1, id, none);
        lemma_well_linked_same(m, m2);
        assert forall|i: int| 0 <= i < m.len() implies (destroys(actions, i) <==> died(m, m2, i)) by {
            assert(destroys(actions, i) <==> died(m1, m2, i) || (i == id && !alive(m1[id])));
            if i == id && !alive(m1[id]) {
                assert(actions[0].object@ == id);
                assert(!alive(m2[actions[0].object@]));
            }
        }
        assert forall|j: int| 0 <= j < actions.len() implies (#[trigger] actions[j]) == destroy_of(
            m,
            actions[j].object@,
        ) && actions[j].object@ < m.len() by {
            assert(actions[j] == destroy_of(m1, actions[j].object@));
        }
        assert forall|c: int, j: int|
            0 <= c < m.len() && alive(#[trigger] m[c]) && 0 <= j < actions.len() && occurrences(
                m[c].retains,
                (#[trigger] actions[j]).object@,
            ) > 0 implies destroyed_before(actions, c, j) by {
            assert(alive(m1[c]) || c == id);
            assert(m1[c].retains == m[c].retains);
        }
    } else {
        assert forall|i: int| 0 <= i < m.len() implies (destroys(actions, i) <==> died(m, m2, i)) by {}
    }
}

/// Handing out a handle keeps a table consistent and destroys nothing.
pub proof fn law_share(m: Seq<Node>, id: int)
    requires
        consistent(m),
        0 <= id < m.len(),
        alive(m[id]),
    ensures
        consistent(share(m, id)),
        same_records(m, share(m, id)),
        forall|i: int| 0 <= i < m.len() ==> alive(#[trigger] share(m, id)[i]) == alive(m[i]),
{
    let m1 = share(m, id);
    let n = m.len() as int;
    let none = Seq::<ObjectId>::empty();
    lemma_well_linked_same(m, m1);
    assert forall|q: int| 0 <= q < m1.len() implies (#[trigger] m1[q]).retained == retainers(m1, q, n)
        + occurrences(none, q) by {
        lemma_retainers_same(m, m1, q, n);
        assert(m[q].retained == retainers(m, q, n) + occurrences(none, q));
    }
}

/// Entering a new object keeps a table consistent, gives the new record one
/// handle and no retainer, and changes nothing of the older records but to
/// count that the new record retains them: none of them dies or revives.
pub proof fn law_adopt(m: Seq<Node>, kind: ObjectKind, native: u64, retains: Seq<ObjectId>)
    requires
        consistent(m),
        can_adopt(m, retains, 1),
    ensures
        consistent(adopt(m, kind, native, retains)),
        adopt(m, kind, native, retains).len() == m.len() + 1,
        adopt(m, kind, native, retains)[m.len() as int] == (Node {
            kind,
            native,
            retains,
            owner: None,
            handles: 1,
            retained: 0,
        }),
        forall|i: int|
            0 <= i < m.len() ==> alive(#[trigger] adopt(m, kind, native, retains)[i]) == alive(m[i])
                && adopt(m, kind, native, retains)[i] == (Node {
                retained: m[i].retained + occurrences(retains, i),
                ..m[i]
            }),
{
    let none = Seq::<ObjectId>::empty();
    let m1 = retain_each(m, retains);
    let node = Node { kind, native, retains, owner: None, handles: 1, retained: 0 };
    lemma_retain_each(m, retains, none);
    assert(none + retains =~= retains);
    assert forall|q: int| 0 <= q < m1.len() implies occurrences(retains, q) == occurrences(
        node.retains,
        q,
    ) + occurrences(none, q) by {}
    lemma_push_balanced(m1, node, retains, none);
    assert forall|i: int| 0 <= i < m.len() implies alive(#[trigger] adopt(m, kind, native, retains)[i])
        == alive(m[i]) && adopt(m, kind, native, retains)[i] == (Node {
        retained: m[i].retained + occurrences(retains, i),
        ..m[i]
    }) by {
        assert(adopt(m, kind, native, retains)[i] == m1[i]);
        assert(m1[i].kind == m[i].kind && m1[i].native == m[i].native && m1[i].retains == m[i].retains
            && m1[i].owner == m[i].owner);
        if occurrences(retains, i) > 0 {
            lemma_occurrences_positive(retains, i);
            let k = choose|k: int| 0 <= k < retains.len() && (#[trigger] retains[k])@ == i;
            assert(alive(m[retains[k]@]));
        }
    }
}

/// Entering an owner with its member keeps a table consistent: the member is
/// retained by the owner alone and held by nobody, the owner has one handle
/// and no retainer, and nothing changes of the older records but that the new
/// owner is counted among their retainers.
pub proof fn law_adopt_cyclic(
    m: Seq<Node>,
    kind: ObjectKind,
    native: u64,
    retains: Seq<ObjectId>,
    member_kind: ObjectKind,
    member_native: u64,
)
    requires
        consistent(m),
        can_adopt(m, retains, 2),
    ensures
        ({
            let after = adopt_cyclic(m, kind, native, retains, member_kind, member_native);
            let member = ObjectId { index: m.len() as usize };
            let owner = ObjectId { index: (m.len() + 1) as usize };
            &&& consistent(after)
            &&& after.len() == m.len() + 2
            &&& after[member@] == (Node {
                kind: member_kind,
                native: member_native,
                retains: Seq::empty(),
                owner: Some(owner),
                handles: 0,
                retained: 1,
            })
            &&& after[owner@] == (Node {
                kind,
                native,
                retains: retains.push(member),
                owner: None,
                handles: 1,
                retained: 0,
            })
            &&& forall|i: int|
                0 <= i < m.len() ==> #[trigger] after[i] == (Node {
                    retained: m[i].retained + occurrences(retains, i),
                    ..m[i]
                })
        }),
{
    let none = Seq::<ObjectId>::empty();
    let member = ObjectId { index: m.len() as usize };
    let owner = ObjectId { index: (m.len() + 1) as usize };
    let first = Node {
        kind: member_kind,
        native: member_native,
        retains: none,
        owner: Some(owner),
        handles: 0,
        retained: 1,
    };
    let second = Node { kind, native, retains: retains.push(member), owner: None, handles: 1, retained: 0 };
    let pending = retains.push(member);
    let m1 = retain_each(m, retains);
    let m2 = m1.push(first);
    let after = adopt_cyclic(m, kind, native, retains, member_kind, member_native);
    assert(after == m2.push(second));
    lemma_retain_each(m, retains, none);
    assert(none + retains =~= retains);
    assert(pending =~= retains + seq![member]);
    assert forall|q: int| 0 <= q <= m1.len() implies occurrences(pending, q) == occurrences(retains, q)
        + if q == member@ {
        1nat
    } else {
        0nat
    } by {
        lemma_occurrences_add(retains, seq![member], q);
        lemma_occurrences_one(member, q);
    }
    assert forall|j: int| 0 <= j < retains.len() implies (#[trigger] retains[j])@ < m.len() by {}
    lemma_occurrences_older(retains, m.len() as int);
    lemma_push_balanced(m1, first, retains, pending);
    assert forall|j: int| 0 <= j < second.retains.len() implies 0 <= (#[trigger] second.retains[j])@
        < m2.len() by {
        if j < retains.len() {
            assert(retains[j]@ < m.len());
        }
    }
    lemma_occurrences_older(pending, m2.len() as int);
    lemma_push_balanced(m2, second, pending, none);
    assert forall|i: int| 0 <= i < m.len() implies #[trigger] after[i] == (Node {
        retained: m[i].retained + occurrences(retains, i),
        ..m[i]
    }) by {
        assert(after[i] == m1[i]);
        assert(m1[i].kind == m[i].kind && m1[i].native == m[i].native && m1[i].retains == m[i].retains
            && m1[i].owner == m[i].owner);
    }
}

/// A handle stays with its table.  Whatever is done with a table, a record
/// that stood for a native object stands for it still; and a record that is
/// entered stands for the object it was entered for.
pub proof fn law_holds_stands(
    m: Seq<Node>,
    id: ObjectId,
    native: u64,
    other: int,
    kind: ObjectKind,
    entering: u64,
    retains: Seq<ObjectId>,
    member_kind: ObjectKind,
    member: u64,
)
    requires
        consistent(m),
        holds(m, id, native),
    ensures
        0 <= other < m.len() ==> holds(share(m, other), id, native),
        holds(release(m, other).0, id, native),
        can_adopt(m, retains, 1) ==> holds(adopt(m, kind, entering, retains), id, native) && holds(
            adopt(m, kind, entering, retains),
            ObjectId { index: m.len() as usize },
            entering,
        ),
        can_adopt(m, retains, 2) ==> ({
            let after = adopt_cyclic(m, kind, entering, retains, member_kind, member);
            &&& holds(after, id, native)
            &&& holds(after, ObjectId { index: m.len() as usize }, member)
            &&& holds(after, ObjectId { index: (m.len() + 1) as usize }, entering)
        }),
{
    law_release(m, other);
    if can_adopt(m, retains, 1) {
        law_adopt(m, kind, entering, retains);
    }
    if can_adopt(m, retains, 2) {
        law_adopt_cyclic(m, kind, entering, retains, member_kind, member);
    }
}

/// What repeated sharing does: it only raises the number of handles.
pub(crate) proof fn lemma_share_times(m: Seq<Node>, id: int, n: nat)
    requires
        consistent(m),
        0 <= id < m.len(),
        alive(m[id]),
    ensures
        share_times(m, id, n) == with_handles(m, id, m[id].handles + n),
        consistent(share_times(m, id, n)),
    decreases n,
{
    if n == 0 {
        assert(with_handles(m, id, m[id].handles) =~= m);
    } else {
        let before = share_times(m, id, (n - 1) as nat);
        lemma_share_times(m, id, (n - 1) as nat);
        law_share(before, id);
        assert(share(before, id) =~= with_handles(m, id, m[id].handles + n));
    }
}

/// While more handles are held on a record than are given up, giving them up
/// destroys nothing.
pub(crate) proof fn lemma_release_times(m: Seq<Node>, id: int, k: nat)
    requires
        consistent(m),
        0 <= id < m.len(),
        k < m[id].handles,
    ensures
        release_times(m, id, k) == (
            with_handles(m, id, (m[id].handles - k) as nat),
            Seq::<Destroy>::empty(),
        ),
        consistent(release_times(m, id, k).0),
    decreases k,
{
    if k == 0 {
        assert(with_handles(m, id, m[id].handles) =~= m);
    } else {
        let (before, first) = release_times(m, id, (k - 1) as nat);
        lemma_release_times(m, id, (k - 1) as nat);
        law_release(before, id);
        let m1 = with_handles(before, id, (before[id].handles - 1) as nat);
        assert(alive(m1[id]));
        assert(m1 =~= with_handles(m, id, (m[id].handles - k) as nat));
        assert(first + Seq::<Destroy>::empty() =~= Seq::<Destroy>::empty());
    }
}

/// Reference-counted destruction.  A record that nothing retains, and on
/// which `h` handles are held, survives the first `h - 1` releases, none of
/// which destroys anything; the last release destroys it, first of all and
/// once; and any release after that does nothing.
pub proof fn law_last_release_destroys_once(m: Seq<Node>, id: int, h: nat)
    requires
        consistent(m),
        0 <= id < m.len(),
        m[id].handles == h,
        h > 0,
        m[id].retained == 0,
    ensures
        forall|k: nat|
            k < h ==> (#[trigger] release_times(m, id, k)).1 == Seq::<Destroy>::empty() && alive(
                release_times(m, id, k).0[id],
            ),
        release_times(m, id, h).1.len() > 0,
        release_times(m, id, h).1[0] == destroy_of(m, id),
        forall|j: int|
            0 < j < release_times(m, id, h).1.len() ==> (#[trigger] release_times(m, id, h).1[j]).object@
                != id,
        !alive(release_times(m, id, h).0[id]),
        consistent(release_times(m, id, h).0),
        release(release_times(m, id, h).0, id) == (release_times(m, id, h).0, Seq::<Destroy>::empty()),
{
    assert forall|k: nat| k < h implies (#[trigger] release_times(m, id, k)).1 == Seq::<Destroy>::empty()
        && alive(release_times(m, id, k).0[id]) by {
        lemma_release_times(m, id, k);
    }
    let (before, first) = release_times(m, id, (h - 1) as nat);
    lemma_release_times(m, id, (h - 1) as nat);
    let (after, last) = release(before, id);
    law_release(before, id);
    let m1 = with_handles(before, id, 0);
    lemma_settle_cascades(m1, id);
    assert(first + last =~= last);
    assert(last[0] == destroy_of(m1, id));
    assert forall|j: int| 0 < j < last.len() implies (#[trigger] last[j]).object@ != id by {
        assert(last[0].object@ != last[j].object@);
    }
    assert(!alive(after[last[0].object@]));
}

/// Reference-counted destruction, from creation on.  An object is entered,
/// its handle is cloned `n` times, and all `n + 1` handles are given up: no
/// release but the last destroys anything, and the last destroys the object,
/// first of all and once.
pub proof fn law_created_cloned_released(
    m: Seq<Node>,
    kind: ObjectKind,
    native: u64,
    retains: Seq<ObjectId>,
    n: nat,
)
    requires
        consistent(m),
        can_adopt(m, retains, 1),
    ensures
        ({
            let id = m.len() as int;
            let shared = share_times(adopt(m, kind, native, retains), id, n);
            let (end, actions) = release_times(shared, id, n + 1);
            &&& forall|k: nat|
                k <= n ==> (#[trigger] release_times(shared, id, k)).1 == Seq::<Destroy>::empty()
                    && alive(release_times(shared, id, k).0[id])
            &&& actions.len() > 0
            &&& actions[0] == Destroy { object: ObjectId { index: id as usize }, kind, native }
            &&& forall|j: int| 0 < j < actions.len() ==> (#[trigger] actions[j]).object@ != id
            &&& !alive(end[id])
            &&& consistent(end)
        }),
{
    let id = m.len() as int;
    let created = adopt(m, kind, native, retains);
    law_adopt(m, kind, native, retains);
    lemma_share_times(created, id, n);
    let shared = share_times(created, id, n);
    law_last_release_destroys_once(shared, id, n + 1);
    assert forall|k: nat| k <= n implies (#[trigger] release_times(shared, id, k)).1 == Seq::<
        Destroy,
    >::empty() && alive(release_times(shared, id, k).0[id]) by {
        assert(k < n + 1);
    }
}

/// Ownership chain, first half.  A record lives as long as a living record
/// retains it: giving up a handle on the parent destroys neither the parent
/// nor the child, however few handles are held on the parent.
pub proof fn law_parent_outlives_child(m: Seq<Node>, child: int, k: int)
    requires
        consistent(m),
        0 <= child < m.len(),
        alive(m[child]),
        0 <= k < m[child].retains.len(),
    ensures
        ({
            let parent = m[child].retains[k]@;
            let (after, actions) = release(m, parent);
            &&& 0 <= parent < child
            &&& alive(m[parent])
            &&& actions == Seq::<Destroy>::empty()
            &&& alive(after[parent])
            &&& alive(after[child])
        }),
{
    let parent = m[child].retains[k]@;
    lemma_occurrences_positive(m[child].retains, parent);
    lemma_retainers_include(m, parent, m.len() as int, child);
    assert(m[parent].retained == retainers(m, parent, m.len() as int) + occurrences(
        Seq::<ObjectId>::empty(),
        parent,
    ));
}

/// Ownership chain, in one release.  What a living record retains is alive;
/// and where a release destroys a record that a living record retains, it has
/// destroyed that living record before: a child is always destroyed before its
/// parent.
pub proof fn law_child_goes_first(m: Seq<Node>, id: int, child: int, k: int)
    requires
        consistent(m),
        0 <= child < m.len(),
        alive(m[child]),
        0 <= k < m[child].retains.len(),
    ensures
        ({
            let parent = m[child].retains[k]@;
            let actions = release(m, id).1;
            &&& 0 <= parent < child
            &&& alive(m[parent])
            &&& forall|j: int|
                0 <= j < actions.len() && (#[trigger] actions[j]).object@ == parent ==> destroyed_before(
                    actions,
                    child,
                    j,
                )
        }),
{
    let parent = m[child].retains[k]@;
    law_release(m, id);
    lemma_occurrences_positive(m[child].retains, parent);
    lemma_retainers_include(m, parent, m.len() as int, child);
    assert(m[parent].retained == retainers(m, parent, m.len() as int) + occurrences(
        Seq::<ObjectId>::empty(),
        parent,
    ));
}

/// Ownership chain, second half.  When the last handle on a child is given
/// up, and the child was all that kept its parent alive, that release
/// destroys both: the child first, the parent after it.
pub proof fn law_parent_follows_last_child(m: Seq<Node>, child: int, k: int)
    requires
        consistent(m),
        0 <= child < m.len(),
        m[child].handles == 1,
        m[child].retained == 0,
        0 <= k < m[child].retains.len(),
        m[m[child].retains[k]@].handles == 0,
        m[m[child].retains[k]@].retained == occurrences(m[child].retains, m[child].retains[k]@),
    ensures
        ({
            let parent = m[child].retains[k]@;
            let (after, actions) = release(m, child);
            &&& actions.len() > 0
            &&& actions[0] == destroy_of(m, child)
            &&& precedes(actions, child, parent)
            &&& !alive(after[child])
            &&& !alive(after[parent])
        }),
{
    let parent = m[child].retains[k]@;
    let (after, actions) = release(m, child);
    let n = m.len() as int;
    let none = Seq::<ObjectId>::empty();
    law_release(m, child);
    let m1 = with_handles(m, child, 0);
    lemma_settle_cascades(m1, child);
    assert(actions[0] == destroy_of(m1, child));
    assert(!alive(after[actions[0].object@]));
    lemma_occurrences_positive(m[child].retains, parent);
    assert(m[parent].retained == retainers(m, parent, n) + occurrences(none, parent));
    assert(after[parent].retained == retainers(after, parent, n) + occurrences(none, parent));
    lemma_retainers_shrink(m, after, child, parent, n);
    assert(died(m, after, parent));
    assert(destroys(actions, parent));
    let j = choose|j: int| 0 <= j < actions.len() && (#[trigger] actions[j]).object@ == parent;
    assert(actions[0].object@ == child && actions[j].object@ == parent);
}

/// What [`adopt_each`] does to the table: it appends as many records as it is
/// given native handles, and the parent is retained once more by each.
pub(crate) proof fn lemma_adopt_each(m: Seq<Node>, kind: ObjectKind, natives: Seq<u64>, parent: ObjectId)
    requires
        consistent(m),
        can_adopt_each(m, parent, natives.len() as int),
    ensures
        consistent(adopt_each(m, kind, natives, parent)),
        adopt_each(m, kind, natives, parent).len() == m.len() + natives.len(),
        alive(adopt_each(m, kind, natives, parent)[parent@]),
        adopt_each(m, kind, natives, parent)[parent@].retained == m[parent@].retained + natives.len(),
        forall|i: int|
            0 <= i < natives.len() ==> (#[trigger] adopt_each(m, kind, natives, parent)[m.len() + i]) == (
            Node { kind, native: natives[i], retains: seq![parent], owner: None, handles: 1, retained: 0 }),
    decreases natives.len(),
{
    if natives.len() > 0 {
        let before = adopt_each(m, kind, natives.drop_last(), parent);
        lemma_adopt_each(m, kind, natives.drop_last(), parent);
        let retains = seq![parent];
        assert(all_alive(before, retains));
        assert(all_fit(before, retains));
        law_adopt(before, kind, natives.last(), retains);
        lemma_occurrences_one(parent, parent@);
        let after = adopt(before, kind, natives.last(), retains);
        assert forall|i: int| 0 <= i < natives.len() implies (#[trigger] after[m.len() + i]) == (Node {
            kind,
            native: natives[i],
            retains: seq![parent],
            owner: None,
            handles: 1,
            retained: 0,
        }) by {
            if i < natives.len() - 1 {
                assert(natives.drop_last()[i] == natives[i]);
                lemma_occurrences_one(parent, m.len() + i);
                assert(after[m.len() + i] =~= before[m.len() + i]);
            }
        }
    }
}

} // verus!
