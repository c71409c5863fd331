//! The mathematical model of a table of objects: what its records are, what
//! each operation makes of them, and what it means for them to be consistent.

use vstd::prelude::*;
use crate::error::Error;
use crate::ownership::{Destroy, ObjectId, ObjectKind};

verus! {

/// The mathematical content of one record.
pub struct Node {
    pub kind: ObjectKind,
    pub native: u64,
    /// The records this one keeps alive, in the order it lets go of them.
    pub retains: Seq<ObjectId>,
    /// The record this one belongs to, which it does not keep alive.
    pub owner: Option<ObjectId>,
    /// How many handles the application holds.
    pub handles: nat,
    /// How many times living records retain this one.
    pub retained: nat,
}

/// The record `id` of `m` stands for the native object `native`: a handle with
/// this record and this native object was entered in `m`, or in a table that
/// `m` has grown from.
pub open spec fn holds(m: Seq<Node>, id: ObjectId, native: u64) -> bool {
    id@ < m.len() && m[id@].native == native
}

/// `after` has grown from `before`: every record of `before` is a record of
/// `after`, and stands for the same native object.
pub open spec fn grown(before: Seq<Node>, after: Seq<Node>) -> bool {
    forall|id: ObjectId, native: u64| #[trigger] holds(before, id, native) ==> holds(after, id, native)
}

/// A record is alive while anything holds or retains it.
pub open spec fn alive(n: Node) -> bool {
    n.handles > 0 || n.retained > 0
}

/// How often `p` occurs in `ids`.
pub open spec fn occurrences(ids: Seq<ObjectId>, p: int) -> nat
    decreases ids.len(),
{
    if ids.len() == 0 {
        0
    } else {
        occurrences(ids.drop_last(), p) + if ids.last()@ == p {
            1nat
        } else {
            0nat
        }
    }
}

/// How often the living records among the first `n` retain `p`.
pub open spec fn retainers(m: Seq<Node>, p: int, n: int) -> nat
    decreases n,
{
    if n <= 0 {
        0
    } else {
        retainers(m, p, n - 1) + if alive(m[n - 1]) {
            occurrences(m[n - 1].retains, p)
        } else {
            0nat
        }
    }
}

/// Every record retains only records older than itself.
pub open spec fn well_linked(m: Seq<Node>) -> bool {
    forall|i: int, k: int|
        0 <= i < m.len() && 0 <= k < m[i].retains.len() ==> 0 <= (#[trigger] m[i].retains[k])@ < i
}

/// Every `retained` count is the number of living retainers, plus the
/// references listed in `pending` that have been counted but have no retainer.
pub open spec fn balanced(m: Seq<Node>, pending: Seq<ObjectId>) -> bool {
    forall|p: int|
        0 <= p < m.len() ==> (#[trigger] m[p]).retained == retainers(m, p, m.len() as int)
            + occurrences(pending, p)
}

/// The invariant of a table at rest.
pub open spec fn consistent(m: Seq<Node>) -> bool {
    m.len() <= usize::MAX && well_linked(m) && balanced(m, Seq::empty())
}

/// `after` holds the same records as `before`, whatever their counts.
pub open spec fn same_records(before: Seq<Node>, after: Seq<Node>) -> bool {
    &&& after.len() == before.len()
    &&& forall|i: int|
        0 <= i < before.len() ==> (#[trigger] after[i]).kind == before[i].kind && after[i].native
            == before[i].native && after[i].retains == before[i].retains && after[i].owner
            == before[i].owner
}

/// Record `i` was alive in `before` and is dead in `after`.
pub open spec fn died(before: Seq<Node>, after: Seq<Node>, i: int) -> bool {
    alive(before[i]) && !alive(after[i])
}

/// `actions` asks for the destruction of record `i`.
pub open spec fn destroys(actions: Seq<Destroy>, i: int) -> bool {
    exists|j: int| 0 <= j < actions.len() && (#[trigger] actions[j]).object@ == i
}

/// `actions` asks for the destruction of `c` before that of `d`.
pub open spec fn precedes(actions: Seq<Destroy>, c: int, d: int) -> bool {
    exists|i: int, j: int|
        0 <= i < j < actions.len() && (#[trigger] actions[i]).object@ == c && (
        #[trigger] actions[j]).object@ == d
}

/// The table in which record `p` has `handles` handles and nothing else differs.
pub open spec fn with_handles(m: Seq<Node>, p: int, handles: nat) -> Seq<Node> {
    m.update(p, Node { handles, ..m[p] })
}

/// The table in which `retained` living records retain record `p` and nothing else differs.
pub open spec fn with_retained(m: Seq<Node>, p: int, retained: nat) -> Seq<Node> {
    m.update(p, Node { retained, ..m[p] })
}

/// The destruction that the death of record `p` asks for.
pub open spec fn destroy_of(m: Seq<Node>, p: int) -> Destroy {
    Destroy { object: ObjectId { index: p as usize }, kind: m[p].kind, native: m[p].native }
}

/// Record `p` has just lost a reference: if nothing is left it dies, and lets go
/// of what it retained.
pub open spec fn settle(m: Seq<Node>, p: int) -> (Seq<Node>, Seq<Destroy>)
    decreases p, m[p].retains.len() + 2,
{
    if 0 <= p < m.len() && !alive(m[p]) {
        let (after, actions) = unretain_each(m, m[p].retains, p);
        (after, seq![destroy_of(m, p)] + actions)
    } else {
        (m, Seq::empty())
    }
}

/// One retaining reference to `p` is given up.
pub open spec fn unretain(m: Seq<Node>, p: int) -> (Seq<Node>, Seq<Destroy>)
    decreases p + 1, 0nat,
{
    if 0 <= p < m.len() && m[p].retained > 0 {
        settle(with_retained(m, p, (m[p].retained - 1) as nat), p)
    } else {
        (m, Seq::empty())
    }
}

/// One retaining reference to each of `ids`, all older than `bound`, is given
/// up, first to last.
pub open spec fn unretain_each(m: Seq<Node>, ids: Seq<ObjectId>, bound: int) -> (
    Seq<Node>,
    Seq<Destroy>,
)
    decreases bound, ids.len() + 1,
{
    if ids.len() == 0 {
        (m, Seq::empty())
    } else {
        let (before, first) = unretain_each(m, ids.drop_last(), bound);
        if 0 <= ids.last()@ < bound {
            let (after, last) = unretain(before, ids.last()@);
            (after, first + last)
        } else {
            (before, first)
        }
    }
}

/// The application gives up one handle on `id`.
pub open spec fn release(m: Seq<Node>, id: int) -> (Seq<Node>, Seq<Destroy>) {
    if 0 <= id < m.len() && m[id].handles > 0 {
        settle(with_handles(m, id, (m[id].handles - 1) as nat), id)
    } else {
        (m, Seq::empty())
    }
}

/// What every cascade leaves of the table, and what it may ask to destroy: the
/// records stay in place, no count grows, no handle count changes, records from
/// `bound` on are untouched, and every action names a distinct record below
/// `bound` that is dead afterwards.
pub open spec fn cascaded(m: Seq<Node>, m2: Seq<Node>, actions: Seq<Destroy>, bound: int) -> bool {
    &&& same_records(m, m2)
    &&& forall|i: int|
        0 <= i < m.len() ==> (#[trigger] m2[i]).handles == m[i].handles && m2[i].retained
            <= m[i].retained
    &&& forall|i: int| bound <= i < m.len() ==> #[trigger] m2[i] == m[i]
    &&& forall|j: int|
        0 <= j < actions.len() ==> 0 <= (#[trigger] actions[j]).object@ < bound && actions[j]
            == destroy_of(m, actions[j].object@) && !alive(m2[actions[j].object@])
    &&& forall|j1: int, j2: int|
        0 <= j1 < j2 < actions.len() ==> (#[trigger] actions[j1]).object@ != (
        #[trigger] actions[j2]).object@
}

/// After a record has lost a reference, the table is ready to settle it: the
/// counts are balanced if the record lives on, and balanced but for what the
/// record retained if it does not.
pub open spec fn ready_to_settle(m: Seq<Node>, p: int, rest: Seq<ObjectId>) -> bool {
    &&& alive(m[p]) ==> balanced(m, rest)
    &&& !alive(m[p]) ==> balanced(m, m[p].retains + rest)
}

/// `actions` asks for the destruction of `c` at some position before `j`.
pub open spec fn destroyed_before(actions: Seq<Destroy>, c: int, j: int) -> bool {
    exists|i: int| 0 <= i < j && i < actions.len() && (#[trigger] actions[i]).object@ == c
}

/// Whenever `actions` destroys a record, it has already destroyed every record
/// that retained it and was alive in `m`, or is `p`.
pub open spec fn children_first(m: Seq<Node>, actions: Seq<Destroy>, p: int) -> bool {
    forall|c: int, j: int|
        0 <= c < m.len() && (alive(#[trigger] m[c]) || c == p) && 0 <= j < actions.len()
            && occurrences(m[c].retains, (#[trigger] actions[j]).object@) > 0 ==> destroyed_before(
            actions,
            c,
            j,
        )
}

/// One more handle on `id` is handed out.
pub open spec fn share(m: Seq<Node>, id: int) -> Seq<Node> {
    with_handles(m, id, m[id].handles + 1)
}

/// Each of `ids` is retained once more, first to last.
pub open spec fn retain_each(m: Seq<Node>, ids: Seq<ObjectId>) -> Seq<Node>
    decreases ids.len(),
{
    if ids.len() == 0 {
        m
    } else {
        let before = retain_each(m, ids.drop_last());
        let p = ids.last()@;
        if 0 <= p < before.len() {
            with_retained(before, p, before[p].retained + 1)
        } else {
            before
        }
    }
}

/// Every one of `ids` names a living record of `m`.
pub open spec fn all_alive(m: Seq<Node>, ids: Seq<ObjectId>) -> bool {
    forall|k: int| 0 <= k < ids.len() ==> (#[trigger] ids[k])@ < m.len() && alive(m[ids[k]@])
}

/// Retaining every one of `ids` keeps each count within the machine's range.
pub open spec fn all_fit(m: Seq<Node>, ids: Seq<ObjectId>) -> bool {
    forall|k: int|
        0 <= k < ids.len() && (#[trigger] ids[k])@ < m.len() ==> m[ids[k]@].retained + ids.len()
            <= usize::MAX
}

/// A new record of the given kind, retaining `retains`, with one handle on it.
pub open spec fn adopt(m: Seq<Node>, kind: ObjectKind, native: u64, retains: Seq<ObjectId>) -> Seq<
    Node,
> {
    retain_each(m, retains).push(
        Node { kind, native, retains, owner: None, handles: 1, retained: 0 },
    )
}

/// A new record with one handle on it, retaining `retains` and then a new
/// member record that refers back to it without keeping it alive.
pub open spec fn adopt_cyclic(
    m: Seq<Node>,
    kind: ObjectKind,
    native: u64,
    retains: Seq<ObjectId>,
    member_kind: ObjectKind,
    member_native: u64,
) -> Seq<Node> {
    let member = ObjectId { index: m.len() as usize };
    let owner = ObjectId { index: (m.len() + 1) as usize };
    retain_each(m, retains).push(
        Node {
            kind: member_kind,
            native: member_native,
            retains: Seq::empty(),
            owner: Some(owner),
            handles: 0,
            retained: 1,
        },
    ).push(
        Node { kind, native, retains: retains.push(member), owner: None, handles: 1, retained: 0 },
    )
}

/// Whether `extra` new records can be appended to `m`, the last of them
/// retaining `ids`.
pub open spec fn can_adopt(m: Seq<Node>, ids: Seq<ObjectId>, extra: int) -> bool {
    all_alive(m, ids) && all_fit(m, ids) && m.len() + extra <= usize::MAX
}

/// Why a table refuses to adopt a record, when it does.
pub open spec fn refusal(m: Seq<Node>, ids: Seq<ObjectId>) -> Error {
    if all_alive(m, ids) {
        Error::Exhausted
    } else {
        Error::Released
    }
}

/// `n` more handles on `id` are handed out, one after the other.
pub open spec fn share_times(m: Seq<Node>, id: int, n: nat) -> Seq<Node>
    decreases n,
{
    if n == 0 {
        m
    } else {
        share(share_times(m, id, (n - 1) as nat), id)
    }
}

/// `n` handles on `id` are given up, one after the other.
pub open spec fn release_times(m: Seq<Node>, id: int, n: nat) -> (Seq<Node>, Seq<Destroy>)
    decreases n,
{
    if n == 0 {
        (m, Seq::empty())
    } else {
        let (before, first) = release_times(m, id, (n - 1) as nat);
        let (after, last) = release(before, id);
        (after, first + last)
    }
}

/// What entering a native object does, given how its creation went: a failed
/// creation is reported as it is and enters nothing; a successful one enters a
/// record with one handle on it that retains `retains`, unless the table has to
/// refuse, in which case nothing is entered either.
pub open spec fn entered(
    before: Seq<Node>,
    after: Seq<Node>,
    kind: ObjectKind,
    retains: Seq<ObjectId>,
    creation: Result<u64, Error>,
    outcome: Result<(u64, ObjectId), Error>,
) -> bool {
    match creation {
        Err(e) => outcome == Err::<(u64, ObjectId), Error>(e) && after == before,
        Ok(native) => if can_adopt(before, retains, 1) {
            outcome == Ok::<(u64, ObjectId), Error>((native, ObjectId { index: before.len() as usize }))
                && after == adopt(before, kind, native, retains)
        } else {
            outcome == Err::<(u64, ObjectId), Error>(refusal(before, retains)) && after == before
        },
    }
}

/// What handing out one more handle on `id` does: it succeeds on a living
/// record whose handles can still be counted, and changes nothing otherwise.
pub open spec fn handed_out(
    before: Seq<Node>,
    after: Seq<Node>,
    id: int,
    outcome: Result<(), Error>,
) -> bool {
    if 0 <= id < before.len() && alive(before[id]) {
        if before[id].handles < usize::MAX {
            outcome == Ok::<(), Error>(()) && after == share(before, id)
        } else {
            outcome == Err::<(), Error>(Error::Exhausted) && after == before
        }
    } else {
        outcome == Err::<(), Error>(Error::Released) && after == before
    }
}

/// One new record for each of `natives`, first to last, each of the given kind
/// and retaining `parent`, with one handle on each.
pub open spec fn adopt_each(
    m: Seq<Node>,
    kind: ObjectKind,
    natives: Seq<u64>,
    parent: ObjectId,
) -> Seq<
    Node,
>
    decreases natives.len(),
{
    if natives.len() == 0 {
        m
    } else {
        adopt(adopt_each(m, kind, natives.drop_last(), parent), kind, natives.last(), seq![parent])
    }
}

/// Whether `count` new records can be appended to `m`, each retaining
/// `parent`.
pub open spec fn can_adopt_each(m: Seq<Node>, parent: ObjectId, count: int) -> bool {
    &&& parent@ < m.len()
    &&& alive(m[parent@])
    &&& m[parent@].retained + count <= usize::MAX
    &&& m.len() + count <= usize::MAX
}

} // verus!
