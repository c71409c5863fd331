//! Shared ownership of native objects.
//!
//! Every native object is represented by a record in an [`Objects`] table.  A
//! record is kept alive by the handles the application holds on it and by the
//! younger records that retain it.  When the last of both is gone the record
//! dies: the table reports that the native object must be destroyed and lets go
//! of whatever the record retained, which may cascade.  A record can only retain
//! records older than itself, so a child always dies before the parents it
//! refers to, and no cycle of retention can form.  A back-reference from a
//! member to its owner is a plain lookup that keeps nothing alive.

pub mod kept;
pub mod laws;
mod lemmas;
pub mod model;

use vstd::prelude::*;
use crate::error::Error;
use self::laws::{law_adopt, law_adopt_cyclic, lemma_adopt_each};
use self::lemmas::{
    lemma_lose_reference, lemma_occurrences_add, lemma_occurrences_bounded,
    lemma_occurrences_one, lemma_retain_each, lemma_retainers_same, lemma_settle_balanced,
    lemma_settle_cascades, lemma_unretain_balanced, lemma_unretain_cascades,
    lemma_well_linked_same,
};

pub use self::kept::{kept, law_first_kept_stands, Kept};
pub use self::model::{
    Node, adopt, adopt_cyclic, adopt_each, alive, all_alive, all_fit, balanced, can_adopt,
    can_adopt_each, cascaded, children_first, consistent, destroy_of, destroyed_before,
    destroys, died, entered, grown, handed_out, holds, occurrences, precedes, ready_to_settle, refusal,
    release, release_times, retain_each, retainers, same_records, settle, share, share_times,
    unretain, unretain_each, well_linked, with_handles, with_retained,
};

verus! {

/// What a record stands for.
#[derive(Debug, Copy, Clone, PartialEq, Eq, Structural)]
pub enum ObjectKind {
    Root,
    Surface,
    Context,
    Queue,
    CommandPool,
    CommandBuffer,
    Swapchain,
    ImageView,
    Shader,
    RenderPass,
    Framebuffer,
    PipelineLayout,
    GraphicsPipeline,
    Fence,
    Semaphore,
}

/// The position of a record in its table.
#[derive(Debug, Copy, Clone, PartialEq, Eq, Structural)]
pub struct ObjectId {
    pub index: usize,
}

impl View for ObjectId {
    type V = int;

    open spec fn view(&self) -> int {
        self.index as int
    }
}

/// A native object whose last owner is gone and that must now be destroyed.
#[derive(Debug, Copy, Clone, PartialEq, Eq, Structural)]
pub struct Destroy {
    pub object: ObjectId,
    pub kind: ObjectKind,
    pub native: u64,
}

/// One record of the table.
struct Record {
    kind: ObjectKind,
    native: u64,
    retains: Vec<ObjectId>,
    owner: Option<ObjectId>,
    handles: usize,
    retained: usize,
}

impl View for Record {
    type V = Node;

    closed spec fn view(&self) -> Node {
        Node {
            kind: self.kind,
            native: self.native,
            retains: self.retains@,
            owner: self.owner,
            handles: self.handles as nat,
            retained: self.retained as nat,
        }
    }
}

/// The table of every native object created through it, living or dead.
pub struct Objects {
    records: Vec<Record>,
}

impl View for Objects {
    type V = Seq<Node>;

    closed spec fn view(&self) -> Seq<Node> {
        Seq::new(self.records@.len(), |i: int| self.records@[i]@)
    }
}

impl Objects {
    /// The invariant that every operation keeps.
    pub open spec fn wf(&self) -> bool {
        consistent(self@)
    }

    /// An empty table.
    pub fn new() -> (objects: Objects)
        ensures
            objects@ == Seq::<Node>::empty(),
            objects.wf(),
    {
        let objects = Objects { records: Vec::new() };
        assert(objects@ =~= Seq::<Node>::empty());
        objects
    }

    /// How many records the table has ever held.
    pub fn len(&self) -> (n: usize)
        ensures
            n == self@.len(),
    {
        self.records.len()
    }

    /// Whether `id` names a record that is still alive.
    pub fn is_alive(&self, id: ObjectId) -> (b: bool)
        ensures
            b == (id@ < self@.len() && alive(self@[id@])),
    {
        id.index < self.records.len() && (self.records[id.index].handles > 0
            || self.records[id.index].retained > 0)
    }

    /// Whether the record `id` of this table stands for the native object
    /// `native`, as it does for a handle that was entered in this table and
    /// does not for a handle of another table.
    pub fn holds(&self, id: ObjectId, native: u64) -> (yes: bool)
        ensures
            yes == holds(self@, id, native),
    {
        id.index < self.records.len() && self.records[id.index].native == native
    }

    /// What kind of object `id` names, if it names a record at all.
    pub fn kind(&self, id: ObjectId) -> (k: Option<ObjectKind>)
        ensures
            k == if id@ < self@.len() {
                Some(self@[id@].kind)
            } else {
                None
            },
    {
        if id.index < self.records.len() {
            Some(self.records[id.index].kind)
        } else {
            None
        }
    }

    /// The native handle of the object `id` names, if it names a record at all.
    pub fn native(&self, id: ObjectId) -> (h: Option<u64>)
        ensures
            h == if id@ < self@.len() {
                Some(self@[id@].native)
            } else {
                None
            },
    {
        if id.index < self.records.len() {
            Some(self.records[id.index].native)
        } else {
            None
        }
    }

    /// How many handles the application holds on `id`; none on a record that
    /// does not exist.
    pub fn handles(&self, id: ObjectId) -> (n: usize)
        ensures
            n == if id@ < self@.len() {
                self@[id@].handles
            } else {
                0
            },
    {
        if id.index < self.records.len() {
            self.records[id.index].handles
        } else {
            0
        }
    }

    /// How many times living records retain `id`; never for a record that does
    /// not exist.
    pub fn retained(&self, id: ObjectId) -> (n: usize)
        ensures
            n == if id@ < self@.len() {
                self@[id@].retained
            } else {
                0
            },
    {
        if id.index < self.records.len() {
            self.records[id.index].retained
        } else {
            0
        }
    }

    /// The records that `id` keeps alive, in the order it lets go of them;
    /// nothing for a record that does not exist.
    pub fn retains(&self, id: ObjectId) -> (ids: Vec<ObjectId>)
        ensures
            ids@ == if id@ < self@.len() {
                self@[id@].retains
            } else {
                Seq::empty()
            },
    {
        if id.index < self.records.len() {
            self.records[id.index].retains.clone()
        } else {
            Vec::new()
        }
    }

    /// The record that `id` retains in the given place, if it retains that
    /// many.
    pub fn retained_at(&self, id: ObjectId, place: usize) -> (parent: Option<ObjectId>)
        ensures
            parent == if id@ < self@.len() && place < self@[id@].retains.len() {
                Some(self@[id@].retains[place as int])
            } else {
                None
            },
    {
        if id.index < self.records.len() && place < self.records[id.index].retains.len() {
            Some(self.records[id.index].retains[place])
        } else {
            None
        }
    }

    /// The record that `id` belongs to, while that record is alive.  This is a
    /// lookup: it keeps nothing alive and hands out no handle.
    pub fn owner(&self, id: ObjectId) -> (o: Option<ObjectId>)
        ensures
            o == if id@ < self@.len() && self@[id@].owner is Some && self@[id@].owner->0@
                < self@.len() && alive(self@[self@[id@].owner->0@]) {
                self@[id@].owner
            } else {
                None
            },
    {
        if id.index < self.records.len() {
            match self.records[id.index].owner {
                Some(owner) => {
                    if self.is_alive(owner) {
                        Some(owner)
                    } else {
                        None
                    }
                },
                None => None,
            }
        } else {
            None
        }
    }

    /// Hands out one more handle on a living record.  This is what cloning a
    /// handle does.
    pub fn share(&mut self, id: ObjectId) -> (r: Result<(), Error>)
        requires
            old(self).wf(),
        ensures
            final(self).wf(),
            handed_out(old(self)@, final(self)@, id@, r),
            grown(old(self)@, final(self)@),
    {
        if !self.is_alive(id) {
            return Err(Error::Released);
        }
        if self.records[id.index].handles == usize::MAX {
            return Err(Error::Exhausted);
        }
        self.records[id.index].handles = self.records[id.index].handles + 1;
        proof {
            let m = old(self)@;
            let m1 = self@;
            assert(m1 =~= share(m, id@));
            let n = m.len() as int;
            lemma_well_linked_same(m, m1);
            assert forall|q: int| 0 <= q < m1.len() implies (#[trigger] m1[q]).retained == retainers(
                m1,
                q,
                n,
            ) + occurrences(Seq::<ObjectId>::empty(), q) by {
                lemma_retainers_same(m, m1, q, n);
                assert(m[q].retained == retainers(m, q, n) + occurrences(Seq::<ObjectId>::empty(), q));
            }
        }
        Ok(())
    }

    /// Gives up one handle on `id`, and returns the native objects that must be
    /// destroyed as a result, in the order in which to destroy them.  A handle
    /// on a record that holds none, or that does not exist, gives up nothing.
    pub fn release(&mut self, id: ObjectId) -> (actions: Vec<Destroy>)
        requires
            old(self).wf(),
        ensures
            final(self).wf(),
            (final(self)@, actions@) == release(old(self)@, id@),
            grown(old(self)@, final(self)@),
    {
        let mut actions: Vec<Destroy> = Vec::new();
        if id.index < self.records.len() && self.records[id.index].handles > 0 {
            self.records[id.index].handles = self.records[id.index].handles - 1;
            proof {
                let m = old(self)@;
                let none = Seq::<ObjectId>::empty();
                assert(self@ =~= with_handles(m, id@, (m[id@].handles - 1) as nat));
                lemma_lose_reference(m, self@, id@, none, none);
            }
            let ghost lost = self@;
            self.settle(id.index, &mut actions, Ghost(Seq::empty()));
            proof {
                lemma_settle_cascades(lost, id@);
                assert(actions@ =~= release(old(self)@, id@).1);
            }
        }
        actions
    }

    /// Settles record `p`, which has just lost a reference.
    fn settle(&mut self, p: usize, actions: &mut Vec<Destroy>, Ghost(rest): Ghost<Seq<ObjectId>>)
        requires
            p < old(self)@.len() <= usize::MAX,
            well_linked(old(self)@),
            ready_to_settle(old(self)@, p as int, rest),
        ensures
            final(self)@ == settle(old(self)@, p as int).0,
            final(actions)@ == old(actions)@ + settle(old(self)@, p as int).1,
            well_linked(final(self)@),
            balanced(final(self)@, rest),
        decreases p, old(self)@[p as int].retains.len() + 2,
    {
        let ghost m = self@;
        let ghost done = actions@;
        proof {
            lemma_settle_balanced(m, p as int, rest);
            lemma_settle_cascades(m, p as int);
            lemma_well_linked_same(m, settle(m, p as int).0);
        }
        if self.records[p].handles == 0 && self.records[p].retained == 0 {
            let ghost kept = m[p as int].retains;
            let ghost head = seq![destroy_of(m, p as int)];
            actions.push(
                Destroy {
                    object: ObjectId { index: p },
                    kind: self.records[p].kind,
                    native: self.records[p].native,
                },
            );
            let n = self.records[p].retains.len();
            let mut k: usize = 0;
            assert(kept.take(0) =~= Seq::<ObjectId>::empty());
            assert(kept.skip(0) =~= kept);
            assert(done + head + Seq::<Destroy>::empty() =~= done.push(destroy_of(m, p as int)));
            while k < n
                invariant
                    k <= n,
                    n == kept.len(),
                    p < m.len() <= usize::MAX,
                    kept == m[p as int].retains,
                    well_linked(m),
                    same_records(m, self@),
                    self@ == unretain_each(m, kept.take(k as int), p as int).0,
                    actions@ == done + head + unretain_each(m, kept.take(k as int), p as int).1,
                    well_linked(self@),
                    balanced(self@, kept.skip(k as int) + rest),
                decreases n - k,
            {
                let ghost now = self@;
                let ghost sofar = actions@;
                let q = self.records[p].retains[k];
                proof {
                    assert(now[p as int].retains == kept);
                    assert(q == kept[k as int]);
                    assert(0 <= m[p as int].retains[k as int]@ < p);
                    assert(kept.skip(k as int) + rest =~= seq![q] + (kept.skip(k as int + 1) + rest));
                    assert(kept.take(k as int + 1).drop_last() =~= kept.take(k as int));
                    assert(kept.take(k as int + 1).last() == q);
                    lemma_unretain_cascades(now, q@);
                }
                self.unretain(q.index, actions, Ghost(kept.skip(k as int + 1) + rest));
                proof {
                    let step = unretain(now, q@).1;
                    let each = unretain_each(m, kept.take(k as int), p as int).1;
                    assert(actions@ =~= done + head + (each + step));
                }
                k = k + 1;
            }
            proof {
                assert(kept.take(n as int) =~= kept);
                assert(kept.skip(n as int) + rest =~= rest);
                let each = unretain_each(m, kept, p as int).1;
                assert(done + head + each =~= done + (head + each));
            }
        } else {
            assert(actions@ =~= done + Seq::<Destroy>::empty());
        }
    }

    /// Gives up one reference by which a record retained `p`.
    fn unretain(&mut self, p: usize, actions: &mut Vec<Destroy>, Ghost(rest): Ghost<Seq<ObjectId>>)
        requires
            p < old(self)@.len() <= usize::MAX,
            well_linked(old(self)@),
            balanced(old(self)@, seq![ObjectId { index: p }] + rest),
        ensures
            final(self)@ == unretain(old(self)@, p as int).0,
            final(actions)@ == old(actions)@ + unretain(old(self)@, p as int).1,
            well_linked(final(self)@),
            balanced(final(self)@, rest),
        decreases p + 1, 0nat,
    {
        let ghost m = self@;
        let ghost id = ObjectId { index: p };
        proof {
            lemma_unretain_balanced(m, id, rest);
        }
        self.records[p].retained = self.records[p].retained - 1;
        proof {
            let pending = seq![id] + rest;
            assert(self@ =~= with_retained(m, p as int, (m[p as int].retained - 1) as nat));
            assert forall|q: int| 0 <= q < m.len() implies occurrences(pending, q) == occurrences(rest, q)
                + if q == p {
                1nat
            } else {
                0nat
            } by {
                lemma_occurrences_add(seq![id], rest, q);
                lemma_occurrences_one(id, q);
            }
            lemma_lose_reference(m, self@, p as int, pending, rest);
        }
        self.settle(p, actions, Ghost(rest));
    }

    /// Whether every one of `retains` can be retained once more.
    fn check(&self, retains: &Vec<ObjectId>, extra: usize) -> (r: Result<(), Error>)
        requires
            extra <= 2,
        ensures
            match r {
                Ok(()) => can_adopt(self@, retains@, extra as int),
                Err(e) => !can_adopt(self@, retains@, extra as int) && e == refusal(self@, retains@),
            },
    {
        let n = retains.len();
        let count = self.records.len();
        let mut living = true;
        let mut fit = true;
        let mut k: usize = 0;
        while k < n
            invariant
                k <= n,
                n == retains@.len(),
                count == self@.len(),
                living == (forall|j: int|
                    0 <= j < k ==> (#[trigger] retains@[j])@ < self@.len() && alive(
                        self@[retains@[j]@],
                    )),
                fit == (forall|j: int|
                    0 <= j < k && (#[trigger] retains@[j])@ < self@.len()
                        ==> self@[retains@[j]@].retained + n <= usize::MAX),
            decreases n - k,
        {
            let id = retains[k];
            if !self.is_alive(id) {
                living = false;
            }
            if id.index < count && self.records[id.index].retained > usize::MAX - n {
                fit = false;
            }
            k = k + 1;
        }
        if !living {
            Err(Error::Released)
        } else if !fit || count > usize::MAX - extra {
            Err(Error::Exhausted)
        } else {
            Ok(())
        }
    }

    /// Retains every one of `retains` once more.
    fn retain_each(&mut self, retains: &Vec<ObjectId>)
        requires
            old(self).wf(),
            all_alive(old(self)@, retains@),
            all_fit(old(self)@, retains@),
        ensures
            final(self)@ == retain_each(old(self)@, retains@),
    {
        let ghost m = self@;
        let ghost ids = retains@;
        let n = retains.len();
        let mut k: usize = 0;
        assert(ids.take(0) =~= Seq::<ObjectId>::empty());
        while k < n
            invariant
                k <= n,
                n == ids.len(),
                ids == retains@,
                consistent(m),
                all_alive(m, ids),
                all_fit(m, ids),
                self@ == retain_each(m, ids.take(k as int)),
            decreases n - k,
        {
            let id = retains[k];
            let ghost now = self@;
            proof {
                let part = ids.take(k as int);
                assert forall|j: int| 0 <= j < part.len() implies (#[trigger] part[j])@ < m.len() && alive(
                    m[part[j]@],
                ) by {
                    assert(ids[j]@ < m.len() && alive(m[ids[j]@]));
                }
                lemma_retain_each(m, part, Seq::empty());
                lemma_occurrences_bounded(part, id@);
                assert(ids[k as int]@ < m.len() && m[ids[k as int]@].retained + ids.len() <= usize::MAX);
                assert(now[id@].retained == m[id@].retained + occurrences(part, id@));
            }
            self.records[id.index].retained = self.records[id.index].retained + 1;
            proof {
                assert(ids.take(k as int + 1).drop_last() =~= ids.take(k as int));
                assert(ids.take(k as int + 1).last() == id);
                assert(self@ =~= with_retained(now, id@, now[id@].retained + 1));
            }
            k = k + 1;
        }
        assert(ids.take(n as int) =~= ids);
    }

    /// Enters a native object that has just been created, retaining `retains`
    /// on its behalf, and returns the one handle on it.  Nothing is entered
    /// when one of `retains` is no longer alive, or when a count would overflow.
    pub fn adopt(
        &mut self,
        kind: ObjectKind,
        native: u64,
        retains: Vec<ObjectId>,
    ) -> (r: Result<ObjectId, Error>)
        requires
            old(self).wf(),
        ensures
            final(self).wf(),
            match r {
                Ok(id) => can_adopt(old(self)@, retains@, 1) && id@ == old(self)@.len() && final(self)@
                    == adopt(old(self)@, kind, native, retains@),
                Err(e) => !can_adopt(old(self)@, retains@, 1) && final(self)@ == old(self)@ && e
                    == refusal(old(self)@, retains@),
            },
            entered(
                old(self)@,
                final(self)@,
                kind,
                retains@,
                Ok(native),
                match r {
                    Ok(id) => Ok((native, id)),
                    Err(e) => Err(e),
                },
            ),
            grown(old(self)@, final(self)@),
            r matches Ok(id) ==> holds(final(self)@, id, native),
    {
        match self.check(&retains, 1) {
            Err(e) => Err(e),
            Ok(()) => {
                let ghost m = self@;
                let ghost ids = retains@;
                let index = self.records.len();
                self.retain_each(&retains);
                let ghost m1 = self@;
                self.records.push(
                    Record { kind, native, retains, owner: None, handles: 1, retained: 0 },
                );
                proof {
                    let node = Node { kind, native, retains: ids, owner: None, handles: 1, retained: 0 };
                    assert(self@ =~= m1.push(node));
                    law_adopt(m, kind, native, ids);
                }
                Ok(ObjectId { index })
            },
        }
    }

    /// Enters a native object together with a member that refers back to it:
    /// the new record retains `retains` and then the member, while the member
    /// only knows its owner and keeps nothing alive.  Returns the one handle on
    /// the owner, and the member's identifier, on which no handle is held yet.
    pub fn adopt_cyclic(
        &mut self,
        kind: ObjectKind,
        native: u64,
        retains: Vec<ObjectId>,
        member_kind: ObjectKind,
        member_native: u64,
    ) -> (r: Result<(ObjectId, ObjectId), Error>)
        requires
            old(self).wf(),
        ensures
            final(self).wf(),
            match r {
                Ok((owner, member)) => can_adopt(old(self)@, retains@, 2) && member@ == old(self)@.len()
                    && owner@ == old(self)@.len() + 1 && final(self)@ == adopt_cyclic(
                    old(self)@,
                    kind,
                    native,
                    retains@,
                    member_kind,
                    member_native,
                ),
                Err(e) => !can_adopt(old(self)@, retains@, 2) && final(self)@ == old(self)@ && e
                    == refusal(old(self)@, retains@),
            },
            grown(old(self)@, final(self)@),
            r matches Ok((owner, member)) ==> holds(final(self)@, owner, native) && holds(
                final(self)@,
                member,
                member_native,
            ),
    {
        match self.check(&retains, 2) {
            Err(e) => Err(e),
            Ok(()) => {
                let ghost m = self@;
                let ghost ids = retains@;
                let index = self.records.len();
                let member = ObjectId { index };
                let owner = ObjectId { index: index + 1 };
                self.retain_each(&retains);
                let ghost m1 = self@;
                self.records.push(
                    Record {
                        kind: member_kind,
                        native: member_native,
                        retains: Vec::new(),
                        owner: Some(owner),
                        handles: 0,
                        retained: 1,
                    },
                );
                let ghost m2 = self@;
                let mut kept = retains;
                kept.push(member);
                self.records.push(
                    Record { kind, native, retains: kept, owner: None, handles: 1, retained: 0 },
                );
                proof {
                    let first = Node {
                        kind: member_kind,
                        native: member_native,
                        retains: Seq::<ObjectId>::empty(),
                        owner: Some(owner),
                        handles: 0,
                        retained: 1,
                    };
                    let second = Node {
                        kind,
                        native,
                        retains: ids.push(member),
                        owner: None,
                        handles: 1,
                        retained: 0,
                    };
                    assert(m2 =~= m1.push(first));
                    assert(self@ =~= m2.push(second));
                    law_adopt_cyclic(m, kind, native, ids, member_kind, member_native);
                }
                Ok((owner, member))
            },
        }
    }

    /// Enters a native object according to how its creation went: a failed
    /// creation is handed back as it is, a successful one is adopted.  Returns
    /// the native handle with the one handle on the new record.
    pub fn enter(
        &mut self,
        kind: ObjectKind,
        retains: Vec<ObjectId>,
        creation: Result<u64, Error>,
    ) -> (outcome: Result<(u64, ObjectId), Error>)
        requires
            old(self).wf(),
        ensures
            final(self).wf(),
            entered(old(self)@, final(self)@, kind, retains@, creation, outcome),
            grown(old(self)@, final(self)@),
            outcome matches Ok((native, id)) ==> holds(final(self)@, id, native),
    {
        match creation {
            Err(e) => Err(e),
            Ok(native) => match self.adopt(kind, native, retains) {
                Ok(id) => Ok((native, id)),
                Err(e) => Err(e),
            },
        }
    }

    /// Enters one native object for each of `natives`, first to last, each of
    /// the given kind and retaining `parent`, and returns the one handle on
    /// each.  Either all are entered or none is.
    pub fn adopt_each(
        &mut self,
        kind: ObjectKind,
        natives: &Vec<u64>,
        parent: ObjectId,
    ) -> (r: Result<Vec<ObjectId>, Error>)
        requires
            old(self).wf(),
        ensures
            final(self).wf(),
            match r {
                Ok(ids) => can_adopt_each(old(self)@, parent, natives@.len() as int) && final(self)@
                    == adopt_each(old(self)@, kind, natives@, parent) && ids@.len() == natives@.len()
                    && forall|i: int| 0 <= i < ids@.len() ==> (#[trigger] ids@[i])@ == old(self)@.len() + i,
                Err(e) => !can_adopt_each(old(self)@, parent, natives@.len() as int) && final(self)@
                    == old(self)@ && e == if parent@ < old(self)@.len() && alive(old(self)@[parent@]) {
                    Error::Exhausted
                } else {
                    Error::Released
                },
            },
            grown(old(self)@, final(self)@),
            r matches Ok(ids) ==> forall|i: int|
                0 <= i < ids@.len() ==> holds(final(self)@, #[trigger] ids@[i], natives@[i]),
    {
        let n = natives.len();
        if !self.is_alive(parent) {
            return Err(Error::Released);
        }
        if self.retained(parent) > usize::MAX - n || self.len() > usize::MAX - n {
            return Err(Error::Exhausted);
        }
        let ghost m = self@;
        let mut ids: Vec<ObjectId> = Vec::new();
        let mut i: usize = 0;
        assert(natives@.take(0) =~= Seq::<u64>::empty());
        while i < n
            invariant
                i <= n,
                n == natives@.len(),
                consistent(m),
                can_adopt_each(m, parent, n as int),
                self.wf(),
                self@ == adopt_each(m, kind, natives@.take(i as int), parent),
                ids@.len() == i,
                forall|j: int| 0 <= j < i ==> (#[trigger] ids@[j])@ == m.len() + j,
                grown(m, self@),
                forall|j: int| 0 <= j < i ==> holds(self@, #[trigger] ids@[j], natives@[j]),
            decreases n - i,
        {
            proof {
                lemma_adopt_each(m, kind, natives@.take(i as int), parent);
                assert(natives@.take(i as int + 1).drop_last() =~= natives@.take(i as int));
            }
            let retains = vec![parent];
            assert(retains@ =~= seq![parent]);
            assert(all_alive(self@, seq![parent]));
            assert(all_fit(self@, seq![parent]));
            let adopted = self.adopt(kind, natives[i], retains);
            ids.push(adopted.unwrap());
            i = i + 1;
        }
        assert(natives@.take(n as int) =~= natives@);
        Ok(ids)
    }
}

} // verus!
