//! What is kept beside the records of a table.

use vstd::prelude::*;
use crate::ownership::ObjectId;

verus! {

/// What is kept of a value that is given when `before` was kept already: what
/// was kept before if anything was, and otherwise the value that is given now.
pub open spec fn kept<T>(before: Option<T>, given: T) -> Option<T> {
    match before {
        Some(first) => Some(first),
        None => Some(given),
    }
}

/// The first value that is kept stands.  Whatever is given after a value has
/// been kept changes nothing.
pub proof fn law_first_kept_stands<T>(before: Option<T>, first: T, second: T)
    ensures
        kept(before, first) is Some,
        kept(kept(before, first), second) == kept(before, first),
        before is None ==> kept(kept(before, first), second) == Some(first),
{
}

/// One value beside each record of a table, for the records that have one.
/// The value belongs to the record, not to a handle: every handle on the
/// record finds it.  It is written once; the first value stands.
pub struct Kept<T> {
    slots: Vec<Option<T>>,
}

impl<T> Kept<T> {
    /// What is kept beside `record`, if anything is.
    pub closed spec fn at(&self, record: int) -> Option<T> {
        if 0 <= record < self.slots@.len() {
            self.slots@[record]
        } else {
            None
        }
    }

    /// Nothing is kept yet.
    pub fn new() -> (kept: Kept<T>)
        ensures
            forall|record: int| kept.at(record) is None,
    {
        Kept { slots: Vec::new() }
    }

    /// What is kept beside the record `id`, if anything is.
    pub fn get(&self, id: ObjectId) -> (value: Option<&T>)
        ensures
            match value {
                Some(found) => self.at(id@) == Some(*found),
                None => self.at(id@) is None,
            },
    {
        if id.index < self.slots.len() {
            self.slots[id.index].as_ref()
        } else {
            None
        }
    }

    /// Keeps `value` beside the record `id`, unless a value is kept there
    /// already.  What is kept beside the other records stays.
    pub fn keep(&mut self, id: ObjectId, value: T)
        ensures
            final(self).at(id@) == kept(old(self).at(id@), value),
            forall|record: int| record != id@ ==> final(self).at(record) == old(self).at(record),
    {
        while self.slots.len() <= id.index
            invariant
                forall|record: int| self.at(record) == old(self).at(record),
            decreases id.index + 1 - self.slots@.len(),
        {
            self.slots.push(None);
        }
        if self.slots[id.index].is_none() {
            self.slots.set(id.index, Some(value));
        }
    }
}

} // verus!
