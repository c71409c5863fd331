//! How the objects that a table gives up are destroyed.

use vstd::prelude::*;
use crate::api::traits::{orphan, orphaned};
use crate::error::Error;
use crate::ownership::laws::{law_child_goes_first, law_release};
use crate::ownership::{
    alive, consistent, destroyed_before, destroys, died, release, same_records, Destroy, Node,
    ObjectKind, Objects,
};

verus! {

/// The native call that destroys an object: which kind of object it destroys,
/// the object itself, and the instance or device on which the call is made.
#[derive(Debug, Copy, Clone, PartialEq, Eq, Structural)]
pub struct VulkanDestroy {
    pub kind: ObjectKind,
    pub handle: u64,
    /// The instance or device that the object was created on, or the null
    /// handle where the call names none.
    pub parent: u64,
}

/// The record that `id` retains in the given place, if it retains that many.
pub open spec fn retained_at(m: Seq<Node>, id: int, place: int) -> Option<int> {
    if 0 <= id < m.len() && 0 <= place < m[id].retains.len() {
        Some(m[id].retains[place]@)
    } else {
        None
    }
}

/// The record of the instance or device on which the object `id` is
/// destroyed, for an object whose destruction names one.  An instance and a
/// device are destroyed on their own; a queue goes with its device and a
/// command buffer with its pool, so that nothing is called for them.  A
/// surface is destroyed on its instance.  Everything else is destroyed on its
/// device, which a swapchain retains after its surface, and which a
/// framebuffer reaches through its render pass.
pub open spec fn destroyed_on(m: Seq<Node>, id: int) -> Option<int> {
    if 0 <= id < m.len() {
        match m[id].kind {
            ObjectKind::Root
            | ObjectKind::Context
            | ObjectKind::Queue
            | ObjectKind::CommandBuffer => None,
            ObjectKind::Swapchain => retained_at(m, id, 1),
            ObjectKind::Framebuffer => match retained_at(m, id, 0) {
                Some(render_pass) => retained_at(m, render_pass, 0),
                None => None,
            },
            _ => retained_at(m, id, 0),
        }
    } else {
        None
    }
}

/// The native call that carries out `action`.
pub open spec fn destruction(m: Seq<Node>, action: Destroy) -> VulkanDestroy {
    VulkanDestroy {
        kind: action.kind,
        handle: action.native,
        parent: match destroyed_on(m, action.object@) {
            Some(parent) if parent < m.len() => m[parent].native,
            _ => 0,
        },
    }
}

impl VulkanDestroy {
    /// Describes the native call that destroys what is left over when a
    /// constructor of an object of the kind `kind` was handed `native` and
    /// answered `taken`, where `parent` is the instance or device that the
    /// object was created on, or the null handle where destroying names none.
    /// Nothing is called where nothing was created, or where what was created
    /// was taken in.
    pub fn orphan<O>(
        kind: ObjectKind,
        parent: u64,
        native: Result<u64, i32>,
        taken: &Result<O, Error>,
    ) -> (call: Option<VulkanDestroy>)
        ensures
            call == match orphan(native, *taken) {
                Some(handle) => Some(VulkanDestroy { kind, handle, parent }),
                None => None,
            },
    {
        match orphaned(native, taken) {
            Some(handle) => Some(VulkanDestroy { kind, handle, parent }),
            None => None,
        }
    }

    /// Describes the native call that carries out `action`, which the table
    /// `objects` asked for.
    pub fn of(objects: &Objects, action: &Destroy) -> (call: VulkanDestroy)
        ensures
            call == destruction(objects@, *action),
    {
        let id = action.object;
        let on = match objects.kind(id) {
            None => None,
            Some(kind) => match kind {
                ObjectKind::Root
                | ObjectKind::Context
                | ObjectKind::Queue
                | ObjectKind::CommandBuffer => None,
                ObjectKind::Swapchain => objects.retained_at(id, 1),
                ObjectKind::Framebuffer => match objects.retained_at(id, 0) {
                    Some(render_pass) => objects.retained_at(render_pass, 0),
                    None => None,
                },
                _ => objects.retained_at(id, 0),
            },
        };
        let parent = match on {
            Some(parent) => match objects.native(parent) {
                Some(handle) => handle,
                None => 0,
            },
            None => 0,
        };
        VulkanDestroy { kind: action.kind, handle: action.native, parent }
    }
}

/// No destroying call is made on an instance or a device that is gone.  When
/// a release asks for the destruction of an object, the record on which the
/// object is destroyed was alive before the release, and the release has not
/// asked for its destruction yet; and the call is the same whether it is
/// described from the table as it was before the release or as it is after.
pub proof fn law_destroyed_on_the_living(m: Seq<Node>, id: int, j: int)
    requires
        consistent(m),
        0 <= j < release(m, id).1.len(),
    ensures
        ({
            let (after, actions) = release(m, id);
            &&& destruction(after, actions[j]) == destruction(m, actions[j])
            &&& destroyed_on(m, actions[j].object@) matches Some(parent) ==> {
                &&& 0 <= parent < m.len()
                &&& alive(m[parent])
                &&& destruction(m, actions[j]).parent == m[parent].native
                &&& forall|i: int| 0 <= i <= j ==> (#[trigger] actions[i]).object@ != parent
            }
        }),
{
    let (after, actions) = release(m, id);
    let c = actions[j].object@;
    law_release(m, id);
    assert(same_records(m, after));
    assert(0 <= c < m.len());
    assert(destroys(actions, c));
    assert(died(m, after, c));
    if let Some(parent) = destroyed_on(m, c) {
        let place: int = if m[c].kind is Swapchain {
            1
        } else {
            0
        };
        let first = m[c].retains[place]@;
        law_child_goes_first(m, id, c, place);
        if m[c].kind is Framebuffer {
            law_child_goes_first(m, id, first, 0);
            assert forall|i: int| 0 <= i <= j implies (#[trigger] actions[i]).object@ != parent by {
                if actions[i].object@ == parent {
                    assert(destroyed_before(actions, first, i));
                    let r = choose|r: int|
                        0 <= r < i && r < actions.len() && (#[trigger] actions[r]).object@ == first;
                    assert(destroyed_before(actions, c, r));
                }
            }
        } else {
            assert forall|i: int| 0 <= i <= j implies (#[trigger] actions[i]).object@ != parent by {
                if actions[i].object@ == parent {
                    assert(destroyed_before(actions, c, i));
                }
            }
        }
    }
}

} // verus!
