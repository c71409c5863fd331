use xgpu::ownership::{Destroy, ObjectId, ObjectKind, Kept, Objects};
use xgpu::Error;

fn destroy(index: usize, kind: ObjectKind, native: u64) -> Destroy {
    Destroy { object: ObjectId { index }, kind, native }
}

#[test]
fn a_new_table_holds_nothing() {
    let objects = Objects::new();
    assert_eq!(objects.len(), 0);
    assert!(!objects.is_alive(ObjectId { index: 0 }));
    assert_eq!(objects.kind(ObjectId { index: 0 }), None);
    assert_eq!(objects.native(ObjectId { index: 0 }), None);
    assert_eq!(objects.handles(ObjectId { index: 0 }), 0);
    assert_eq!(objects.retained(ObjectId { index: 0 }), 0);
    assert!(objects.retains(ObjectId { index: 0 }).is_empty());
    assert_eq!(objects.owner(ObjectId { index: 0 }), None);
}

#[test]
fn adopting_gives_one_handle_and_retains_the_parents() {
    let mut objects = Objects::new();
    let root = objects.adopt(ObjectKind::Root, 0x10, vec![]).unwrap();
    assert_eq!(root, ObjectId { index: 0 });
    let surface = objects.adopt(ObjectKind::Surface, 0x20, vec![root]).unwrap();
    assert_eq!(surface, ObjectId { index: 1 });
    assert_eq!(objects.len(), 2);
    assert_eq!(objects.kind(surface), Some(ObjectKind::Surface));
    assert_eq!(objects.native(surface), Some(0x20));
    assert_eq!(objects.handles(surface), 1);
    assert_eq!(objects.retained(surface), 0);
    assert_eq!(objects.retains(surface), vec![root]);
    assert_eq!(objects.handles(root), 1);
    assert_eq!(objects.retained(root), 1);
}

#[test]
fn a_parent_retained_twice_is_counted_twice() {
    let mut objects = Objects::new();
    let root = objects.adopt(ObjectKind::Root, 1, vec![]).unwrap();
    let child = objects.adopt(ObjectKind::Surface, 2, vec![root, root]).unwrap();
    assert_eq!(objects.retained(root), 2);
    assert!(objects.release(root).is_empty());
    assert_eq!(
        objects.release(child),
        vec![destroy(1, ObjectKind::Surface, 2), destroy(0, ObjectKind::Root, 1)]
    );
    assert_eq!(objects.retained(root), 0);
}

#[test]
fn the_last_of_many_handles_destroys_once() {
    for clones in [0usize, 1, 2, 7] {
        let mut objects = Objects::new();
        let fence = objects.adopt(ObjectKind::Fence, 0xF, vec![]).unwrap();
        for _ in 0..clones {
            assert_eq!(objects.share(fence), Ok(()));
        }
        assert_eq!(objects.handles(fence), clones + 1);
        for _ in 0..clones {
            assert!(objects.release(fence).is_empty());
            assert!(objects.is_alive(fence));
        }
        assert_eq!(objects.release(fence), vec![destroy(0, ObjectKind::Fence, 0xF)]);
        assert!(!objects.is_alive(fence));
        assert!(objects.release(fence).is_empty());
        assert!(!objects.is_alive(fence));
    }
}

#[test]
fn a_context_outlives_its_handle_while_a_command_buffer_lives() {
    let mut objects = Objects::new();
    let root = objects.adopt(ObjectKind::Root, 1, vec![]).unwrap();
    let context = objects.adopt(ObjectKind::Context, 2, vec![root]).unwrap();
    let pool = objects.adopt(ObjectKind::CommandPool, 3, vec![context]).unwrap();
    let buffer = objects.adopt(ObjectKind::CommandBuffer, 4, vec![pool, context]).unwrap();

    assert!(objects.release(context).is_empty());
    assert!(objects.is_alive(context));
    assert_eq!(objects.handles(context), 0);
    assert_eq!(objects.retained(context), 2);
    assert!(objects.release(context).is_empty());
    assert!(objects.is_alive(context));

    assert!(objects.release(pool).is_empty());
    assert!(objects.release(root).is_empty());

    assert_eq!(
        objects.release(buffer),
        vec![
            destroy(3, ObjectKind::CommandBuffer, 4),
            destroy(2, ObjectKind::CommandPool, 3),
            destroy(1, ObjectKind::Context, 2),
            destroy(0, ObjectKind::Root, 1),
        ]
    );
    assert!(!objects.is_alive(context));
    assert!(!objects.is_alive(root));
}

#[test]
fn what_a_record_retained_is_let_go_in_the_order_it_was_given() {
    let mut objects = Objects::new();
    let a = objects.adopt(ObjectKind::Surface, 10, vec![]).unwrap();
    let b = objects.adopt(ObjectKind::Context, 20, vec![]).unwrap();
    let child = objects.adopt(ObjectKind::Swapchain, 30, vec![b, a]).unwrap();
    assert!(objects.release(a).is_empty());
    assert!(objects.release(b).is_empty());
    assert_eq!(
        objects.release(child),
        vec![
            destroy(2, ObjectKind::Swapchain, 30),
            destroy(1, ObjectKind::Context, 20),
            destroy(0, ObjectKind::Surface, 10),
        ]
    );
}

#[test]
fn a_cascade_stops_at_what_is_still_held() {
    let mut objects = Objects::new();
    let root = objects.adopt(ObjectKind::Root, 1, vec![]).unwrap();
    let context = objects.adopt(ObjectKind::Context, 2, vec![root]).unwrap();
    let fence = objects.adopt(ObjectKind::Fence, 3, vec![context]).unwrap();
    assert!(objects.release(context).is_empty());
    assert_eq!(
        objects.release(fence),
        vec![destroy(2, ObjectKind::Fence, 3), destroy(1, ObjectKind::Context, 2)]
    );
    assert!(objects.is_alive(root));
    assert_eq!(objects.retained(root), 0);
    assert_eq!(objects.release(root), vec![destroy(0, ObjectKind::Root, 1)]);
}

#[test]
fn nothing_is_adopted_under_a_dead_parent() {
    let mut objects = Objects::new();
    let root = objects.adopt(ObjectKind::Root, 1, vec![]).unwrap();
    assert_eq!(objects.release(root).len(), 1);
    assert_eq!(objects.adopt(ObjectKind::Surface, 2, vec![root]), Err(Error::Released));
    assert_eq!(objects.adopt(ObjectKind::Surface, 2, vec![ObjectId { index: 9 }]), Err(Error::Released));
    assert_eq!(objects.len(), 1);
    assert_eq!(objects.share(root), Err(Error::Released));
    assert_eq!(objects.share(ObjectId { index: 9 }), Err(Error::Released));
}

#[test]
fn a_failed_adoption_counts_nothing() {
    let mut objects = Objects::new();
    let root = objects.adopt(ObjectKind::Root, 1, vec![]).unwrap();
    let gone = objects.adopt(ObjectKind::Fence, 2, vec![]).unwrap();
    assert_eq!(objects.release(gone).len(), 1);
    assert_eq!(objects.adopt(ObjectKind::Surface, 3, vec![root, gone]), Err(Error::Released));
    assert_eq!(objects.retained(root), 0);
    assert_eq!(objects.len(), 2);
}

#[test]
fn an_owner_and_its_member_are_entered_together() {
    let mut objects = Objects::new();
    let root = objects.adopt(ObjectKind::Root, 1, vec![]).unwrap();
    let (context, queue) = objects
        .adopt_cyclic(ObjectKind::Context, 2, vec![root], ObjectKind::Queue, 3)
        .unwrap();
    assert_eq!(queue, ObjectId { index: 1 });
    assert_eq!(context, ObjectId { index: 2 });
    assert_eq!(objects.kind(queue), Some(ObjectKind::Queue));
    assert_eq!(objects.native(queue), Some(3));
    assert_eq!(objects.handles(queue), 0);
    assert_eq!(objects.retained(queue), 1);
    assert_eq!(objects.owner(queue), Some(context));
    assert_eq!(objects.owner(context), None);
    assert_eq!(objects.retains(context), vec![root, queue]);
    assert_eq!(objects.handles(context), 1);
    assert_eq!(objects.retained(root), 1);
}

#[test]
fn a_member_does_not_keep_its_owner_alive() {
    let mut objects = Objects::new();
    let root = objects.adopt(ObjectKind::Root, 1, vec![]).unwrap();
    let (context, queue) = objects
        .adopt_cyclic(ObjectKind::Context, 2, vec![root], ObjectKind::Queue, 3)
        .unwrap();
    assert_eq!(objects.share(queue), Ok(()));
    assert_eq!(objects.release(context), vec![destroy(2, ObjectKind::Context, 2)]);
    assert!(!objects.is_alive(context));
    assert!(objects.is_alive(queue));
    assert_eq!(objects.owner(queue), None);
    assert!(objects.is_alive(root));
    assert_eq!(objects.release(queue), vec![destroy(1, ObjectKind::Queue, 3)]);
}

#[test]
fn an_owner_takes_its_unheld_member_with_it() {
    let mut objects = Objects::new();
    let root = objects.adopt(ObjectKind::Root, 1, vec![]).unwrap();
    let (context, _queue) = objects
        .adopt_cyclic(ObjectKind::Context, 2, vec![root], ObjectKind::Queue, 3)
        .unwrap();
    assert!(objects.release(root).is_empty());
    assert_eq!(
        objects.release(context),
        vec![
            destroy(2, ObjectKind::Context, 2),
            destroy(0, ObjectKind::Root, 1),
            destroy(1, ObjectKind::Queue, 3),
        ]
    );
}

#[test]
fn entering_reports_the_failure_of_the_creation() {
    let mut objects = Objects::new();
    assert_eq!(
        objects.enter(ObjectKind::Fence, vec![], Err(Error::ApiError(-4))),
        Err(Error::ApiError(-4))
    );
    assert_eq!(objects.len(), 0);
    assert_eq!(
        objects.enter(ObjectKind::Fence, vec![], Ok(77)),
        Ok((77, ObjectId { index: 0 }))
    );
    assert_eq!(objects.native(ObjectId { index: 0 }), Some(77));
}

#[test]
fn several_are_adopted_together_or_not_at_all() {
    let mut objects = Objects::new();
    let context = objects.adopt(ObjectKind::Context, 1, vec![]).unwrap();
    let ids = objects.adopt_each(ObjectKind::GraphicsPipeline, &vec![11, 12, 13], context).unwrap();
    assert_eq!(ids, vec![ObjectId { index: 1 }, ObjectId { index: 2 }, ObjectId { index: 3 }]);
    assert_eq!(objects.retained(context), 3);
    assert_eq!(objects.native(ids[1]), Some(12));
    assert_eq!(objects.retains(ids[2]), vec![context]);
    assert_eq!(objects.adopt_each(ObjectKind::GraphicsPipeline, &vec![], context), Ok(vec![]));

    assert!(objects.release(context).is_empty());
    assert_eq!(objects.release(ids[0]), vec![destroy(1, ObjectKind::GraphicsPipeline, 11)]);
    assert_eq!(objects.release(ids[1]), vec![destroy(2, ObjectKind::GraphicsPipeline, 12)]);
    assert_eq!(
        objects.release(ids[2]),
        vec![destroy(3, ObjectKind::GraphicsPipeline, 13), destroy(0, ObjectKind::Context, 1)]
    );
    assert_eq!(
        objects.adopt_each(ObjectKind::GraphicsPipeline, &vec![14], context),
        Err(Error::Released)
    );
    assert_eq!(objects.len(), 4);
}

#[test]
fn no_record_is_destroyed_twice_in_a_diamond() {
    let mut objects = Objects::new();
    let root = objects.adopt(ObjectKind::Root, 1, vec![]).unwrap();
    let left = objects.adopt(ObjectKind::Surface, 2, vec![root]).unwrap();
    let right = objects.adopt(ObjectKind::Context, 3, vec![root]).unwrap();
    let bottom = objects.adopt(ObjectKind::Swapchain, 4, vec![left, right]).unwrap();
    assert!(objects.release(root).is_empty());
    assert!(objects.release(left).is_empty());
    assert!(objects.release(right).is_empty());
    assert_eq!(
        objects.release(bottom),
        vec![
            destroy(3, ObjectKind::Swapchain, 4),
            destroy(1, ObjectKind::Surface, 2),
            destroy(2, ObjectKind::Context, 3),
            destroy(0, ObjectKind::Root, 1),
        ]
    );
}

#[test]
fn what_is_kept_beside_a_record_is_written_once() {
    let mut kept: Kept<Vec<u32>> = Kept::new();
    let (first, second, far) = (ObjectId { index: 0 }, ObjectId { index: 1 }, ObjectId { index: 40 });
    assert_eq!(kept.get(first), None);
    assert_eq!(kept.get(far), None);
    kept.keep(second, vec![1, 2]);
    assert_eq!(kept.get(second), Some(&vec![1, 2]));
    assert_eq!(kept.get(first), None);
    kept.keep(second, vec![9]);
    assert_eq!(kept.get(second), Some(&vec![1, 2]));
    kept.keep(far, vec![]);
    assert_eq!(kept.get(far), Some(&vec![]));
    assert_eq!(kept.get(ObjectId { index: 39 }), None);
    assert_eq!(kept.get(ObjectId { index: 41 }), None);
    kept.keep(first, vec![7]);
    assert_eq!(kept.get(first), Some(&vec![7]));
    assert_eq!(kept.get(second), Some(&vec![1, 2]));
}

#[test]
fn a_record_stands_for_its_native_object_whatever_is_done() {
    let mut objects = Objects::new();
    let root = objects.adopt(ObjectKind::Root, 0x10, vec![]).unwrap();
    assert!(objects.holds(root, 0x10));
    assert!(!objects.holds(root, 0x11));
    assert!(!objects.holds(ObjectId { index: 1 }, 0x10));
    let child = objects.adopt(ObjectKind::Fence, 0x20, vec![root]).unwrap();
    objects.share(child).unwrap();
    assert!(objects.holds(root, 0x10) && objects.holds(child, 0x20));
    objects.release(root);
    objects.release(child);
    assert_eq!(objects.release(child).len(), 2);
    assert!(!objects.is_alive(root) && !objects.is_alive(child));
    assert!(objects.holds(root, 0x10) && objects.holds(child, 0x20));
}
