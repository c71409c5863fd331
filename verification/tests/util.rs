use xgpu::convert::MapInto;
use xgpu::util::stack_vec::StackVec;
use xgpu::util::FailFast;
use xgpu::{Features, Platform};

fn features(validation: bool) -> Features {
    Features { platform: Platform::Other, graphics: false, gpu_debugging: false, validation }
}

#[test]
fn a_stack_vec_fills_up_to_its_capacity() {
    let mut vec: StackVec<u32, 3> = StackVec::new();
    assert_eq!(vec.len(), 0);
    assert_eq!(vec.capacity(), 3);
    assert!(vec.as_slice().is_empty());
    vec.push(7);
    vec.push(8);
    vec.push(9);
    assert_eq!(vec.len(), 3);
    assert_eq!(vec.as_slice(), &[7, 8, 9][..]);
    assert_eq!(vec.len(), vec.capacity());
}

#[test]
fn a_stack_vec_gives_back_last_in_first_out() {
    let mut vec: StackVec<&str, 4> = StackVec::default();
    assert_eq!(vec.pop(), None);
    vec.push("a");
    vec.push("b");
    assert_eq!(vec.pop(), Some("b"));
    vec.push("c");
    assert_eq!(vec.as_slice(), &["a", "c"][..]);
    assert_eq!(vec.pop(), Some("c"));
    assert_eq!(vec.pop(), Some("a"));
    assert_eq!(vec.pop(), None);
    assert_eq!(vec.len(), 0);
}

#[test]
fn a_stack_vec_is_changed_in_place_through_its_slice() {
    let mut vec: StackVec<u8, 2> = StackVec::new();
    vec.push(1);
    vec.push(2);
    vec.as_mut_slice()[0] = 42;
    vec.as_mut_slice().swap(0, 1);
    assert_eq!(vec.as_slice(), &[2, 42][..]);
    assert_eq!(vec.len(), 2);
}

#[test]
fn failures_are_fatal_only_under_validation() {
    let ok: Result<u8, i32> = Ok(1);
    let err: Result<u8, i32> = Err(-1);
    assert!(!ok.is_fatal(&features(true)));
    assert!(!ok.is_fatal(&features(false)));
    assert!(err.is_fatal(&features(true)));
    assert!(!err.is_fatal(&features(false)));
    assert_eq!(ok.fail_fast(&features(true)), Ok(1));
    assert_eq!(err.fail_fast(&features(false)), Err(-1));
}

#[test]
fn map_into_converts_what_is_inside() {
    let some: Option<u8> = Some(5);
    let mapped: Option<u32> = some.map_into();
    assert_eq!(mapped, Some(5u32));
    let none: Option<u8> = None;
    let nothing: Option<u64> = none.map_into();
    assert_eq!(nothing, None);
    let ok: Result<u16, &str> = Ok(300);
    let wide: Result<i64, &str> = ok.map_into();
    assert_eq!(wide, Ok(300i64));
    let err: Result<u16, &str> = Err("no");
    let still: Result<u32, &str> = err.map_into();
    assert_eq!(still, Err("no"));
}

#[test]
fn a_stack_vec_is_made_of_the_items_it_is_given() {
    let mut vec: StackVec<u16, 3> = StackVec::from_vec(vec![5, 6]);
    assert_eq!(vec.len(), 2);
    assert_eq!(vec.as_slice(), &[5, 6][..]);
    vec.push(7);
    assert_eq!(vec.as_slice(), &[5, 6, 7][..]);
    assert_eq!(vec.pop(), Some(7));
}
