use opaque_handle::DispatchHandle;
use opaque_handle::DispatchHeap;
use opaque_handle::ICD_LOADER_MAGIC;
use opaque_handle::VK_NULL_HANDLE;

#[test]
fn loader_magic_is_the_fixed_constant() {
    assert_eq!(ICD_LOADER_MAGIC, 0x01CDC0DE);
    assert_eq!(ICD_LOADER_MAGIC, 30_261_470);
}

#[test]
fn dispatch_new_then_unbox_returns_the_payload() {
    let mut heap = DispatchHeap::new();
    let handle = DispatchHandle::new("device".to_string(), &mut heap);
    assert_eq!(handle.unbox(&mut heap), Some("device".to_string()));
}

#[test]
fn dispatch_payload_may_equal_the_magic() {
    let mut heap = DispatchHeap::new();
    let handle = DispatchHandle::new(ICD_LOADER_MAGIC, &mut heap);
    assert_eq!(handle.as_ref(&heap), Some(&ICD_LOADER_MAGIC));
    assert!(heap.is_dispatchable(handle.to_address()));
    let zero = DispatchHandle::new(0u64, &mut heap);
    assert!(heap.is_dispatchable(zero.to_address()));
    assert_eq!(zero.unbox(&mut heap), Some(0u64));
    assert_eq!(handle.unbox(&mut heap), Some(ICD_LOADER_MAGIC));
}

#[test]
fn dispatch_allocate_then_init_is_new() {
    let mut heap = DispatchHeap::new();
    let storage = DispatchHandle::allocate();
    let handle = storage.init([1u8, 2, 3], &mut heap);
    assert_eq!(handle.to_address(), 1);
    assert_eq!(handle.deref(&heap), &[1u8, 2, 3]);
    assert_eq!(handle.borrow(&heap), &[1u8, 2, 3]);
    assert_eq!(handle.unbox(&mut heap), Some([1u8, 2, 3]));
}

#[test]
fn dispatch_null_handle_gives_nothing() {
    let mut heap: DispatchHeap<u32> = DispatchHeap::new();
    let _live = DispatchHandle::new(5u32, &mut heap);
    let handle: DispatchHandle<u32> = DispatchHandle::null();
    assert_eq!(handle.to_address(), VK_NULL_HANDLE);
    assert!(handle.as_ref(&heap).is_none());
    assert_eq!(handle.unbox(&mut heap), None);
    assert!(!heap.is_dispatchable(VK_NULL_HANDLE));
}

#[test]
fn dispatch_objects_are_known_to_the_loader_while_in_store() {
    let mut heap = DispatchHeap::new();
    assert!(!heap.is_dispatchable(1));
    let first = DispatchHandle::new(1.5f32, &mut heap);
    let second = DispatchHandle::new(2.5f32, &mut heap);
    assert!(heap.is_dispatchable(first.to_address()));
    assert!(heap.is_dispatchable(second.to_address()));
    assert!(!heap.is_dispatchable(3));
    assert!(!heap.is_dispatchable(usize::MAX));
    assert_eq!(first.unbox(&mut heap), Some(1.5f32));
    assert!(!heap.is_dispatchable(first.to_address()));
    assert!(heap.is_dispatchable(second.to_address()));
}

#[test]
fn dispatch_consumed_handle_gives_nothing_more() {
    let mut heap = DispatchHeap::new();
    let handle = DispatchHandle::new(vec![1u16], &mut heap);
    let other = DispatchHandle::new(vec![2u16], &mut heap);
    assert_eq!(handle.unbox(&mut heap), Some(vec![1u16]));
    assert_eq!(handle.unbox(&mut heap), None);
    assert!(handle.as_ref(&heap).is_none());
    assert_eq!(other.as_ref(&heap), Some(&vec![2u16]));
}

#[test]
fn dispatch_clones_are_equal_and_name_the_same_object() {
    let mut heap = DispatchHeap::new();
    let first = DispatchHandle::new(100i32, &mut heap);
    let copy = first.clone();
    assert_eq!(first, copy);
    assert_eq!(first.as_ref(&heap), Some(&100i32));
    assert_eq!(copy.as_ref(&heap), Some(&100i32));
    assert_eq!(copy.deref(&heap), &100i32);
    assert_eq!(copy.unbox(&mut heap), Some(100i32));
    assert!(first.as_ref(&heap).is_none());
}

#[test]
fn dispatch_equality_is_identity_not_content() {
    let mut heap = DispatchHeap::new();
    let first = DispatchHandle::new(1u8, &mut heap);
    let second = DispatchHandle::new(1u8, &mut heap);
    assert!(first == first);
    assert!(first != second);
    assert!(second != first);
    let null_one: DispatchHandle<u8> = DispatchHandle::null();
    let null_two: DispatchHandle<u8> = DispatchHandle::null();
    assert!(null_one == null_two);
}

#[test]
fn dispatch_addresses_are_not_reused() {
    let mut heap = DispatchHeap::new();
    let a = DispatchHandle::new('a', &mut heap);
    assert_eq!(a.unbox(&mut heap), Some('a'));
    let b = DispatchHandle::new('b', &mut heap);
    assert_eq!(b.to_address(), 2);
    assert!(a.as_ref(&heap).is_none());
}

#[test]
fn dispatch_handle_survives_the_trip_over_the_boundary() {
    let mut heap = DispatchHeap::new();
    let handle = DispatchHandle::new(99u64, &mut heap);
    let back: DispatchHandle<u64> = DispatchHandle::from_address(handle.to_address());
    assert!(back == handle);
    assert_eq!(back.unbox(&mut heap), Some(99u64));
}

#[test]
fn dispatch_made_up_address_names_nothing() {
    let mut heap = DispatchHeap::new();
    let _live = DispatchHandle::new(1u8, &mut heap);
    for addr in [0usize, 2, 4096, usize::MAX] {
        let forged: DispatchHandle<u8> = DispatchHandle::from_address(addr);
        assert!(forged.as_ref(&heap).is_none());
        assert_eq!(forged.unbox(&mut heap), None);
        assert!(!heap.is_dispatchable(addr));
    }
    assert!(heap.is_dispatchable(1));
}
