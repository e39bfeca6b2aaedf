use opaque_handle::Handle;
use opaque_handle::Heap;

fn sorted(mut leaks: Vec<(usize, &'static str)>) -> Vec<(usize, &'static str)> {
    leaks.sort();
    leaks
}

#[test]
fn report_of_a_fresh_heap_is_empty() {
    let mut heap: Heap<u32> = Heap::new("u32");
    assert!(Handle::report_leaks(&mut heap).is_empty());
}

#[test]
fn report_lists_what_was_not_consumed() {
    let mut heap = Heap::new("u32");
    let handles: Vec<Handle<u32>> = (0..5u32).map(|n| Handle::new(n * 10, &mut heap)).collect();
    assert_eq!(handles[1].unbox(&mut heap), Some(10));
    assert_eq!(handles[3].unbox(&mut heap), Some(30));
    let leaks = sorted(Handle::report_leaks(&mut heap));
    assert_eq!(leaks, vec![(1, "u32"), (3, "u32"), (5, "u32")]);
}

#[test]
fn second_report_is_empty() {
    let mut heap = Heap::new("u32");
    let _a = Handle::new(1u32, &mut heap);
    let _b = Handle::new(2u32, &mut heap);
    assert_eq!(Handle::report_leaks(&mut heap).len(), 2);
    assert_eq!(Handle::report_leaks(&mut heap).len(), 0);
}

#[test]
fn report_counts_allocations_less_consumptions() {
    for allocated in 1..12usize {
        for consumed in 0..allocated {
            let mut heap = Heap::new("usize");
            let handles: Vec<Handle<usize>> =
                (0..allocated).map(|n| Handle::new(n, &mut heap)).collect();
            for handle in handles.iter().take(consumed) {
                assert!(handle.unbox(&mut heap).is_some());
            }
            let leaks = Handle::report_leaks(&mut heap);
            assert_eq!(leaks.len(), allocated - consumed);
            assert!(Handle::report_leaks(&mut heap).is_empty());
        }
    }
}

#[test]
fn report_is_empty_when_everything_was_consumed() {
    let mut heap = Heap::new("String");
    let a = Handle::new("a".to_string(), &mut heap);
    let b = Handle::new("b".to_string(), &mut heap);
    assert_eq!(b.unbox(&mut heap), Some("b".to_string()));
    assert_eq!(a.unbox(&mut heap), Some("a".to_string()));
    assert!(Handle::report_leaks(&mut heap).is_empty());
}

#[test]
fn report_carries_the_label_of_the_heap() {
    let mut heap = Heap::new("gfx::Buffer");
    let _leaked = Handle::new(0u8, &mut heap);
    assert_eq!(Handle::report_leaks(&mut heap), vec![(1, "gfx::Buffer")]);
}

#[test]
fn reported_handles_are_no_longer_registered_but_still_stored() {
    let mut heap = Heap::new("u32");
    let leaked = Handle::new(77u32, &mut heap);
    assert_eq!(Handle::report_leaks(&mut heap).len(), 1);
    assert!(!leaked.check(&heap));
    assert_eq!(leaked.as_ref(&heap), Some(&77u32));
}

#[test]
fn allocation_after_a_report_is_registered_again() {
    let mut heap = Heap::new("u32");
    let _leaked = Handle::new(1u32, &mut heap);
    assert_eq!(Handle::report_leaks(&mut heap).len(), 1);
    let later = Handle::new(2u32, &mut heap);
    assert!(later.check(&heap));
    assert_eq!(Handle::report_leaks(&mut heap), vec![(2, "u32")]);
}
