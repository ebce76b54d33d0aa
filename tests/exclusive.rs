use wee_alloc::bump::{AllocError, StaticBumpAllocator};
use wee_alloc::exclusive::ExclusiveCell;

#[test]
fn access_returns_what_the_operation_returned() {
    let mut cell: ExclusiveCell<u64, true> = ExclusiveCell::new(5);
    let r = cell.with_exclusive_access(|x: &mut u64| {
        *x += 2;
        *x * 10
    });
    assert_eq!(r, 70);
    assert_eq!(cell.with_exclusive_access(|x: &mut u64| *x), 7);
    assert!(!cell.is_in_use());
}

#[test]
fn access_with_unit_result() {
    let mut cell: ExclusiveCell<Vec<u8>, true> = ExclusiveCell::new(Vec::new());
    let r: () = cell.with_exclusive_access(|v: &mut Vec<u8>| v.push(9));
    assert_eq!(r, ());
    let r: () = cell.with_exclusive_access(|v: &mut Vec<u8>| v.push(4));
    assert_eq!(r, ());
    assert_eq!(cell.with_exclusive_access(|v: &mut Vec<u8>| v.clone()), vec![9, 4]);
}

#[test]
fn unchecked_cell_behaves_the_same() {
    let mut cell: ExclusiveCell<i32, false> = ExclusiveCell::new(-3);
    assert_eq!(cell.with_exclusive_access(|x: &mut i32| { *x *= 4; *x }), -12);
    assert_eq!(cell.with_exclusive_access(|x: &mut i32| *x - 1), -13);
    assert!(!cell.is_in_use());
}

#[test]
fn cell_guards_an_allocator() {
    let mut cell: ExclusiveCell<StaticBumpAllocator, true> =
        ExclusiveCell::new(StaticBumpAllocator::new(vec![0u8; 1024]));
    assert_eq!(cell.with_exclusive_access(|a: &mut StaticBumpAllocator| a.allocate_bytes(256)), Ok(0));
    assert_eq!(
        cell.with_exclusive_access(|a: &mut StaticBumpAllocator| a.allocate_bytes(768)),
        Err(AllocError)
    );
    assert_eq!(cell.with_exclusive_access(|a: &mut StaticBumpAllocator| a.allocate_bytes(512)), Ok(256));
    assert_eq!(cell.with_exclusive_access(|a: &mut StaticBumpAllocator| a.cursor()), 768);
}

#[test]
fn default_cell_holds_the_default_value() {
    let mut cell: ExclusiveCell<u32, true> = ExclusiveCell::default();
    assert!(!cell.is_in_use());
    assert_eq!(cell.with_exclusive_access(|x: &mut u32| *x), 0);
}
