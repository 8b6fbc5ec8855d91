use unique_ptr::PtrError;
use unique_ptr::UniquePtr;

#[test]
fn adopt_value_then_read() {
    let h = UniquePtr::adopt_value(42);
    assert_eq!(h.as_ref(), Ok(&42));
}

#[test]
fn new_runs_factory_once() {
    let mut calls = 0;
    let h = UniquePtr::new(|| {
        calls += 1;
        7u32
    });
    assert_eq!(calls, 1);
    assert_eq!(h.as_ref(), Ok(&7));
    assert!(!h.is_sequence());
}

#[test]
fn default_wraps_default_value() {
    let h = UniquePtr::<u32>::default();
    assert_eq!(h.as_ref(), Ok(&0));
    assert!(!h.is_sequence());
}

#[test]
fn single_value_scenario() {
    let mut h1 = UniquePtr::adopt_value(42);
    assert_eq!(h1.get_mut(), Ok(&mut 42));
    if let Ok(v) = h1.get_mut() {
        *v = 43;
    }
    let mut h2 = UniquePtr::adopt_value(0);
    h2.move_from(&mut h1);
    assert_eq!(h1.get_mut(), Err(PtrError::UseAfterMove));
    assert_eq!(h1.as_ref(), Err(PtrError::UseAfterMove));
    assert_eq!(h2.as_ref(), Ok(&43));
    assert_eq!(h2.into_raw_owned(), Ok(43));
    assert!(!h1.release());
    assert!(!h2.release());
}

#[test]
fn sequence_scenario() {
    let mut hs = UniquePtr::adopt_sequence(vec![1, 2, 3]);
    assert!(hs.is_sequence());
    assert_eq!(hs.into_raw_owned(), Err(PtrError::ShapeMismatch));
    assert_eq!(hs.into_sequence(), Ok(vec![1, 2, 3]));
    assert_eq!(hs.as_ref(), Err(PtrError::UseAfterMove));
    assert!(!hs.release());
}

#[test]
fn wrong_shape_extraction_changes_nothing() {
    let mut h = UniquePtr::adopt_value(9);
    assert_eq!(h.into_sequence(), Err(PtrError::ShapeMismatch));
    assert_eq!(h.as_ref(), Ok(&9));
    let mut hs = UniquePtr::adopt_sequence(vec![4, 5]);
    assert_eq!(hs.into_raw_owned(), Err(PtrError::ShapeMismatch));
    assert_eq!(hs.as_ref(), Ok(&4));
}

#[test]
fn empty_handle_keeps_shape() {
    let mut hs = UniquePtr::adopt_sequence(vec![8]);
    assert_eq!(hs.into_sequence(), Ok(vec![8]));
    assert!(hs.is_sequence());
    assert_eq!(hs.into_raw_owned(), Err(PtrError::ShapeMismatch));
    assert_eq!(hs.into_sequence(), Err(PtrError::UseAfterMove));
}

#[test]
fn release_is_idempotent() {
    let mut h = UniquePtr::adopt_value(1);
    assert!(h.release());
    assert!(!h.release());
    assert_eq!(h.as_ref(), Err(PtrError::UseAfterMove));
    let mut hs = UniquePtr::adopt_sequence(vec![1, 2]);
    assert!(hs.release());
    assert!(!hs.release());
}

#[test]
fn extraction_counts_as_the_release() {
    let mut h = UniquePtr::adopt_value(5);
    assert_eq!(h.into_raw_owned(), Ok(5));
    assert!(!h.release());
    assert_eq!(h.into_raw_owned(), Err(PtrError::UseAfterMove));
}

#[test]
fn get_mut_gives_first_element_of_sequence() {
    let mut hs = UniquePtr::adopt_sequence(vec![10, 20, 30]);
    if let Ok(first) = hs.get_mut() {
        assert_eq!(*first, 10);
        *first = 11;
    } else {
        panic!("access to an owning sequence handle failed");
    }
    assert_eq!(hs.into_sequence(), Ok(vec![11, 20, 30]));
}

#[test]
fn empty_sequence_access_is_shape_mismatch() {
    let mut hs = UniquePtr::adopt_sequence(Vec::<i32>::new());
    assert_eq!(hs.as_ref(), Err(PtrError::ShapeMismatch));
    assert_eq!(hs.get_mut(), Err(PtrError::ShapeMismatch));
    assert_eq!(hs.as_mut(), Err(PtrError::ShapeMismatch));
    assert_eq!(hs.into_sequence(), Ok(Vec::new()));
}

#[test]
fn as_mut_writes_through() {
    let mut h = UniquePtr::adopt_value(3);
    if let Ok(v) = h.as_mut() {
        *v = 4;
    }
    assert_eq!(h.into_raw_owned(), Ok(4));
    assert_eq!(h.as_mut(), Err(PtrError::UseAfterMove));
}

#[test]
fn move_from_transfers_sequences_and_shape() {
    let mut src = UniquePtr::adopt_sequence(vec![1, 2]);
    let mut dst = UniquePtr::adopt_value(0);
    dst.move_from(&mut src);
    assert!(dst.is_sequence());
    assert!(src.is_sequence());
    assert_eq!(src.as_ref(), Err(PtrError::UseAfterMove));
    assert_eq!(dst.into_sequence(), Ok(vec![1, 2]));
}

#[test]
fn equality_reflects_payload() {
    assert_eq!(UniquePtr::adopt_value(5), UniquePtr::adopt_value(5));
    assert_ne!(UniquePtr::adopt_value(5), UniquePtr::adopt_value(6));
    let mut e1 = UniquePtr::adopt_value(1);
    let mut e2 = UniquePtr::adopt_value(2);
    e1.release();
    e2.release();
    assert_eq!(e1, e2);
    assert_ne!(e1, UniquePtr::adopt_value(1));
    assert_ne!(UniquePtr::adopt_value(1), e2);
}

#[test]
fn empty_handles_of_either_shape_are_equal() {
    let mut single = UniquePtr::adopt_value(7);
    let mut seq = UniquePtr::adopt_sequence(vec![7]);
    assert_ne!(single, seq);
    single.release();
    seq.release();
    assert_eq!(single, seq);
}

#[test]
fn sequence_equality_is_elementwise() {
    assert_eq!(
        UniquePtr::adopt_sequence(vec![1, 2, 3]),
        UniquePtr::adopt_sequence(vec![1, 2, 3])
    );
    assert_ne!(
        UniquePtr::adopt_sequence(vec![1, 2, 3]),
        UniquePtr::adopt_sequence(vec![1, 2])
    );
    assert_ne!(
        UniquePtr::adopt_sequence(vec![1, 2, 3]),
        UniquePtr::adopt_sequence(vec![1, 2, 4])
    );
}

#[test]
fn clone_copies_payload_into_fresh_allocation() {
    let mut a = UniquePtr::adopt_value(5);
    let b = a.clone();
    assert_eq!(a, b);
    if let Ok(v) = a.as_mut() {
        *v = 6;
    }
    assert_eq!(a.as_ref(), Ok(&6));
    assert_eq!(b.as_ref(), Ok(&5));
}

#[test]
fn handles_work_as_hash_map_keys() {
    let mut table = std::collections::HashMap::new();
    table.insert(UniquePtr::adopt_value(5), "five");
    assert_eq!(table.get(&UniquePtr::adopt_value(5)), Some(&"five"));
    assert_eq!(table.get(&UniquePtr::adopt_value(6)), None);
}
