use arg_cell::Arg;
use arg_cell::ArgError;
use arg_cell::ArgValue;
use arg_cell::DynValue;
use arg_cell::Dynamic;
use arg_cell::Ownership;
use arg_cell::Tag;
use std::ops::Deref;

#[test]
fn owned_u32_take_owned_round_trips() {
    let a = Arg::new(0, ArgValue::Owned(Box::new(DynValue::U32(1))));
    assert_eq!(a.take_owned::<u32>().unwrap(), 1u32);
}

#[test]
fn ref_cell_owned_take_reports_ownership_mismatch() {
    let v = DynValue::U32(2);
    let a = Arg::new(1, ArgValue::Ref(&v));
    let e = a.take_owned::<u32>().unwrap_err();
    match e {
        ArgError::InvalidOwnership { index, expected, received } => {
            assert_eq!(index, 1);
            assert_eq!(expected, Ownership::Owned);
            assert_eq!(received, Ownership::Ref);
        }
        ArgError::UnexpectedType { .. } => panic!("expected an ownership mismatch"),
    }
}

#[test]
fn mut_cell_take_mut_writes_through_to_owner() {
    let mut v = DynValue::U32(3);
    {
        let a = Arg::new(2, ArgValue::Mut(&mut v));
        let m = a.take_mut::<u32>().unwrap();
        assert_eq!(*m, 3);
        *m = 10;
    }
    assert_eq!(v, DynValue::U32(10));
}

#[test]
fn owned_bool_take_owned_u32_reports_both_type_names() {
    let a = Arg::new(0, ArgValue::Owned(Box::new(DynValue::Bool(true))));
    let e = a.take_owned::<u32>().unwrap_err();
    match e {
        ArgError::UnexpectedType { index, expected, received } => {
            assert_eq!(index, 0);
            assert_eq!(expected, "u32");
            assert_eq!(received, "bool");
        }
        ArgError::InvalidOwnership { .. } => panic!("expected a type mismatch"),
    }
}

#[test]
fn generic_take_follows_the_requested_shape() {
    let a = Arg::new(0, ArgValue::Owned(Box::new(DynValue::U32(1))));
    assert_eq!(a.take::<u32>().unwrap(), 1);

    let v = DynValue::U32(2);
    let b = Arg::new(1, ArgValue::Ref(&v));
    assert_eq!(*b.take::<&u32>().unwrap(), 2);

    let mut w = DynValue::U32(3);
    {
        let c = Arg::new(2, ArgValue::Mut(&mut w));
        let m = c.take::<&mut u32>().unwrap();
        assert_eq!(*m, 3);
        *m = 4;
    }
    assert_eq!(w, DynValue::U32(4));
}

#[test]
fn generic_take_mismatches_fail_like_the_specific_takes() {
    let v = DynValue::U32(2);
    let a = Arg::new(4, ArgValue::Ref(&v));
    match a.take::<u32>().unwrap_err() {
        ArgError::InvalidOwnership { index, expected, received } => {
            assert_eq!((index, expected, received), (4, Ownership::Owned, Ownership::Ref));
        }
        ArgError::UnexpectedType { .. } => panic!("expected an ownership mismatch"),
    }

    let b = Arg::new(5, ArgValue::Owned(Box::new(DynValue::U32(9))));
    match b.take::<&mut u32>().unwrap_err() {
        ArgError::InvalidOwnership { index, expected, received } => {
            assert_eq!((index, expected, received), (5, Ownership::Mut, Ownership::Owned));
        }
        ArgError::UnexpectedType { .. } => panic!("expected an ownership mismatch"),
    }
}

#[test]
fn owned_take_on_mut_cell_is_ownership_not_type() {
    let mut v = DynValue::U32(8);
    let a = Arg::new(3, ArgValue::Mut(&mut v));
    match a.take_owned::<u32>().unwrap_err() {
        ArgError::InvalidOwnership { index, expected, received } => {
            assert_eq!((index, expected, received), (3, Ownership::Owned, Ownership::Mut));
        }
        ArgError::UnexpectedType { .. } => panic!("expected an ownership mismatch"),
    }
}

#[test]
fn take_ref_on_owned_and_mut_cells_reports_ownership() {
    let a = Arg::new(0, ArgValue::Owned(Box::new(DynValue::Bool(false))));
    match a.take_ref::<bool>().unwrap_err() {
        ArgError::InvalidOwnership { expected, received, .. } => {
            assert_eq!((expected, received), (Ownership::Ref, Ownership::Owned));
        }
        ArgError::UnexpectedType { .. } => panic!("expected an ownership mismatch"),
    }

    let mut v = DynValue::Bool(true);
    let b = Arg::new(1, ArgValue::Mut(&mut v));
    match b.take_ref::<bool>().unwrap_err() {
        ArgError::InvalidOwnership { expected, received, .. } => {
            assert_eq!((expected, received), (Ownership::Ref, Ownership::Mut));
        }
        ArgError::UnexpectedType { .. } => panic!("expected an ownership mismatch"),
    }
}

#[test]
fn take_mut_on_ref_cell_reports_ownership() {
    let v = DynValue::Char('a');
    let a = Arg::new(2, ArgValue::Ref(&v));
    match a.take_mut::<char>().unwrap_err() {
        ArgError::InvalidOwnership { index, expected, received } => {
            assert_eq!((index, expected, received), (2, Ownership::Mut, Ownership::Ref));
        }
        ArgError::UnexpectedType { .. } => panic!("expected an ownership mismatch"),
    }
}

#[test]
fn error_index_follows_reassignment() {
    let v = DynValue::Bool(false);
    let mut a = Arg::new(7, ArgValue::Ref(&v));
    assert_eq!(a.index(), 7);
    a.set_index(4);
    assert_eq!(a.index(), 4);
    let e = a.take_owned::<bool>().unwrap_err();
    assert_eq!(e.index(), 4);
}

#[test]
fn ref_type_mismatch_names_the_actual_type() {
    let v = DynValue::Char('x');
    let a = Arg::new(6, ArgValue::Ref(&v));
    match a.take_ref::<i64>().unwrap_err() {
        ArgError::UnexpectedType { index, expected, received } => {
            assert_eq!(index, 6);
            assert_eq!(expected, "i64");
            assert_eq!(received, "char");
        }
        ArgError::InvalidOwnership { .. } => panic!("expected a type mismatch"),
    }
}

#[test]
fn failed_mut_take_leaves_the_owner_value_untouched() {
    let mut v = DynValue::I64(-5);
    {
        let a = Arg::new(0, ArgValue::Mut(&mut v));
        match a.take_mut::<bool>().unwrap_err() {
            ArgError::UnexpectedType { expected, received, .. } => {
                assert_eq!(expected, "bool");
                assert_eq!(received, "i64");
            }
            ArgError::InvalidOwnership { .. } => panic!("expected a type mismatch"),
        }
    }
    assert_eq!(v, DynValue::I64(-5));
}

#[test]
fn value_inspection_does_not_consume_the_cell() {
    let a = Arg::new(0, ArgValue::Owned(Box::new(DynValue::Char('q'))));
    assert_eq!(a.value().deref().tag(), Tag::Char);
    assert_eq!(a.value().deref().type_path(), "char");
    assert_eq!(a.index(), 0);
    assert_eq!(a.take_owned::<char>().unwrap(), 'q');
}

#[test]
fn take_value_returns_the_value_unchanged_for_rewrapping() {
    let a = Arg::new(1, ArgValue::Owned(Box::new(DynValue::I64(42))));
    let v = a.take_value();
    assert_eq!(*v.deref(), DynValue::I64(42));
    let b = Arg::new(0, v);
    assert_eq!(b.take_owned::<i64>().unwrap(), 42);
}

#[test]
fn erase_builds_the_tagged_dynamic_value() {
    assert_eq!(9u32.erase(), DynValue::U32(9));
    assert_eq!((-3i64).erase(), DynValue::I64(-3));
    assert_eq!(true.erase(), DynValue::Bool(true));
    assert_eq!('z'.erase(), DynValue::Char('z'));
    let a = Arg::new(0, ArgValue::Owned(Box::new('z'.erase())));
    assert_eq!(a.take_owned::<char>().unwrap(), 'z');
}

#[test]
fn each_payload_type_round_trips_owned() {
    let a = Arg::new(0, ArgValue::Owned(Box::new(DynValue::I64(-77))));
    assert_eq!(a.take_owned::<i64>().unwrap(), -77);
    let b = Arg::new(1, ArgValue::Owned(Box::new(DynValue::Bool(true))));
    assert!(b.take_owned::<bool>().unwrap());
    let c = Arg::new(2, ArgValue::Owned(Box::new(DynValue::Char('k'))));
    assert_eq!(c.take_owned::<char>().unwrap(), 'k');
}

#[test]
fn take_ref_borrows_the_callers_data() {
    let v = DynValue::I64(123);
    let a = Arg::new(0, ArgValue::Ref(&v));
    let r = a.take_ref::<i64>().unwrap();
    assert_eq!(*r, 123);
    assert_eq!(v, DynValue::I64(123));
}

#[test]
fn tag_names_are_the_concrete_type_names() {
    assert_eq!(arg_cell::tag_path_string(Tag::U32), "u32");
    assert_eq!(arg_cell::tag_path_string(Tag::I64), "i64");
    assert_eq!(arg_cell::tag_path_string(Tag::Bool), "bool");
    assert_eq!(arg_cell::tag_path_string(Tag::Char), "char");
    assert_eq!(<u32 as Dynamic>::type_path(), "u32");
    assert_eq!(<char as Dynamic>::type_path(), "char");
    assert_eq!(<bool as Dynamic>::runtime_tag(), Tag::Bool);
    assert_eq!(DynValue::I64(0).tag(), Tag::I64);
    assert_eq!(DynValue::U32(1).type_path(), "u32");
}
