use lazy_struct_diff::{
    CombinedStruct, DiffData, DiffIter, DummyType3, FieldIdentifier, LazyDiff, MyEnum,
    SimpleStruct, StructUnnamedFields, ValueRef,
};

fn collect_all<'a, 'b>(mut it: DiffIter<'a, 'b>) -> Vec<DiffData<'a, 'b>> {
    let mut out = Vec::new();
    while let Some(d) = it.next() {
        out.push(d);
    }
    out
}

#[test]
fn test_basic_struct() {
    let dt = SimpleStruct {
        field1: 1,
        field2: 2,
        field3: 3,
    };
    let mut other = dt.clone();
    other.field2 = 3;
    let result: Vec<_> = collect_all(dt.lazy_diff_iter(&other));
    assert_eq!(result.len(), 1);
    let diff = &result[0];
    assert_eq!(diff.field.to_string(), "field2");
}

#[test]
fn test_inner_struct() {
    let dt = CombinedStruct {
        field1: SimpleStruct {
            field1: 1,
            field2: 2,
            field3: 3,
        },
        field2: StructUnnamedFields(1, 2),
        field3: MyEnum::Three { field: 1 },
        field4: DummyType3,
    };
    let mut other = dt.clone();
    other.field1.field2 = 3;
    other.field2.1 = 3;
    other.field3 = MyEnum::Three { field: 2 };
    let diff: Vec<_> = collect_all(dt.lazy_diff_iter(&other));
    assert_eq!(diff[0].field.to_string(), "field1.field2");
    assert_eq!(diff[1].field.to_string(), "field2.1");
    assert_eq!(diff[2].field.to_string(), "field3.Three.field");
}

#[test]
fn test_primitive_equal() {
    let a: u64 = 5;
    let b: u64 = 5;
    let result = collect_all(a.lazy_diff_iter(&b));
    assert_eq!(result.len(), 0);
}

#[test]
fn test_primitive_unequal() {
    let a: u64 = 5;
    let b: u64 = 7;
    let result = collect_all(a.lazy_diff_iter(&b));
    assert_eq!(result.len(), 1);
    assert_eq!(result[0].field.to_string(), "");
    match result[0].self_value {
        ValueRef::U64(v) => assert_eq!(*v, 5),
        _ => panic!("left side should reference the first leaf"),
    }
    match result[0].other_value {
        ValueRef::U64(v) => assert_eq!(*v, 7),
        _ => panic!("right side should reference the second leaf"),
    }
}

#[test]
fn test_unit_variant_equal() {
    let a = MyEnum::One;
    let b = MyEnum::One;
    let result = collect_all(a.lazy_diff_iter(&b));
    assert_eq!(result.len(), 0);
}

#[test]
fn test_cross_variant() {
    let a = MyEnum::Three { field: 1 };
    let b = MyEnum::Four(1, 2);
    let result = collect_all(a.lazy_diff_iter(&b));
    assert_eq!(result.len(), 1);
    assert_eq!(result[0].field.to_string(), "");
    match result[0].self_value {
        ValueRef::Sum(v) => assert!(*v == MyEnum::Three { field: 1 }),
        _ => panic!("left side should reference the whole enum value"),
    }
    match result[0].other_value {
        ValueRef::Sum(v) => assert!(*v == MyEnum::Four(1, 2)),
        _ => panic!("right side should reference the whole enum value"),
    }
}

#[test]
fn test_unit_struct() {
    let a = DummyType3;
    let b = DummyType3;
    let result = collect_all(a.lazy_diff_iter(&b));
    assert_eq!(result.len(), 0);
}

#[test]
fn test_three_same_variant() {
    let a = MyEnum::Three { field: 1 };
    let b = MyEnum::Three { field: 2 };
    let result = collect_all(a.lazy_diff_iter(&b));
    assert_eq!(result.len(), 1);
    assert_eq!(result[0].field.to_string(), "Three.field");
}

#[test]
fn test_four_same_variant() {
    let a = MyEnum::Four(1, 2);
    let b = MyEnum::Four(3, 4);
    let result = collect_all(a.lazy_diff_iter(&b));
    assert_eq!(result.len(), 2);
    assert_eq!(result[0].field.to_string(), "Four.0");
    assert_eq!(result[1].field.to_string(), "Four.1");
}

#[test]
fn test_product_order() {
    let a = SimpleStruct {
        field1: 1,
        field2: 2,
        field3: 3,
    };
    let b = SimpleStruct {
        field1: 4,
        field2: 5,
        field3: 6,
    };
    let result = collect_all(a.lazy_diff_iter(&b));
    assert_eq!(result.len(), 3);
    assert_eq!(result[0].field.to_string(), "field1");
    assert_eq!(result[1].field.to_string(), "field2");
    assert_eq!(result[2].field.to_string(), "field3");
}

#[test]
fn test_laziness() {
    // Two pending leaves chained by hand: pulling the first record must
    // leave the second branch of the chain untouched.
    let left1: u64 = 1;
    let right1: u64 = 2;
    let left2: u64 = 3;
    let right2: u64 = 4;
    let mut it = DiffIter::Chain {
        first: Box::new(DiffIter::Leaf {
            left: ValueRef::U64(&left1),
            right: ValueRef::U64(&right1),
        }),
        second: Box::new(DiffIter::Leaf {
            left: ValueRef::U64(&left2),
            right: ValueRef::U64(&right2),
        }),
    };
    let first = it.next();
    assert!(first.is_some());
    match it {
        DiffIter::Chain { second, .. } => match *second {
            DiffIter::Leaf { left, .. } => match left {
                ValueRef::U64(v) => assert_eq!(*v, 3),
                _ => panic!("the pending leaf should still hold the untouched value"),
            },
            _ => panic!("the second branch should still be a pending leaf"),
        },
        _ => panic!("the chain frame should still be in place"),
    }
}

#[test]
fn test_single_pass() {
    let a: u64 = 1;
    let b: u64 = 2;
    let mut it = a.lazy_diff_iter(&b);
    assert!(it.next().is_some());
    assert!(it.next().is_none());
    assert!(it.next().is_none());
}

#[test]
fn test_push_field() {
    let a: u64 = 1;
    let b: u64 = 2;
    let mut it = a.lazy_diff_iter(&b);
    let record = it.next().unwrap();
    let record = record.push_field("inner");
    let record = record.push_field("outer");
    assert_eq!(record.field.to_string(), "outer.inner");
    assert_eq!(record.path_string(), "outer.inner");
}

#[test]
fn test_path_render() {
    let empty = FieldIdentifier::new();
    assert_eq!(empty.to_string(), "");
    let mut path = FieldIdentifier::new();
    path.push("inner");
    assert_eq!(path.to_string(), "inner");
    path.push("middle");
    path.push("outer");
    assert_eq!(path.to_string(), "outer.middle.inner");
}
