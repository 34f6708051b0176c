use jit::{Field, TagData, Type, TypeKind};

fn pos_type() -> Type {
    Type::new_struct(vec![
        Field::new(Some("x".to_string()), Type::primitive(TypeKind::Float64)),
        Field::new(Some("y".to_string()), Type::primitive(TypeKind::Float64)),
    ])
}

#[test]
fn test_struct() {
    let pos_t = pos_type();
    let f64_t = Type::primitive(TypeKind::Float64);
    for i in 0..pos_t.field_count() {
        let field = pos_t.field_at(i).unwrap();
        assert!(field.get_type().same_shape(&f64_t));
        assert_eq!(
            field.get_name().clone().unwrap(),
            match i {
                0 => "x",
                1 => "y",
                _ => unreachable!(),
            }
        );
    }
}

#[test]
fn test_tags() {
    let pos_t = pos_type();
    let kind = pos_t.get_kind();
    let key: u64 = 7;
    let val: i32 = 323;
    let pos_t = Type::create_tagged(pos_t, kind, TagData { key, bytes: val.to_le_bytes().to_vec() });
    assert_eq!(
        pos_t.get_tagged_data(key).map(|b| i32::from_le_bytes([b[0], b[1], b[2], b[3]])),
        Some(323)
    );
}

#[test]
fn tagged_data_mismatched_key_is_absent() {
    let base = Type::primitive(TypeKind::Int);
    let t = Type::create_tagged(base, TypeKind::Int, TagData { key: 1, bytes: vec![9, 9] });
    assert!(t.get_tagged_data(2).is_none());
    assert_eq!(t.get_tagged_data(1).map(|b| b.clone()), Some(vec![9, 9]));
}

#[test]
fn structural_equality_is_by_shape_not_identity() {
    let a = pos_type();
    let b = pos_type();
    assert!(a.same_shape(&b));

    let renamed = Type::new_struct(vec![
        Field::new(Some("x".to_string()), Type::primitive(TypeKind::Float64)),
        Field::new(Some("z".to_string()), Type::primitive(TypeKind::Float64)),
    ]);
    assert!(!a.same_shape(&renamed));

    let narrower = Type::new_struct(vec![Field::new(
        Some("x".to_string()),
        Type::primitive(TypeKind::Float64),
    )]);
    assert!(!a.same_shape(&narrower));
}

#[test]
fn tagged_equality_is_keyed_by_tag_kind() {
    let a = Type::create_tagged(
        Type::primitive(TypeKind::Int),
        TypeKind::Int,
        TagData { key: 1, bytes: vec![1] },
    );
    let b = Type::create_tagged(
        Type::primitive(TypeKind::Int),
        TypeKind::Int,
        TagData { key: 2, bytes: vec![2, 3] },
    );
    let c = Type::create_tagged(
        Type::primitive(TypeKind::Int),
        TypeKind::UInt,
        TagData { key: 1, bytes: vec![1] },
    );
    // The opaque data takes no part in the comparison; the tag kind does.
    assert!(a.same_shape(&b));
    assert!(!a.same_shape(&c));
}

#[test]
fn signature_and_pointer_shapes() {
    let s1 = Type::signature(
        vec![Type::primitive(TypeKind::NUInt)],
        Type::primitive(TypeKind::NUInt),
    );
    let s2 = Type::signature(
        vec![Type::primitive(TypeKind::NUInt)],
        Type::primitive(TypeKind::NUInt),
    );
    let s3 = Type::signature(
        vec![Type::primitive(TypeKind::NUInt)],
        Type::primitive(TypeKind::Int),
    );
    assert!(s1.same_shape(&s2));
    assert!(!s1.same_shape(&s3));
    assert_eq!(s1.param_count(), 1);
    assert_eq!(s1.get_kind(), TypeKind::Signature);

    let p = Type::pointer(Type::primitive(TypeKind::UByte));
    assert_eq!(p.get_kind(), TypeKind::Pointer);
    assert!(!p.same_shape(&Type::pointer(Type::primitive(TypeKind::Int))));
    assert!(p.same_shape(&Type::pointer(Type::primitive(TypeKind::UByte))));
}

#[test]
fn field_lookup_by_name() {
    let pos_t = pos_type();
    assert_eq!(pos_t.find_field("y"), Ok(1));
    assert_eq!(pos_t.find_field("x"), Ok(0));
    assert_eq!(pos_t.find_field("w"), Err(jit::JitError::NoSuchField));
}
