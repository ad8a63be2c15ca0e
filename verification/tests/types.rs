use threebody::error::DebugError;
use threebody::types::{
    unwind_type, BitByteSize, Endian, Modifier, TypeChild, TypeDie, TypeDisplay,
};

fn die(tag: u16) -> TypeDie {
    TypeDie {
        tag,
        name: None,
        encoding: None,
        byte_size: None,
        bit_size: None,
        endianity: None,
        type_ref: None,
        children: Vec::new(),
    }
}

fn child(tag: u16, name: &[u8]) -> TypeChild {
    TypeChild { tag, name: Some(name.to_vec()), type_ref: None, member_location: None, const_value: None }
}

#[test]
fn base_type_has_encoding_and_size() {
    let int = TypeDie { name: Some(b"int".to_vec()), encoding: Some(5), byte_size: Some(4), ..die(0x24) };
    match unwind_type(&int).unwrap() {
        TypeDisplay::Base { name, encoding, size, endian } => {
            assert_eq!(name, Some(b"int".to_vec()));
            assert_eq!(encoding, 5);
            assert_eq!(size, BitByteSize::Byte(4));
            assert_eq!(endian, None);
        }
        other => panic!("{:?}", other),
    }
}

#[test]
fn base_type_in_bits_with_byte_order() {
    let flag = TypeDie { encoding: Some(2), bit_size: Some(1), endianity: Some(1), ..die(0x24) };
    match unwind_type(&flag).unwrap() {
        TypeDisplay::Base { size, endian, .. } => {
            assert_eq!(size, BitByteSize::Bit(1));
            assert_eq!(endian, Some(Endian::Big));
        }
        other => panic!("{:?}", other),
    }
    let little = TypeDie { encoding: Some(2), byte_size: Some(2), bit_size: Some(9), endianity: Some(2), ..die(0x24) };
    match unwind_type(&little).unwrap() {
        TypeDisplay::Base { size, endian, .. } => {
            assert_eq!(size, BitByteSize::Byte(2));
            assert_eq!(endian, Some(Endian::Little));
        }
        other => panic!("{:?}", other),
    }
}

#[test]
fn base_type_without_encoding_or_size_is_corrupt() {
    assert_eq!(unwind_type(&TypeDie { byte_size: Some(4), ..die(0x24) }).err(), Some(DebugError::DwarfCorruption));
    assert_eq!(unwind_type(&TypeDie { encoding: Some(5), ..die(0x24) }).err(), Some(DebugError::DwarfCorruption));
}

#[test]
fn pointer_and_reference_name_their_target() {
    for tag in [0x0f, 0x10] {
        match unwind_type(&TypeDie { type_ref: Some(0x40), ..die(tag) }).unwrap() {
            TypeDisplay::Pointer { name, vtype } => {
                assert_eq!(name, None);
                assert_eq!(vtype, Some(0x40));
            }
            other => panic!("{:?}", other),
        }
    }
    assert!(matches!(unwind_type(&die(0x0f)).unwrap(), TypeDisplay::Pointer { vtype: None, .. }));
}

#[test]
fn modifiers_are_told_apart() {
    for (tag, want) in [
        (0x47, Modifier::Atomic),
        (0x26, Modifier::Const),
        (0x4b, Modifier::Immutable),
        (0x40, Modifier::Shared),
        (0x35, Modifier::Volatile),
    ] {
        match unwind_type(&TypeDie { type_ref: Some(8), ..die(tag) }).unwrap() {
            TypeDisplay::Modifier { vtype, modifier, .. } => {
                assert_eq!(vtype, Some(8));
                assert_eq!(modifier, want);
            }
            other => panic!("{:?}", other),
        }
    }
}

#[test]
fn array_needs_its_element_type() {
    match unwind_type(&TypeDie { type_ref: Some(0x40), byte_size: Some(40), ..die(0x01) }).unwrap() {
        TypeDisplay::Array { name, vtype, size } => {
            assert_eq!(name, None);
            assert_eq!(vtype, 0x40);
            assert_eq!(size, Some(BitByteSize::Byte(40)));
        }
        other => panic!("{:?}", other),
    }
    assert_eq!(unwind_type(&die(0x01)).err(), Some(DebugError::DwarfCorruption));
}

#[test]
fn structure_lists_its_members() {
    let point = TypeDie {
        name: Some(b"point".to_vec()),
        byte_size: Some(8),
        children: vec![
            TypeChild { type_ref: Some(0x40), member_location: Some(0), ..child(0x0d, b"x") },
            TypeChild { type_ref: Some(0x70), ..child(0x2e, b"method") },
            TypeChild { type_ref: Some(0x40), member_location: Some(4), ..child(0x0d, b"y") },
            TypeChild { type_ref: Some(0x50), name: None, ..child(0x0d, b"") },
        ],
        ..die(0x13)
    };
    for tag in [0x13, 0x17, 0x02] {
        match unwind_type(&TypeDie { tag, name: point.name.clone(), children: point.children.iter().map(|c| TypeChild { tag: c.tag, name: c.name.clone(), type_ref: c.type_ref, member_location: c.member_location, const_value: c.const_value }).collect(), ..die(tag) }).unwrap() {
            TypeDisplay::Struct { name, size, members } => {
                assert_eq!(name, Some(b"point".to_vec()));
                assert_eq!(size, None);
                let seen: Vec<_> = members.iter().map(|m| (m.name.clone(), m.vtype, m.offset)).collect();
                assert_eq!(
                    seen,
                    vec![
                        (Some(b"x".to_vec()), 0x40, 0),
                        (Some(b"y".to_vec()), 0x40, 4),
                        (None, 0x50, 0),
                    ]
                );
            }
            other => panic!("{:?}", other),
        }
    }
    assert!(matches!(unwind_type(&point).unwrap(), TypeDisplay::Struct { size: Some(BitByteSize::Byte(8)), .. }));
}

#[test]
fn member_without_type_is_corrupt() {
    let broken = TypeDie { children: vec![child(0x0d, b"x")], ..die(0x13) };
    assert_eq!(unwind_type(&broken).err(), Some(DebugError::DwarfCorruption));
}

#[test]
fn enumeration_lists_its_enumerators() {
    let colour = TypeDie {
        name: Some(b"colour".to_vec()),
        byte_size: Some(4),
        type_ref: Some(0x40),
        children: vec![
            TypeChild { const_value: Some(0), ..child(0x28, b"RED") },
            TypeChild { const_value: Some(7), ..child(0x0d, b"stray") },
            TypeChild { const_value: Some(2), ..child(0x28, b"BLUE") },
        ],
        ..die(0x04)
    };
    match unwind_type(&colour).unwrap() {
        TypeDisplay::Enum { name, vtype, size, enumerators } => {
            assert_eq!(name, Some(b"colour".to_vec()));
            assert_eq!(vtype, Some(0x40));
            assert_eq!(size, Some(BitByteSize::Byte(4)));
            let seen: Vec<_> = enumerators.iter().map(|e| (e.name.clone(), e.constant)).collect();
            assert_eq!(seen, vec![(b"RED".to_vec(), 0), (b"BLUE".to_vec(), 2)]);
        }
        other => panic!("{:?}", other),
    }
}

#[test]
fn enumerator_without_name_or_value_is_corrupt() {
    let no_value = TypeDie { children: vec![child(0x28, b"RED")], ..die(0x04) };
    assert_eq!(unwind_type(&no_value).err(), Some(DebugError::DwarfCorruption));
    let no_name = TypeDie {
        children: vec![TypeChild { name: None, const_value: Some(1), ..child(0x28, b"") }],
        ..die(0x04)
    };
    assert_eq!(unwind_type(&no_name).err(), Some(DebugError::DwarfCorruption));
}

#[test]
fn typedef_needs_a_name() {
    match unwind_type(&TypeDie { name: Some(b"size_t".to_vec()), type_ref: Some(0x30), ..die(0x16) }).unwrap() {
        TypeDisplay::Def { name, vtype } => {
            assert_eq!(name, b"size_t".to_vec());
            assert_eq!(vtype, Some(0x30));
        }
        other => panic!("{:?}", other),
    }
    assert_eq!(unwind_type(&die(0x16)).err(), Some(DebugError::DwarfCorruption));
}

#[test]
fn unknown_tag_is_unsupported() {
    assert_eq!(unwind_type(&die(0x2e)).err(), Some(DebugError::UnsupportedType));
    assert_eq!(unwind_type(&die(0x15)).err(), Some(DebugError::UnsupportedType));
    assert_eq!(unwind_type(&die(0)).err(), Some(DebugError::UnsupportedType));
}
