//! The type decoder: from the entry of a type to a description that can be
//! rendered.

use vstd::prelude::*;
use crate::error::DebugError;
use crate::functions::{clone_name, name_view, TAG_CLASS_TYPE, TAG_STRUCTURE_TYPE};
use crate::path::to_vec;

verus! {

/// `DW_TAG_array_type`
pub const TAG_ARRAY_TYPE: u16 = 0x01;

/// `DW_TAG_enumeration_type`
pub const TAG_ENUMERATION_TYPE: u16 = 0x04;

/// `DW_TAG_member`
pub const TAG_MEMBER: u16 = 0x0d;

/// `DW_TAG_pointer_type`
pub const TAG_POINTER_TYPE: u16 = 0x0f;

/// `DW_TAG_reference_type`
pub const TAG_REFERENCE_TYPE: u16 = 0x10;

/// `DW_TAG_typedef`
pub const TAG_TYPEDEF: u16 = 0x16;

/// `DW_TAG_union_type`
pub const TAG_UNION_TYPE: u16 = 0x17;

/// `DW_TAG_base_type`
pub const TAG_BASE_TYPE: u16 = 0x24;

/// `DW_TAG_const_type`
pub const TAG_CONST_TYPE: u16 = 0x26;

/// `DW_TAG_enumerator`
pub const TAG_ENUMERATOR: u16 = 0x28;

/// `DW_TAG_volatile_type`
pub const TAG_VOLATILE_TYPE: u16 = 0x35;

/// `DW_TAG_shared_type`
pub const TAG_SHARED_TYPE: u16 = 0x40;

/// `DW_TAG_atomic_type`
pub const TAG_ATOMIC_TYPE: u16 = 0x47;

/// `DW_TAG_immutable_type`
pub const TAG_IMMUTABLE_TYPE: u16 = 0x4b;

/// `DW_END_big`
pub const END_BIG: u8 = 0x01;

/// `DW_END_little`
pub const END_LITTLE: u8 = 0x02;

/// A child of a type's entry: a member of a structure or an enumerator.
#[derive(Debug)]
pub struct TypeChild {
    pub tag: u16,
    pub name: Option<Vec<u8>>,
    pub type_ref: Option<usize>,
    pub member_location: Option<u64>,
    pub const_value: Option<u64>,
}

/// A [`TypeChild`] as a value.
pub ghost struct TypeChildView {
    pub tag: u16,
    pub name: Option<Seq<u8>>,
    pub type_ref: Option<usize>,
    pub member_location: Option<u64>,
    pub const_value: Option<u64>,
}

impl View for TypeChild {
    type V = TypeChildView;

    open spec fn view(&self) -> TypeChildView {
        TypeChildView {
            tag: self.tag,
            name: name_view(self.name),
            type_ref: self.type_ref,
            member_location: self.member_location,
            const_value: self.const_value,
        }
    }
}

/// The entry of a type, as far as the decoder reads it.
#[derive(Debug)]
pub struct TypeDie {
    pub tag: u16,
    pub name: Option<Vec<u8>>,
    pub encoding: Option<u8>,
    pub byte_size: Option<u64>,
    pub bit_size: Option<u64>,
    pub endianity: Option<u8>,
    pub type_ref: Option<usize>,
    /// The entries directly below this one, in order.
    pub children: Vec<TypeChild>,
}

/// A [`TypeDie`] as a value.
pub ghost struct TypeDieView {
    pub tag: u16,
    pub name: Option<Seq<u8>>,
    pub encoding: Option<u8>,
    pub byte_size: Option<u64>,
    pub bit_size: Option<u64>,
    pub endianity: Option<u8>,
    pub type_ref: Option<usize>,
    pub children: Seq<TypeChildView>,
}

impl View for TypeDie {
    type V = TypeDieView;

    open spec fn view(&self) -> TypeDieView {
        TypeDieView {
            tag: self.tag,
            name: name_view(self.name),
            encoding: self.encoding,
            byte_size: self.byte_size,
            bit_size: self.bit_size,
            endianity: self.endianity,
            type_ref: self.type_ref,
            children: self.children@.map_values(|c: TypeChild| c@),
        }
    }
}

/// A size in bits or in bytes.
#[derive(PartialEq, Eq, Structural, Clone, Copy, Debug)]
pub enum BitByteSize {
    Bit(u64),
    Byte(u64),
}

/// A byte order named by a type.
#[derive(PartialEq, Eq, Structural, Clone, Copy, Debug)]
pub enum Endian {
    Little,
    Big,
}

/// What a modifier type adds to the type it wraps.
#[derive(PartialEq, Eq, Structural, Clone, Copy, Debug)]
pub enum Modifier {
    Atomic,
    Const,
    Immutable,
    Shared,
    Volatile,
}

/// A member of a structure, union or class.
#[derive(Debug)]
pub struct Member {
    pub name: Option<Vec<u8>>,
    pub vtype: usize,
    /// Offset of the member in bytes; 0 where the entry gives none.
    pub offset: u64,
}

/// An enumerator of an enumeration.
#[derive(Debug)]
pub struct Enumerator {
    pub name: Vec<u8>,
    pub constant: u64,
}

/// The description of a type.
#[derive(Debug)]
#[allow(inconsistent_fields)]
pub enum TypeDisplay {
    Base { name: Option<Vec<u8>>, encoding: u8, size: BitByteSize, endian: Option<Endian> },
    Pointer { name: Option<Vec<u8>>, vtype: Option<usize> },
    Modifier { name: Option<Vec<u8>>, vtype: Option<usize>, modifier: Modifier },
    Array { name: Option<Vec<u8>>, vtype: usize, size: Option<BitByteSize> },
    Struct { name: Option<Vec<u8>>, size: Option<BitByteSize>, members: Vec<Member> },
    Enum {
        name: Option<Vec<u8>>,
        vtype: Option<usize>,
        size: Option<BitByteSize>,
        enumerators: Vec<Enumerator>,
    },
    Def { name: Vec<u8>, vtype: Option<usize> },
}

/// A [`Member`] as a value.
pub ghost struct MemberView {
    pub name: Option<Seq<u8>>,
    pub vtype: usize,
    pub offset: u64,
}

/// An [`Enumerator`] as a value.
pub ghost struct EnumeratorView {
    pub name: Seq<u8>,
    pub constant: u64,
}

/// A [`TypeDisplay`] as a value.
#[allow(inconsistent_fields)]
pub ghost enum TypeView {
    Base { name: Option<Seq<u8>>, encoding: u8, size: BitByteSize, endian: Option<Endian> },
    Pointer { name: Option<Seq<u8>>, vtype: Option<usize> },
    Modifier { name: Option<Seq<u8>>, vtype: Option<usize>, modifier: Modifier },
    Array { name: Option<Seq<u8>>, vtype: usize, size: Option<BitByteSize> },
    Struct { name: Option<Seq<u8>>, size: Option<BitByteSize>, members: Seq<MemberView> },
    Enum {
        name: Option<Seq<u8>>,
        vtype: Option<usize>,
        size: Option<BitByteSize>,
        enumerators: Seq<EnumeratorView>,
    },
    Def { name: Seq<u8>, vtype: Option<usize> },
}

impl View for Member {
    type V = MemberView;

    open spec fn view(&self) -> MemberView {
        MemberView { name: name_view(self.name), vtype: self.vtype, offset: self.offset }
    }
}

impl View for Enumerator {
    type V = EnumeratorView;

    open spec fn view(&self) -> EnumeratorView {
        EnumeratorView { name: self.name@, constant: self.constant }
    }
}

impl View for TypeDisplay {
    type V = TypeView;

    open spec fn view(&self) -> TypeView {
        match self {
            TypeDisplay::Base { name, encoding, size, endian } => TypeView::Base {
                name: name_view(*name),
                encoding: *encoding,
                size: *size,
                endian: *endian,
            },
            TypeDisplay::Pointer { name, vtype } => TypeView::Pointer {
                name: name_view(*name),
                vtype: *vtype,
            },
            TypeDisplay::Modifier { name, vtype, modifier } => TypeView::Modifier {
                name: name_view(*name),
                vtype: *vtype,
                modifier: *modifier,
            },
            TypeDisplay::Array { name, vtype, size } => TypeView::Array {
                name: name_view(*name),
                vtype: *vtype,
                size: *size,
            },
            TypeDisplay::Struct { name, size, members } => TypeView::Struct {
                name: name_view(*name),
                size: *size,
                members: members@.map_values(|m: Member| m@),
            },
            TypeDisplay::Enum { name, vtype, size, enumerators } => TypeView::Enum {
                name: name_view(*name),
                vtype: *vtype,
                size: *size,
                enumerators: enumerators@.map_values(|e: Enumerator| e@),
            },
            TypeDisplay::Def { name, vtype } => TypeView::Def { name: name@, vtype: *vtype },
        }
    }
}

/// The size an entry gives: in bytes where it has `byte_size`, else in bits
/// where it has `bit_size`.
pub open spec fn size_of(die: TypeDieView) -> Option<BitByteSize> {
    match die.byte_size {
        Some(n) => Some(BitByteSize::Byte(n)),
        None => match die.bit_size {
            Some(n) => Some(BitByteSize::Bit(n)),
            None => None,
        },
    }
}

/// The byte order an entry names, where it names big or little.
pub open spec fn endian_of(die: TypeDieView) -> Option<Endian> {
    match die.endianity {
        Some(code) => if code == END_BIG {
            Some(Endian::Big)
        } else if code == END_LITTLE {
            Some(Endian::Little)
        } else {
            None
        },
        None => None,
    }
}

/// The modifier that a tag stands for.
pub open spec fn modifier_of(tag: u16) -> Option<Modifier> {
    if tag == TAG_ATOMIC_TYPE {
        Some(Modifier::Atomic)
    } else if tag == TAG_CONST_TYPE {
        Some(Modifier::Const)
    } else if tag == TAG_IMMUTABLE_TYPE {
        Some(Modifier::Immutable)
    } else if tag == TAG_SHARED_TYPE {
        Some(Modifier::Shared)
    } else if tag == TAG_VOLATILE_TYPE {
        Some(Modifier::Volatile)
    } else {
        None
    }
}

/// The members among the first `n` children; `None` where one of them has no
/// type.
pub open spec fn members_of(children: Seq<TypeChildView>, n: int) -> Option<Seq<MemberView>>
    decreases n,
{
    if n <= 0 {
        Some(Seq::empty())
    } else {
        let child = children[n - 1];
        match members_of(children, n - 1) {
            None => None,
            Some(rest) => if child.tag != TAG_MEMBER {
                Some(rest)
            } else if child.type_ref is None {
                None
            } else {
                Some(
                    rest.push(
                        MemberView {
                            name: child.name,
                            vtype: child.type_ref.unwrap(),
                            offset: match child.member_location {
                                Some(o) => o,
                                None => 0,
                            },
                        },
                    ),
                )
            },
        }
    }
}

/// The enumerators among the first `n` children; `None` where one of them
/// has no name or no value.
pub open spec fn enumerators_of(children: Seq<TypeChildView>, n: int) -> Option<
    Seq<EnumeratorView>,
>
    decreases n,
{
    if n <= 0 {
        Some(Seq::empty())
    } else {
        let child = children[n - 1];
        match enumerators_of(children, n - 1) {
            None => None,
            Some(rest) => if child.tag != TAG_ENUMERATOR {
                Some(rest)
            } else if child.name is None || child.const_value is None {
                None
            } else {
                Some(
                    rest.push(
                        EnumeratorView {
                            name: child.name.unwrap(),
                            constant: child.const_value.unwrap(),
                        },
                    ),
                )
            },
        }
    }
}

/// The description of the type that an entry stands for.
///
/// An entry with a tag that is no type's is `UnsupportedType`. An entry that
/// lacks what its kind cannot do without (the encoding and size of a base
/// type, the element type of an array, the name of a typedef, the type of a
/// member, the name and value of an enumerator) is `DwarfCorruption`.
pub open spec fn described(die: TypeDieView) -> Result<TypeView, DebugError> {
    let n = die.children.len() as int;
    if die.tag == TAG_BASE_TYPE {
        if die.encoding is Some && size_of(die) is Some {
            Ok(
                TypeView::Base {
                    name: die.name,
                    encoding: die.encoding.unwrap(),
                    size: size_of(die).unwrap(),
                    endian: endian_of(die),
                },
            )
        } else {
            Err(DebugError::DwarfCorruption)
        }
    } else if die.tag == TAG_POINTER_TYPE || die.tag == TAG_REFERENCE_TYPE {
        Ok(TypeView::Pointer { name: die.name, vtype: die.type_ref })
    } else if modifier_of(die.tag) is Some {
        Ok(
            TypeView::Modifier {
                name: die.name,
                vtype: die.type_ref,
                modifier: modifier_of(die.tag).unwrap(),
            },
        )
    } else if die.tag == TAG_ARRAY_TYPE {
        if die.type_ref is Some {
            Ok(TypeView::Array { name: die.name, vtype: die.type_ref.unwrap(), size: size_of(die) })
        } else {
            Err(DebugError::DwarfCorruption)
        }
    } else if die.tag == TAG_STRUCTURE_TYPE || die.tag == TAG_UNION_TYPE || die.tag
        == TAG_CLASS_TYPE {
        match members_of(die.children, n) {
            Some(members) => Ok(TypeView::Struct { name: die.name, size: size_of(die), members }),
            None => Err(DebugError::DwarfCorruption),
        }
    } else if die.tag == TAG_ENUMERATION_TYPE {
        match enumerators_of(die.children, n) {
            Some(enumerators) => Ok(
                TypeView::Enum {
                    name: die.name,
                    vtype: die.type_ref,
                    size: size_of(die),
                    enumerators,
                },
            ),
            None => Err(DebugError::DwarfCorruption),
        }
    } else if die.tag == TAG_TYPEDEF {
        if die.name is Some {
            Ok(TypeView::Def { name: die.name.unwrap(), vtype: die.type_ref })
        } else {
            Err(DebugError::DwarfCorruption)
        }
    } else {
        Err(DebugError::UnsupportedType)
    }
}

fn entry_size(die: &TypeDie) -> (size: Option<BitByteSize>)
    ensures
        size == size_of(die@),
{
    match die.byte_size {
        Some(n) => Some(BitByteSize::Byte(n)),
        None => match die.bit_size {
            Some(n) => Some(BitByteSize::Bit(n)),
            None => None,
        },
    }
}

fn entry_endian(die: &TypeDie) -> (endian: Option<Endian>)
    ensures
        endian == endian_of(die@),
{
    match die.endianity {
        Some(code) => if code == END_BIG {
            Some(Endian::Big)
        } else if code == END_LITTLE {
            Some(Endian::Little)
        } else {
            None
        },
        None => None,
    }
}

fn entry_modifier(tag: u16) -> (modifier: Option<Modifier>)
    ensures
        modifier == modifier_of(tag),
{
    if tag == TAG_ATOMIC_TYPE {
        Some(Modifier::Atomic)
    } else if tag == TAG_CONST_TYPE {
        Some(Modifier::Const)
    } else if tag == TAG_IMMUTABLE_TYPE {
        Some(Modifier::Immutable)
    } else if tag == TAG_SHARED_TYPE {
        Some(Modifier::Shared)
    } else if tag == TAG_VOLATILE_TYPE {
        Some(Modifier::Volatile)
    } else {
        None
    }
}

fn entry_members(die: &TypeDie) -> (members: Option<Vec<Member>>)
    ensures
        members is Some <==> members_of(die@.children, die@.children.len() as int) is Some,
        members matches Some(m) ==> members_of(die@.children, die@.children.len() as int) == Some(
            m@.map_values(|x: Member| x@),
        ),
{
    let ghost children = die@.children;
    let mut members: Vec<Member> = Vec::new();
    let mut i: usize = 0;
    assert(members@.map_values(|x: Member| x@) =~= Seq::<MemberView>::empty());
    while i < die.children.len()
        invariant
            i <= die.children@.len(),
            children == die@.children,
            children.len() == die.children@.len(),
            members_of(children, i as int) == Some(members@.map_values(|x: Member| x@)),
        decreases die.children@.len() - i,
    {
        let child = &die.children[i];
        assert(children[i as int] == child@);
        if child.tag == TAG_MEMBER {
            let vtype = match child.type_ref {
                Some(t) => t,
                None => {
                    proof {
                        lemma_members_stay_none(children, i + 1, children.len() as int);
                    }
                    return None;
                },
            };
            let ghost before = members@.map_values(|x: Member| x@);
            let member = Member {
                name: clone_name(&child.name),
                vtype,
                offset: match child.member_location {
                    Some(o) => o,
                    None => 0,
                },
            };
            let ghost added = member@;
            members.push(member);
            assert(members@.map_values(|x: Member| x@) =~= before.push(added));
        }
        i += 1;
    }
    Some(members)
}

proof fn lemma_members_stay_none(children: Seq<TypeChildView>, n: int, m: int)
    requires
        n <= m,
        members_of(children, n) is None,
    ensures
        members_of(children, m) is None,
    decreases m - n,
{
    if n < m {
        lemma_members_stay_none(children, n, m - 1);
    }
}

fn entry_enumerators(die: &TypeDie) -> (enumerators: Option<Vec<Enumerator>>)
    ensures
        enumerators is Some <==> enumerators_of(die@.children, die@.children.len() as int) is Some,
        enumerators matches Some(e) ==> enumerators_of(
            die@.children,
            die@.children.len() as int,
        ) == Some(e@.map_values(|x: Enumerator| x@)),
{
    let ghost children = die@.children;
    let mut enumerators: Vec<Enumerator> = Vec::new();
    let mut i: usize = 0;
    assert(enumerators@.map_values(|x: Enumerator| x@) =~= Seq::<EnumeratorView>::empty());
    while i < die.children.len()
        invariant
            i <= die.children@.len(),
            children == die@.children,
            children.len() == die.children@.len(),
            enumerators_of(children, i as int) == Some(
                enumerators@.map_values(|x: Enumerator| x@),
            ),
        decreases die.children@.len() - i,
    {
        let child = &die.children[i];
        assert(children[i as int] == child@);
        if child.tag == TAG_ENUMERATOR {
            let ghost before = enumerators@.map_values(|x: Enumerator| x@);
            match (&child.name, child.const_value) {
                (Some(name), Some(constant)) => {
                    let enumerator = Enumerator { name: to_vec(name.as_slice()), constant };
                    let ghost added = enumerator@;
                    enumerators.push(enumerator);
                    assert(enumerators@.map_values(|x: Enumerator| x@) =~= before.push(added));
                },
                _ => {
                    proof {
                        lemma_enumerators_stay_none(children, i + 1, children.len() as int);
                    }
                    return None;
                },
            }
        }
        i += 1;
    }
    Some(enumerators)
}

proof fn lemma_enumerators_stay_none(children: Seq<TypeChildView>, n: int, m: int)
    requires
        n <= m,
        enumerators_of(children, n) is None,
    ensures
        enumerators_of(children, m) is None,
    decreases m - n,
{
    if n < m {
        lemma_enumerators_stay_none(children, n, m - 1);
    }
}

/// Describes the type that an entry stands for.
pub fn unwind_type(die: &TypeDie) -> (display: Result<TypeDisplay, DebugError>)
    ensures
        display matches Ok(t) ==> described(die@) == Ok::<TypeView, DebugError>(t@),
        display matches Err(e) ==> described(die@) == Err::<TypeView, DebugError>(e),
{
    let tag = die.tag;
    if tag == TAG_BASE_TYPE {
        match (die.encoding, entry_size(die)) {
            (Some(encoding), Some(size)) => Ok(
                TypeDisplay::Base {
                    name: clone_name(&die.name),
                    encoding,
                    size,
                    endian: entry_endian(die),
                },
            ),
            _ => Err(DebugError::DwarfCorruption),
        }
    } else if tag == TAG_POINTER_TYPE || tag == TAG_REFERENCE_TYPE {
        Ok(TypeDisplay::Pointer { name: clone_name(&die.name), vtype: die.type_ref })
    } else if let Some(modifier) = entry_modifier(tag) {
        Ok(TypeDisplay::Modifier { name: clone_name(&die.name), vtype: die.type_ref, modifier })
    } else if tag == TAG_ARRAY_TYPE {
        match die.type_ref {
            Some(vtype) => Ok(
                TypeDisplay::Array { name: clone_name(&die.name), vtype, size: entry_size(die) },
            ),
            None => Err(DebugError::DwarfCorruption),
        }
    } else if tag == TAG_STRUCTURE_TYPE || tag == TAG_UNION_TYPE || tag == TAG_CLASS_TYPE {
        match entry_members(die) {
            Some(members) => Ok(
                TypeDisplay::Struct { name: clone_name(&die.name), size: entry_size(die), members },
            ),
            None => Err(DebugError::DwarfCorruption),
        }
    } else if tag == TAG_ENUMERATION_TYPE {
        match entry_enumerators(die) {
            Some(enumerators) => Ok(
                TypeDisplay::Enum {
                    name: clone_name(&die.name),
                    vtype: die.type_ref,
                    size: entry_size(die),
                    enumerators,
                },
            ),
            None => Err(DebugError::DwarfCorruption),
        }
    } else if tag == TAG_TYPEDEF {
        match &die.name {
            Some(name) => Ok(TypeDisplay::Def { name: to_vec(name.as_slice()), vtype: die.type_ref }),
            None => Err(DebugError::DwarfCorruption),
        }
    } else {
        Err(DebugError::UnsupportedType)
    }
}

} // verus!
