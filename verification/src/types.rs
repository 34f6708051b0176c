//! The type system: native value shapes described independently of any
//! function.  Types are immutable once constructed and are compared
//! structurally, by shape rather than identity; a tagged type is also keyed
//! by its tag kind.

use vstd::prelude::*;
use crate::JitError;

verus! {

/// The kind of a type: one tag per primitive shape plus one per aggregate
/// shape.
#[derive(Clone, Copy, PartialEq, Eq, Structural, Debug)]
pub enum TypeKind {
    Void,
    SByte,
    UByte,
    Short,
    UShort,
    Int,
    UInt,
    NInt,
    NUInt,
    Long,
    ULong,
    Float32,
    Float64,
    Struct,
    Union,
    Signature,
    Pointer,
    Tagged,
}

impl TypeKind {
    /// True of the kinds that describe a primitive value shape.
    pub open spec fn spec_is_primitive(self) -> bool {
        match self {
            TypeKind::Struct => false,
            TypeKind::Union => false,
            TypeKind::Signature => false,
            TypeKind::Pointer => false,
            TypeKind::Tagged => false,
            _ => true,
        }
    }

    /// True of the kinds that describe a primitive value shape.
    #[verifier::when_used_as_spec(spec_is_primitive)]
    pub fn is_primitive(self) -> (r: bool)
        ensures
            r == self.spec_is_primitive(),
    {
        match self {
            TypeKind::Struct => false,
            TypeKind::Union => false,
            TypeKind::Signature => false,
            TypeKind::Pointer => false,
            TypeKind::Tagged => false,
            _ => true,
        }
    }

    /// True of the integer primitive kinds (signed or unsigned).
    pub open spec fn spec_is_integer(self) -> bool {
        match self {
            TypeKind::SByte => true,
            TypeKind::UByte => true,
            TypeKind::Short => true,
            TypeKind::UShort => true,
            TypeKind::Int => true,
            TypeKind::UInt => true,
            TypeKind::NInt => true,
            TypeKind::NUInt => true,
            TypeKind::Long => true,
            TypeKind::ULong => true,
            _ => false,
        }
    }

    /// True of the integer primitive kinds (signed or unsigned).
    #[verifier::when_used_as_spec(spec_is_integer)]
    pub fn is_integer(self) -> (r: bool)
        ensures
            r == self.spec_is_integer(),
    {
        match self {
            TypeKind::SByte => true,
            TypeKind::UByte => true,
            TypeKind::Short => true,
            TypeKind::UShort => true,
            TypeKind::Int => true,
            TypeKind::UInt => true,
            TypeKind::NInt => true,
            TypeKind::NUInt => true,
            TypeKind::Long => true,
            TypeKind::ULong => true,
            _ => false,
        }
    }

    /// True of the signed integer kinds.
    pub open spec fn spec_is_signed(self) -> bool {
        match self {
            TypeKind::SByte => true,
            TypeKind::Short => true,
            TypeKind::Int => true,
            TypeKind::NInt => true,
            TypeKind::Long => true,
            _ => false,
        }
    }

    /// True of the signed integer kinds.
    #[verifier::when_used_as_spec(spec_is_signed)]
    pub fn is_signed(self) -> (r: bool)
        ensures
            r == self.spec_is_signed(),
    {
        match self {
            TypeKind::SByte => true,
            TypeKind::Short => true,
            TypeKind::Int => true,
            TypeKind::NInt => true,
            TypeKind::Long => true,
            _ => false,
        }
    }

    /// The width in bytes of a value of an integer or float kind; zero for
    /// kinds that do not describe a sized primitive value.
    pub open spec fn spec_width(self) -> u64 {
        match self {
            TypeKind::SByte => 1,
            TypeKind::UByte => 1,
            TypeKind::Short => 2,
            TypeKind::UShort => 2,
            TypeKind::Int => 4,
            TypeKind::UInt => 4,
            TypeKind::Float32 => 4,
            TypeKind::NInt => 8,
            TypeKind::NUInt => 8,
            TypeKind::Long => 8,
            TypeKind::ULong => 8,
            TypeKind::Float64 => 8,
            TypeKind::Pointer => 8,
            _ => 0,
        }
    }

    /// The width in bytes of a value of an integer or float kind; zero for
    /// kinds that do not describe a sized primitive value.
    #[verifier::when_used_as_spec(spec_width)]
    pub fn width(self) -> (r: u64)
        ensures
            r == self.spec_width(),
    {
        match self {
            TypeKind::SByte => 1,
            TypeKind::UByte => 1,
            TypeKind::Short => 2,
            TypeKind::UShort => 2,
            TypeKind::Int => 4,
            TypeKind::UInt => 4,
            TypeKind::Float32 => 4,
            TypeKind::NInt => 8,
            TypeKind::NUInt => 8,
            TypeKind::Long => 8,
            TypeKind::ULong => 8,
            TypeKind::Float64 => 8,
            TypeKind::Pointer => 8,
            _ => 0,
        }
    }

    /// The mask selecting the low bits that a value of this kind occupies.
    pub open spec fn spec_mask(self) -> u64 {
        match self.spec_width() {
            1 => 0xff,
            2 => 0xffff,
            4 => 0xffff_ffff,
            8 => 0xffff_ffff_ffff_ffff,
            _ => 0,
        }
    }

    /// The mask selecting the low bits that a value of this kind occupies.
    #[verifier::when_used_as_spec(spec_mask)]
    pub fn mask(self) -> (r: u64)
        ensures
            r == self.spec_mask(),
    {
        match self.width() {
            1 => 0xff,
            2 => 0xffff,
            4 => 0xffff_ffff,
            8 => 0xffff_ffff_ffff_ffff,
            _ => 0,
        }
    }

    /// The bit that carries the sign for a value of this kind.
    pub open spec fn spec_sign_bit(self) -> u64 {
        match self.spec_width() {
            1 => 0x80,
            2 => 0x8000,
            4 => 0x8000_0000,
            8 => 0x8000_0000_0000_0000,
            _ => 0,
        }
    }

    /// The bit that carries the sign for a value of this kind.
    #[verifier::when_used_as_spec(spec_sign_bit)]
    pub fn sign_bit(self) -> (r: u64)
        ensures
            r == self.spec_sign_bit(),
    {
        match self.width() {
            1 => 0x80,
            2 => 0x8000,
            4 => 0x8000_0000,
            8 => 0x8000_0000_0000_0000,
            _ => 0,
        }
    }
}

/// Opaque caller data attached to a tagged type: a caller-chosen key that
/// stands for the stored data's type, plus the payload itself.  The payload
/// is owned by the type and is released exactly once, when the type reaches
/// its end of life.
pub struct TagData {
    /// Identifies the type of the stored payload; retrieval succeeds only
    /// when the requested key matches.
    pub key: u64,
    /// The payload.
    pub bytes: Vec<u8>,
}

/// One member of a struct or union type.  Field order is insertion order and
/// is semantically significant: it is the layout order.
pub struct Field {
    /// The field's name, if it was given one.
    pub name: Option<String>,
    /// The field's type.
    pub ty: Type,
}

impl Field {
    /// Makes a field of the given name and type.
    pub fn new(name: Option<String>, ty: Type) -> (r: Field)
        ensures
            r == (Field { name, ty }),
    {
        Field { name, ty }
    }

    /// The field's name, if it was given one.
    pub fn get_name(&self) -> (r: &Option<String>)
        ensures
            r == &self.name,
    {
        &self.name
    }

    /// The field's type.
    pub fn get_type(&self) -> (r: &Type)
        ensures
            r == &self.ty,
    {
        &self.ty
    }
}

/// A native value shape.  Immutable once constructed.
pub enum Type {
    /// A primitive value of the given kind.
    Prim(TypeKind),
    /// A pointer to a value of the inner type.
    Pointer(Box<Type>),
    /// An aggregate whose fields are laid out one after another, in
    /// insertion order.
    StructOf(Vec<Field>),
    /// An aggregate whose fields all share one location.
    UnionOf(Vec<Field>),
    /// A function signature: parameter types in order, then the return type.
    SignatureOf(Vec<Type>, Box<Type>),
    /// A base type wrapped with a distinguishing kind tag and opaque caller
    /// data.
    TaggedOf(Box<Type>, TypeKind, TagData),
}

/// The number of nodes in a type tree; the termination measure for the
/// structural walks below.
pub open spec fn type_size(t: Type) -> nat
    decreases t,
{
    match t {
        Type::Prim(_) => 1,
        Type::Pointer(b) => 1 + type_size(*b),
        Type::StructOf(fs) => 1 + fields_size(fs@),
        Type::UnionOf(fs) => 1 + fields_size(fs@),
        Type::SignatureOf(ps, r) => 1 + params_size(ps@) + type_size(*r),
        Type::TaggedOf(b, _, _) => 1 + type_size(*b),
    }
}

/// The combined size of a sequence of fields' types.
pub open spec fn fields_size(s: Seq<Field>) -> nat
    decreases s,
{
    if s.len() == 0 {
        0
    } else {
        1 + type_size(s[0].ty) + fields_size(s.skip(1))
    }
}

/// The combined size of a sequence of types.
pub open spec fn params_size(s: Seq<Type>) -> nat
    decreases s,
{
    if s.len() == 0 {
        0
    } else {
        1 + type_size(s[0]) + params_size(s.skip(1))
    }
}

/// Whether two field names are the same.
pub open spec fn name_eq(a: Option<String>, b: Option<String>) -> bool {
    match (a, b) {
        (Option::Some(x), Option::Some(y)) => x@ == y@,
        (Option::None, Option::None) => true,
        _ => false,
    }
}

/// Structural equality of types: same kind and same component shapes in the
/// same order.  Tagged types are also keyed by their tag kind; their opaque
/// data does not take part in the comparison.
pub open spec fn shape_eq(a: Type, b: Type) -> bool
    decreases type_size(a),
{
    match (a, b) {
        (Type::Prim(k1), Type::Prim(k2)) => k1 == k2,
        (Type::Pointer(t1), Type::Pointer(t2)) => shape_eq(*t1, *t2),
        (Type::StructOf(f1), Type::StructOf(f2)) => fields_shape_eq(f1@, f2@),
        (Type::UnionOf(f1), Type::UnionOf(f2)) => fields_shape_eq(f1@, f2@),
        (Type::SignatureOf(p1, r1), Type::SignatureOf(p2, r2)) => params_shape_eq(p1@, p2@)
            && shape_eq(*r1, *r2),
        (Type::TaggedOf(b1, k1, _), Type::TaggedOf(b2, k2, _)) => k1 == k2 && shape_eq(*b1, *b2),
        _ => false,
    }
}

/// Structural equality of two field sequences: same length, and the fields
/// agree pairwise on name and type shape.
pub open spec fn fields_shape_eq(f1: Seq<Field>, f2: Seq<Field>) -> bool
    decreases fields_size(f1),
{
    if f1.len() != f2.len() {
        false
    } else if f1.len() == 0 {
        true
    } else {
        name_eq(f1[0].name, f2[0].name) && shape_eq(f1[0].ty, f2[0].ty) && fields_shape_eq(
            f1.skip(1),
            f2.skip(1),
        )
    }
}

/// Structural equality of two type sequences: same length, pairwise equal
/// shapes.
pub open spec fn params_shape_eq(p1: Seq<Type>, p2: Seq<Type>) -> bool
    decreases params_size(p1),
{
    if p1.len() != p2.len() {
        false
    } else if p1.len() == 0 {
        true
    } else {
        shape_eq(p1[0], p2[0]) && params_shape_eq(p1.skip(1), p2.skip(1))
    }
}

/// The index of the first field named `name`, if any.
pub open spec fn spec_find_field(fs: Seq<Field>, name: Seq<char>) -> Option<int>
    decreases fs,
{
    if fs.len() == 0 {
        Option::None
    } else if fs[0].name matches Option::Some(n) && n@ == name {
        Option::Some(0)
    } else {
        match spec_find_field(fs.skip(1), name) {
            Option::Some(i) => Option::Some(i + 1),
            Option::None => Option::None,
        }
    }
}

impl Type {
    /// Builds the primitive type of the given kind.
    pub fn primitive(k: TypeKind) -> (r: Type)
        requires
            k.is_primitive(),
        ensures
            r == Type::Prim(k),
    {
        Type::Prim(k)
    }

    /// The void type.
    pub fn void() -> (r: Type)
        ensures
            r == Type::Prim(TypeKind::Void),
    {
        Type::Prim(TypeKind::Void)
    }

    /// Builds a pointer type to `to`.
    pub fn pointer(to: Type) -> (r: Type)
        ensures
            r == Type::Pointer(Box::new(to)),
    {
        Type::Pointer(Box::new(to))
    }

    /// Builds a struct type whose layout follows the given field order.
    pub fn new_struct(fields: Vec<Field>) -> (r: Type)
        ensures
            r == Type::StructOf(fields),
    {
        Type::StructOf(fields)
    }

    /// Builds a union type of the given fields.
    pub fn new_union(fields: Vec<Field>) -> (r: Type)
        ensures
            r == Type::UnionOf(fields),
    {
        Type::UnionOf(fields)
    }

    /// Builds a signature type from parameter types, in order, and a return
    /// type.
    pub fn signature(params: Vec<Type>, ret: Type) -> (r: Type)
        ensures
            r == Type::SignatureOf(params, Box::new(ret)),
    {
        Type::SignatureOf(params, Box::new(ret))
    }

    /// Wraps `base` with a distinguishing kind tag plus opaque caller data.
    pub fn create_tagged(base: Type, kind: TypeKind, data: TagData) -> (r: Type)
        ensures
            r == Type::TaggedOf(Box::new(base), kind, data),
    {
        Type::TaggedOf(Box::new(base), kind, data)
    }

    /// The kind of this type.
    pub open spec fn spec_get_kind(&self) -> TypeKind {
        match self {
            Type::Prim(k) => *k,
            Type::Pointer(_) => TypeKind::Pointer,
            Type::StructOf(_) => TypeKind::Struct,
            Type::UnionOf(_) => TypeKind::Union,
            Type::SignatureOf(_, _) => TypeKind::Signature,
            Type::TaggedOf(_, _, _) => TypeKind::Tagged,
        }
    }

    /// The kind of this type.
    #[verifier::when_used_as_spec(spec_get_kind)]
    pub fn get_kind(&self) -> (r: TypeKind)
        ensures
            r == self.spec_get_kind(),
    {
        match self {
            Type::Prim(k) => *k,
            Type::Pointer(_) => TypeKind::Pointer,
            Type::StructOf(_) => TypeKind::Struct,
            Type::UnionOf(_) => TypeKind::Union,
            Type::SignatureOf(_, _) => TypeKind::Signature,
            Type::TaggedOf(_, _, _) => TypeKind::Tagged,
        }
    }

    /// The kind that a value of this type has at run time: primitives keep
    /// their own kind, pointers are machine-word addresses, and a tagged
    /// type's values are those of its base.
    pub open spec fn spec_runtime_kind(&self) -> TypeKind
        decreases type_size(*self),
    {
        match self {
            Type::Prim(k) => *k,
            Type::Pointer(_) => TypeKind::NUInt,
            Type::TaggedOf(b, _, _) => b.spec_runtime_kind(),
            Type::StructOf(_) => TypeKind::Struct,
            Type::UnionOf(_) => TypeKind::Union,
            Type::SignatureOf(_, _) => TypeKind::Signature,
        }
    }

    /// The kind that a value of this type has at run time.
    #[verifier::when_used_as_spec(spec_runtime_kind)]
    pub fn runtime_kind(&self) -> (r: TypeKind)
        ensures
            r == self.spec_runtime_kind(),
        decreases type_size(*self),
    {
        match self {
            Type::Prim(k) => *k,
            Type::Pointer(_) => TypeKind::NUInt,
            Type::TaggedOf(b, _, _) => b.runtime_kind(),
            Type::StructOf(_) => TypeKind::Struct,
            Type::UnionOf(_) => TypeKind::Union,
            Type::SignatureOf(_, _) => TypeKind::Signature,
        }
    }

    /// The fields of a struct or union type, in insertion order.
    pub open spec fn spec_fields(&self) -> Seq<Field> {
        match self {
            Type::StructOf(fs) => fs@,
            Type::UnionOf(fs) => fs@,
            _ => Seq::empty(),
        }
    }

    /// How many fields this struct or union type has; zero for other types.
    pub fn field_count(&self) -> (r: usize)
        ensures
            r == self.spec_fields().len(),
    {
        match self {
            Type::StructOf(fs) => fs.len(),
            Type::UnionOf(fs) => fs.len(),
            _ => 0,
        }
    }

    /// The field at position `i` in layout order, if there is one.
    pub fn field_at(&self, i: usize) -> (r: Option<&Field>)
        ensures
            i < self.spec_fields().len() ==> r == Option::Some(&self.spec_fields()[i as int]),
            i >= self.spec_fields().len() ==> r is None,
    {
        match self {
            Type::StructOf(fs) => if i < fs.len() {
                Option::Some(&fs[i])
            } else {
                Option::None
            },
            Type::UnionOf(fs) => if i < fs.len() {
                Option::Some(&fs[i])
            } else {
                Option::None
            },
            _ => Option::None,
        }
    }

    /// Looks a field up by name; the index of the first field of that name,
    /// or `NoSuchField` if the name is absent.
    pub fn find_field(&self, name: &str) -> (r: Result<usize, JitError>)
        ensures
            match spec_find_field(self.spec_fields(), name@) {
                Option::Some(i) => r == Result::<usize, JitError>::Ok(i as usize),
                Option::None => r == Result::<usize, JitError>::Err(JitError::NoSuchField),
            },
    {
        match self {
            Type::StructOf(fs) => find_field_in(fs, name),
            Type::UnionOf(fs) => find_field_in(fs, name),
            _ => {
                assert(self.spec_fields().len() == 0);
                Result::Err(JitError::NoSuchField)
            },
        }
    }

    /// The parameter types of a signature type, in order.
    pub open spec fn spec_params(&self) -> Seq<Type> {
        match self {
            Type::SignatureOf(ps, _) => ps@,
            _ => Seq::empty(),
        }
    }

    /// The return type of a signature type.
    pub open spec fn spec_return_type(&self) -> Option<Type> {
        match self {
            Type::SignatureOf(_, r) => Option::Some(**r),
            _ => Option::None,
        }
    }

    /// How many parameters this signature type declares; zero for other
    /// types.
    pub fn param_count(&self) -> (r: usize)
        ensures
            r == self.spec_params().len(),
    {
        match self {
            Type::SignatureOf(ps, _) => ps.len(),
            _ => 0,
        }
    }

    /// The parameter type at position `i` of a signature type.
    pub fn param_at(&self, i: usize) -> (r: Option<&Type>)
        ensures
            i < self.spec_params().len() ==> r == Option::Some(&self.spec_params()[i as int]),
            i >= self.spec_params().len() ==> r is None,
    {
        match self {
            Type::SignatureOf(ps, _) => if i < ps.len() {
                Option::Some(&ps[i])
            } else {
                Option::None
            },
            _ => Option::None,
        }
    }

    /// The return type of a signature type.
    pub fn return_type(&self) -> (r: Option<&Type>)
        ensures
            match self.spec_return_type() {
                Option::Some(t) => r matches Option::Some(rt) && *rt == t,
                Option::None => r is None,
            },
    {
        match self {
            Type::SignatureOf(_, r) => Option::Some(&**r),
            _ => Option::None,
        }
    }

    /// The tag kind of a tagged type.
    pub fn get_tagged_kind(&self) -> (r: Option<TypeKind>)
        ensures
            match self {
                Type::TaggedOf(_, k, _) => r == Option::Some(*k),
                _ => r is None,
            },
    {
        match self {
            Type::TaggedOf(_, k, _) => Option::Some(*k),
            _ => Option::None,
        }
    }

    /// The opaque payload attached to a tagged type, returned only when the
    /// requested key matches the one it was stored under; `None` on a
    /// mismatch or on a type that is not tagged.
    pub fn get_tagged_data(&self, key: u64) -> (r: Option<&Vec<u8>>)
        ensures
            match self {
                Type::TaggedOf(_, _, d) => if d.key == key {
                    r matches Option::Some(b) && b@ == d.bytes@
                } else {
                    r is None
                },
                _ => r is None,
            },
    {
        match self {
            Type::TaggedOf(_, _, d) => if d.key == key {
                Option::Some(&d.bytes)
            } else {
                Option::None
            },
            _ => Option::None,
        }
    }

    /// Structural equality with another type: same shape, with tagged types
    /// also keyed by their tag kind.
    pub fn same_shape(&self, other: &Type) -> (r: bool)
        ensures
            r == shape_eq(*self, *other),
        decreases type_size(*self),
    {
        match (self, other) {
            (Type::Prim(k1), Type::Prim(k2)) => k1 == k2,
            (Type::Pointer(t1), Type::Pointer(t2)) => t1.same_shape(t2),
            (Type::StructOf(f1), Type::StructOf(f2)) => {
                assert(f1@.skip(0) =~= f1@);
                assert(f2@.skip(0) =~= f2@);
                fields_same_shape_from(f1, f2, 0)
            },
            (Type::UnionOf(f1), Type::UnionOf(f2)) => {
                assert(f1@.skip(0) =~= f1@);
                assert(f2@.skip(0) =~= f2@);
                fields_same_shape_from(f1, f2, 0)
            },
            (Type::SignatureOf(p1, r1), Type::SignatureOf(p2, r2)) => {
                assert(p1@.skip(0) =~= p1@);
                assert(p2@.skip(0) =~= p2@);
                params_same_shape_from(p1, p2, 0) && r1.same_shape(r2)
            },
            (Type::TaggedOf(b1, k1, _), Type::TaggedOf(b2, k2, _)) => k1 == k2 && b1.same_shape(
                b2,
            ),
            _ => false,
        }
    }
}

/// Looks `name` up among `fs`, returning the first matching index.
fn find_field_in(fs: &Vec<Field>, name: &str) -> (r: Result<usize, JitError>)
    ensures
        match spec_find_field(fs@, name@) {
            Option::Some(i) => r == Result::<usize, JitError>::Ok(i as usize),
            Option::None => r == Result::<usize, JitError>::Err(JitError::NoSuchField),
        },
{
    assert(fs@.skip(0) =~= fs@);
    find_field_from(fs, name, 0)
}

/// Looks `name` up among the fields of `fs` from position `i` on.
fn find_field_from(fs: &Vec<Field>, name: &str, i: usize) -> (r: Result<usize, JitError>)
    requires
        i <= fs.len(),
    ensures
        match spec_find_field(fs@.skip(i as int), name@) {
            Option::Some(j) => r == Result::<usize, JitError>::Ok((i + j) as usize),
            Option::None => r == Result::<usize, JitError>::Err(JitError::NoSuchField),
        },
    decreases fs.len() - i,
{
    if i == fs.len() {
        assert(fs@.skip(i as int).len() == 0);
        Result::Err(JitError::NoSuchField)
    } else {
        assert(fs@.skip(i as int)[0] == fs@[i as int]);
        let matches_here = match &fs[i].name {
            Option::Some(n) => str_eq(n.as_str(), name),
            Option::None => false,
        };
        if matches_here {
            Result::Ok(i)
        } else {
            let r = find_field_from(fs, name, i + 1);
            assert(fs@.skip(i as int).skip(1) =~= fs@.skip(i as int + 1));
            r
        }
    }
}

/// Whether two strings hold the same characters.
fn str_eq(a: &str, b: &str) -> (r: bool)
    ensures
        r == (a@ == b@),
{
    let sa = a.to_string();
    let sb = b.to_string();
    sa == sb
}

/// Pairwise structural equality of two field vectors from position `i` on.
fn fields_same_shape_from(f1: &Vec<Field>, f2: &Vec<Field>, i: usize) -> (r: bool)
    requires
        i <= f1.len(),
        i <= f2.len(),
    ensures
        r == fields_shape_eq(f1@.skip(i as int), f2@.skip(i as int)),
    decreases fields_size(f1@.skip(i as int)),
{
    if f1.len() != f2.len() {
        false
    } else if i == f1.len() {
        assert(f1@.skip(i as int).len() == 0);
        true
    } else {
        assert(f1@.skip(i as int)[0] == f1@[i as int]);
        assert(f2@.skip(i as int)[0] == f2@[i as int]);
        let names_match = match (&f1[i].name, &f2[i].name) {
            (Option::Some(n1), Option::Some(n2)) => str_eq(n1.as_str(), n2.as_str()),
            (Option::None, Option::None) => true,
            _ => false,
        };
        if names_match && f1[i].ty.same_shape(&f2[i].ty) {
            assert(f1@.skip(i as int).skip(1) =~= f1@.skip(i as int + 1));
            assert(f2@.skip(i as int).skip(1) =~= f2@.skip(i as int + 1));
            fields_same_shape_from(f1, f2, i + 1)
        } else {
            false
        }
    }
}

/// Pairwise structural equality of two type vectors from position `i` on.
fn params_same_shape_from(p1: &Vec<Type>, p2: &Vec<Type>, i: usize) -> (r: bool)
    requires
        i <= p1.len(),
        i <= p2.len(),
    ensures
        r == params_shape_eq(p1@.skip(i as int), p2@.skip(i as int)),
    decreases params_size(p1@.skip(i as int)),
{
    if p1.len() != p2.len() {
        false
    } else if i == p1.len() {
        assert(p1@.skip(i as int).len() == 0);
        true
    } else {
        assert(p1@.skip(i as int)[0] == p1@[i as int]);
        assert(p2@.skip(i as int)[0] == p2@[i as int]);
        if p1[i].same_shape(&p2[i]) {
            assert(p1@.skip(i as int).skip(1) =~= p1@.skip(i as int + 1));
            assert(p2@.skip(i as int).skip(1) =~= p2@.skip(i as int + 1));
            params_same_shape_from(p1, p2, i + 1)
        } else {
            false
        }
    }
}

} // verus!
