//! The instruction builder: an in-progress function.  Each `insn_*` call
//! validates its operands, appends one instruction to the body, and returns
//! the value that the instruction produces.  A call whose operands are
//! rejected fails locally and leaves the function exactly as it was.
//!
//! Labels support forward references: a branch may name a label in either
//! state, and the branch is resolved to the label's bound position when the
//! function is compiled.  The builder also keeps the stack of open loops, so
//! that loop constructs nest and close in LIFO order.

use vstd::prelude::*;
use crate::JitError;
use crate::CallFlags;
use crate::ir::Insn;
use crate::types::{Type, TypeKind};

verus! {

/// An opaque reference to the result of one instruction or to a function
/// parameter, tagged with the kind its bits carry at run time and with the
/// function that produced it.  A value must never be handed to an
/// instruction of a different function.
#[derive(Clone, Copy, PartialEq, Eq, Structural, Debug)]
pub struct Value {
    /// The context slot of the function that owns this value.
    pub func: usize,
    /// The value slot that holds it while the function runs.
    pub id: usize,
    /// The kind of its run-time representation.
    pub kind: TypeKind,
}

impl Value {
    /// The kind of this value's run-time representation.
    pub fn get_kind(&self) -> (r: TypeKind)
        ensures
            r == self.kind,
    {
        self.kind
    }
}

/// A branch target inside one function.  Created unbound; bound at most
/// once, to the instruction position current at binding time; referenced by
/// branches before or after being bound.
#[derive(Clone, Copy, PartialEq, Eq, Structural, Debug)]
pub struct Label {
    /// The context slot of the function that owns this label.
    pub func: usize,
    /// The label's index in the function's label table.
    pub id: usize,
}

/// A function being built: the signature it was created from, the growing
/// instruction body, the label table, and the stack of open loops.
pub struct UncompiledFunction {
    /// The context slot this function will occupy once compiled.
    pub id: usize,
    /// The signature type the function was created from.
    pub sig: Type,
    /// How many parameters the signature declares.
    pub nparams: usize,
    /// The instruction body; branch targets are label indices until the
    /// function is compiled.
    pub body: Vec<Insn>,
    /// The flattened pool of call-argument value slots.
    pub pool: Vec<usize>,
    /// For each label: `None` while unbound, or the position it is bound to.
    pub labels: Vec<Option<usize>>,
    /// The stack of open loops, innermost last, as (start, end) label
    /// indices.
    pub loops: Vec<(usize, usize)>,
}

/// Whether every value of `args` belongs to function `id`.
pub open spec fn args_same_func(args: Seq<Value>, id: usize) -> bool {
    forall|i: int| 0 <= i < args.len() ==> args[i].func == id
}

/// Whether `args` matches the parameter list of signature `sig`: same
/// count, and each value's kind is its parameter type's run-time kind.
pub open spec fn args_kinds_ok(args: Seq<Value>, sig: Type) -> bool {
    args.len() == sig.spec_params().len() && forall|i: int|
        0 <= i < args.len() ==> args[i].kind == sig.spec_params()[i].spec_runtime_kind()
}

impl UncompiledFunction {
    /// How many value slots exist so far: one per parameter plus one per
    /// instruction.
    pub open spec fn nvalues(&self) -> int {
        self.nparams + self.body@.len()
    }

    /// Whether one more instruction can be emitted without exhausting the
    /// value-slot index space.
    pub open spec fn can_emit(&self) -> bool {
        self.nvalues() < usize::MAX
    }

    /// The run-time kind of the signature's return type; `Void` where the
    /// signature has none.
    pub open spec fn ret_kind(&self) -> TypeKind {
        match self.sig.spec_return_type() {
            Option::Some(t) => t.spec_runtime_kind(),
            Option::None => TypeKind::Void,
        }
    }

    /// What stays the same when an instruction is emitted, and how the body
    /// grows.
    pub open spec fn emitted(&self, new: Self, insn: Insn) -> bool {
        &&& new.body@ == self.body@.push(insn)
        &&& new.pool@ == self.pool@
        &&& new.labels@ == self.labels@
        &&& new.loops@ == self.loops@
        &&& new.sig == self.sig
        &&& new.id == self.id
        &&& new.nparams == self.nparams
    }

    /// The value that the next emitted instruction produces.
    pub open spec fn next_value(&self, kind: TypeKind) -> Value {
        Value { func: self.id, id: self.nvalues() as usize, kind }
    }

    /// The parameter value at position `i`, carrying the run-time kind of
    /// the `i`-th parameter type.
    pub fn get_param(&self, i: usize) -> (r: Result<Value, JitError>)
        ensures
            i < self.sig.spec_params().len() ==> r == Result::<Value, JitError>::Ok(
                Value { func: self.id, id: i, kind: self.sig.spec_params()[i as int].spec_runtime_kind() },
            ),
            i >= self.sig.spec_params().len() ==> r == Result::<Value, JitError>::Err(
                JitError::TypeMismatch,
            ),
    {
        match self.sig.param_at(i) {
            Option::Some(t) => Result::Ok(Value { func: self.id, id: i, kind: t.runtime_kind() }),
            Option::None => Result::Err(JitError::TypeMismatch),
        }
    }

    /// Emits a constant of a primitive kind; the stored representation is
    /// `bits` truncated to the kind's width.
    pub fn insn_const(&mut self, kind: TypeKind, bits: u64) -> (r: Result<Value, JitError>)
        requires
            old(self).can_emit(),
        ensures
            !kind.spec_is_primitive() ==> r == Result::<Value, JitError>::Err(
                JitError::TypeMismatch,
            ) && *final(self) == *old(self),
            kind.spec_is_primitive() ==> r == Result::<Value, JitError>::Ok(
                old(self).next_value(kind),
            ) && old(self).emitted(
                *final(self),
                Insn::Const { kind, bits: bits & kind.spec_mask() },
            ),
    {
        if !kind.is_primitive() {
            return Result::Err(JitError::TypeMismatch);
        }
        let v = Value { func: self.id, id: self.nparams + self.body.len(), kind };
        self.body.push(Insn::Const { kind, bits: bits & kind.mask() });
        Result::Ok(v)
    }

    /// Emits an integer addition of two values of one integer kind; the
    /// result has that kind and wraps at its width.
    pub fn insn_add(&mut self, a: Value, b: Value) -> (r: Result<Value, JitError>)
        requires
            old(self).can_emit(),
        ensures
            a.func != old(self).id || b.func != old(self).id ==> r == Result::<Value, JitError>::Err(
                JitError::CrossFunctionUse,
            ) && *final(self) == *old(self),
            a.func == old(self).id && b.func == old(self).id && !(a.kind.spec_is_integer()
                && b.kind == a.kind) ==> r == Result::<Value, JitError>::Err(JitError::TypeMismatch)
                && *final(self) == *old(self),
            a.func == old(self).id && b.func == old(self).id && a.kind.spec_is_integer() && b.kind
                == a.kind ==> r == Result::<Value, JitError>::Ok(old(self).next_value(a.kind))
                && old(self).emitted(
                *final(self),
                Insn::Add { kind: a.kind, a: a.id, b: b.id },
            ),
    {
        if a.func != self.id || b.func != self.id {
            return Result::Err(JitError::CrossFunctionUse);
        }
        if !(a.kind.is_integer() && b.kind == a.kind) {
            return Result::Err(JitError::TypeMismatch);
        }
        let v = Value { func: self.id, id: self.nparams + self.body.len(), kind: a.kind };
        self.body.push(Insn::Add { kind: a.kind, a: a.id, b: b.id });
        Result::Ok(v)
    }

    /// Emits an integer subtraction; same typing rule as addition.
    pub fn insn_sub(&mut self, a: Value, b: Value) -> (r: Result<Value, JitError>)
        requires
            old(self).can_emit(),
        ensures
            a.func != old(self).id || b.func != old(self).id ==> r == Result::<Value, JitError>::Err(
                JitError::CrossFunctionUse,
            ) && *final(self) == *old(self),
            a.func == old(self).id && b.func == old(self).id && !(a.kind.spec_is_integer()
                && b.kind == a.kind) ==> r == Result::<Value, JitError>::Err(JitError::TypeMismatch)
                && *final(self) == *old(self),
            a.func == old(self).id && b.func == old(self).id && a.kind.spec_is_integer() && b.kind
                == a.kind ==> r == Result::<Value, JitError>::Ok(old(self).next_value(a.kind))
                && old(self).emitted(
                *final(self),
                Insn::Sub { kind: a.kind, a: a.id, b: b.id },
            ),
    {
        if a.func != self.id || b.func != self.id {
            return Result::Err(JitError::CrossFunctionUse);
        }
        if !(a.kind.is_integer() && b.kind == a.kind) {
            return Result::Err(JitError::TypeMismatch);
        }
        let v = Value { func: self.id, id: self.nparams + self.body.len(), kind: a.kind };
        self.body.push(Insn::Sub { kind: a.kind, a: a.id, b: b.id });
        Result::Ok(v)
    }

    /// Emits an integer multiplication; same typing rule as addition.
    pub fn insn_mul(&mut self, a: Value, b: Value) -> (r: Result<Value, JitError>)
        requires
            old(self).can_emit(),
        ensures
            a.func != old(self).id || b.func != old(self).id ==> r == Result::<Value, JitError>::Err(
                JitError::CrossFunctionUse,
            ) && *final(self) == *old(self),
            a.func == old(self).id && b.func == old(self).id && !(a.kind.spec_is_integer()
                && b.kind == a.kind) ==> r == Result::<Value, JitError>::Err(JitError::TypeMismatch)
                && *final(self) == *old(self),
            a.func == old(self).id && b.func == old(self).id && a.kind.spec_is_integer() && b.kind
                == a.kind ==> r == Result::<Value, JitError>::Ok(old(self).next_value(a.kind))
                && old(self).emitted(
                *final(self),
                Insn::Mul { kind: a.kind, a: a.id, b: b.id },
            ),
    {
        if a.func != self.id || b.func != self.id {
            return Result::Err(JitError::CrossFunctionUse);
        }
        if !(a.kind.is_integer() && b.kind == a.kind) {
            return Result::Err(JitError::TypeMismatch);
        }
        let v = Value { func: self.id, id: self.nparams + self.body.len(), kind: a.kind };
        self.body.push(Insn::Mul { kind: a.kind, a: a.id, b: b.id });
        Result::Ok(v)
    }

    /// Emits an equality test of two values of one integer kind; the result
    /// is 1 or 0, of kind `Int`.
    pub fn insn_eq(&mut self, a: Value, b: Value) -> (r: Result<Value, JitError>)
        requires
            old(self).can_emit(),
        ensures
            a.func != old(self).id || b.func != old(self).id ==> r == Result::<Value, JitError>::Err(
                JitError::CrossFunctionUse,
            ) && *final(self) == *old(self),
            a.func == old(self).id && b.func == old(self).id && !(a.kind.spec_is_integer()
                && b.kind == a.kind) ==> r == Result::<Value, JitError>::Err(JitError::TypeMismatch)
                && *final(self) == *old(self),
            a.func == old(self).id && b.func == old(self).id && a.kind.spec_is_integer() && b.kind
                == a.kind ==> r == Result::<Value, JitError>::Ok(
                old(self).next_value(TypeKind::Int),
            ) && old(self).emitted(*final(self), Insn::CmpEq { a: a.id, b: b.id }),
    {
        if a.func != self.id || b.func != self.id {
            return Result::Err(JitError::CrossFunctionUse);
        }
        if !(a.kind.is_integer() && b.kind == a.kind) {
            return Result::Err(JitError::TypeMismatch);
        }
        let v = Value { func: self.id, id: self.nparams + self.body.len(), kind: TypeKind::Int };
        self.body.push(Insn::CmpEq { a: a.id, b: b.id });
        Result::Ok(v)
    }

    /// Emits a less-than test at the operands' kind and signedness; the
    /// result is 1 or 0, of kind `Int`.
    pub fn insn_lt(&mut self, a: Value, b: Value) -> (r: Result<Value, JitError>)
        requires
            old(self).can_emit(),
        ensures
            a.func != old(self).id || b.func != old(self).id ==> r == Result::<Value, JitError>::Err(
                JitError::CrossFunctionUse,
            ) && *final(self) == *old(self),
            a.func == old(self).id && b.func == old(self).id && !(a.kind.spec_is_integer()
                && b.kind == a.kind) ==> r == Result::<Value, JitError>::Err(JitError::TypeMismatch)
                && *final(self) == *old(self),
            a.func == old(self).id && b.func == old(self).id && a.kind.spec_is_integer() && b.kind
                == a.kind ==> r == Result::<Value, JitError>::Ok(
                old(self).next_value(TypeKind::Int),
            ) && old(self).emitted(*final(self), Insn::CmpLt { kind: a.kind, a: a.id, b: b.id }),
    {
        if a.func != self.id || b.func != self.id {
            return Result::Err(JitError::CrossFunctionUse);
        }
        if !(a.kind.is_integer() && b.kind == a.kind) {
            return Result::Err(JitError::TypeMismatch);
        }
        let v = Value { func: self.id, id: self.nparams + self.body.len(), kind: TypeKind::Int };
        self.body.push(Insn::CmpLt { kind: a.kind, a: a.id, b: b.id });
        Result::Ok(v)
    }

    /// Emits an explicit conversion of `v` to the run-time kind of `ty`.
    /// Conversions are never inserted implicitly: an operation whose
    /// declared input kind differs from a value's actual kind rejects the
    /// value instead.
    pub fn insn_convert(&mut self, v: Value, ty: &Type) -> (r: Result<Value, JitError>)
        requires
            old(self).can_emit(),
        ensures
            v.func != old(self).id ==> r == Result::<Value, JitError>::Err(
                JitError::CrossFunctionUse,
            ) && *final(self) == *old(self),
            v.func == old(self).id && !(v.kind.spec_is_integer()
                && ty.spec_runtime_kind().spec_is_integer()) ==> r == Result::<Value, JitError>::Err(
                JitError::TypeMismatch,
            ) && *final(self) == *old(self),
            v.func == old(self).id && v.kind.spec_is_integer()
                && ty.spec_runtime_kind().spec_is_integer() ==> r == Result::<Value, JitError>::Ok(
                old(self).next_value(ty.spec_runtime_kind()),
            ) && old(self).emitted(
                *final(self),
                Insn::Convert { from: v.kind, to: ty.spec_runtime_kind(), v: v.id },
            ),
    {
        if v.func != self.id {
            return Result::Err(JitError::CrossFunctionUse);
        }
        let to = ty.runtime_kind();
        if !(v.kind.is_integer() && to.is_integer()) {
            return Result::Err(JitError::TypeMismatch);
        }
        let nv = Value { func: self.id, id: self.nparams + self.body.len(), kind: to };
        self.body.push(Insn::Convert { from: v.kind, to, v: v.id });
        Result::Ok(nv)
    }

    /// Persists `src` into the storage slot of `dest`; both must carry the
    /// same kind.
    pub fn insn_store(&mut self, dest: Value, src: Value) -> (r: Result<(), JitError>)
        requires
            old(self).can_emit(),
        ensures
            dest.func != old(self).id || src.func != old(self).id ==> r == Result::<
                (),
                JitError,
            >::Err(JitError::CrossFunctionUse) && *final(self) == *old(self),
            dest.func == old(self).id && src.func == old(self).id && dest.kind != src.kind ==> r
                == Result::<(), JitError>::Err(JitError::TypeMismatch) && *final(self) == *old(self),
            dest.func == old(self).id && src.func == old(self).id && dest.kind == src.kind ==> r
                == Result::<(), JitError>::Ok(()) && old(self).emitted(
                *final(self),
                Insn::Store { dest: dest.id, src: src.id },
            ),
    {
        if dest.func != self.id || src.func != self.id {
            return Result::Err(JitError::CrossFunctionUse);
        }
        if dest.kind != src.kind {
            return Result::Err(JitError::TypeMismatch);
        }
        self.body.push(Insn::Store { dest: dest.id, src: src.id });
        Result::Ok(())
    }

    /// Emits a read of a value of `ty`'s run-time kind from the memory at
    /// `base + offset`; `base` must carry an address.
    pub fn insn_load_relative(&mut self, base: Value, offset: u64, ty: &Type) -> (r: Result<
        Value,
        JitError,
    >)
        requires
            old(self).can_emit(),
        ensures
            base.func != old(self).id ==> r == Result::<Value, JitError>::Err(
                JitError::CrossFunctionUse,
            ) && *final(self) == *old(self),
            base.func == old(self).id && !(base.kind == TypeKind::NUInt
                && ty.spec_runtime_kind().spec_is_primitive() && ty.spec_runtime_kind()
                != TypeKind::Void) ==> r == Result::<Value, JitError>::Err(JitError::TypeMismatch)
                && *final(self) == *old(self),
            base.func == old(self).id && base.kind == TypeKind::NUInt
                && ty.spec_runtime_kind().spec_is_primitive() && ty.spec_runtime_kind()
                != TypeKind::Void ==> r == Result::<Value, JitError>::Ok(
                old(self).next_value(ty.spec_runtime_kind()),
            ) && old(self).emitted(
                *final(self),
                Insn::LoadRel { kind: ty.spec_runtime_kind(), base: base.id, offset },
            ),
    {
        if base.func != self.id {
            return Result::Err(JitError::CrossFunctionUse);
        }
        let kind = ty.runtime_kind();
        let kind_ok = match kind {
            TypeKind::Void => false,
            _ => kind.is_primitive(),
        };
        if !(base.kind == TypeKind::NUInt && kind_ok) {
            return Result::Err(JitError::TypeMismatch);
        }
        let nv = Value { func: self.id, id: self.nparams + self.body.len(), kind };
        self.body.push(Insn::LoadRel { kind, base: base.id, offset });
        Result::Ok(nv)
    }

    /// Emits a write of `v`, at its kind's width, to the memory at
    /// `base + offset`; `base` must carry an address.
    pub fn insn_store_relative(&mut self, base: Value, offset: u64, v: Value) -> (r: Result<
        (),
        JitError,
    >)
        requires
            old(self).can_emit(),
        ensures
            base.func != old(self).id || v.func != old(self).id ==> r == Result::<(), JitError>::Err(
                JitError::CrossFunctionUse,
            ) && *final(self) == *old(self),
            base.func == old(self).id && v.func == old(self).id && !(base.kind == TypeKind::NUInt
                && v.kind.spec_is_primitive() && v.kind != TypeKind::Void) ==> r == Result::<
                (),
                JitError,
            >::Err(JitError::TypeMismatch) && *final(self) == *old(self),
            base.func == old(self).id && v.func == old(self).id && base.kind == TypeKind::NUInt
                && v.kind.spec_is_primitive() && v.kind != TypeKind::Void ==> r == Result::<
                (),
                JitError,
            >::Ok(()) && old(self).emitted(
                *final(self),
                Insn::StoreRel { kind: v.kind, base: base.id, offset, v: v.id },
            ),
    {
        if base.func != self.id || v.func != self.id {
            return Result::Err(JitError::CrossFunctionUse);
        }
        let kind_ok = match v.kind {
            TypeKind::Void => false,
            _ => v.kind.is_primitive(),
        };
        if !(base.kind == TypeKind::NUInt && kind_ok) {
            return Result::Err(JitError::TypeMismatch);
        }
        self.body.push(Insn::StoreRel { kind: v.kind, base: base.id, offset, v: v.id });
        Result::Ok(())
    }

    /// Makes a fresh, unbound label owned by this function.
    pub fn new_label(&mut self) -> (r: Label)
        requires
            old(self).labels@.len() < usize::MAX,
        ensures
            r == (Label { func: old(self).id, id: old(self).labels@.len() as usize }),
            final(self).labels@ == old(self).labels@.push(Option::<usize>::None),
            final(self).body@ == old(self).body@,
            final(self).pool@ == old(self).pool@,
            final(self).loops@ == old(self).loops@,
            final(self).sig == old(self).sig,
            final(self).id == old(self).id,
            final(self).nparams == old(self).nparams,
    {
        let l = Label { func: self.id, id: self.labels.len() };
        self.labels.push(Option::None);
        l
    }

    /// Binds `l` to the current position in the instruction stream.  A
    /// label is bound at most once; binding it again is an error.
    pub fn insn_label(&mut self, l: Label) -> (r: Result<(), JitError>)
        ensures
            l.func != old(self).id ==> r == Result::<(), JitError>::Err(JitError::CrossFunctionUse)
                && *final(self) == *old(self),
            l.func == old(self).id && l.id >= old(self).labels@.len() ==> r == Result::<
                (),
                JitError,
            >::Err(JitError::VerificationError) && *final(self) == *old(self),
            l.func == old(self).id && l.id < old(self).labels@.len() && old(self).labels@[l.id as int]
                is Some ==> r == Result::<(), JitError>::Err(JitError::VerificationError) && *final(self) == *old(self),
            l.func == old(self).id && l.id < old(self).labels@.len() && old(self).labels@[l.id as int]
                is None ==> r == Result::<(), JitError>::Ok(()) && final(self).labels@ == old(self).labels@.update(l.id as int, Option::Some(old(self).body@.len() as usize))
                && final(self).body@ == old(self).body@ && final(self).pool@ == old(self).pool@
                && final(self).loops@ == old(self).loops@ && final(self).sig == old(self).sig
                && final(self).id == old(self).id && final(self).nparams == old(self).nparams,
    {
        if l.func != self.id {
            return Result::Err(JitError::CrossFunctionUse);
        }
        if l.id >= self.labels.len() {
            return Result::Err(JitError::VerificationError);
        }
        let already = match self.labels[l.id] {
            Option::Some(_) => true,
            Option::None => false,
        };
        if already {
            return Result::Err(JitError::VerificationError);
        }
        let pos = self.body.len();
        self.labels.set(l.id, Option::Some(pos));
        Result::Ok(())
    }

    /// Emits an unconditional branch to `l`, which may still be unbound.
    pub fn insn_branch(&mut self, l: Label) -> (r: Result<(), JitError>)
        requires
            old(self).can_emit(),
        ensures
            l.func != old(self).id ==> r == Result::<(), JitError>::Err(JitError::CrossFunctionUse)
                && *final(self) == *old(self),
            l.func == old(self).id && l.id >= old(self).labels@.len() ==> r == Result::<
                (),
                JitError,
            >::Err(JitError::VerificationError) && *final(self) == *old(self),
            l.func == old(self).id && l.id < old(self).labels@.len() ==> r == Result::<
                (),
                JitError,
            >::Ok(()) && old(self).emitted(*final(self), Insn::Branch { target: l.id }),
    {
        if l.func != self.id {
            return Result::Err(JitError::CrossFunctionUse);
        }
        if l.id >= self.labels.len() {
            return Result::Err(JitError::VerificationError);
        }
        self.body.push(Insn::Branch { target: l.id });
        Result::Ok(())
    }

    /// Emits a branch to `l` taken when `v` is non-zero.
    pub fn insn_branch_if(&mut self, v: Value, l: Label) -> (r: Result<(), JitError>)
        requires
            old(self).can_emit(),
        ensures
            v.func != old(self).id || l.func != old(self).id ==> r == Result::<(), JitError>::Err(
                JitError::CrossFunctionUse,
            ) && *final(self) == *old(self),
            v.func == old(self).id && l.func == old(self).id && l.id >= old(self).labels@.len()
                ==> r == Result::<(), JitError>::Err(JitError::VerificationError) && *final(self)
                == *old(self),
            v.func == old(self).id && l.func == old(self).id && l.id < old(self).labels@.len()
                && !v.kind.spec_is_integer() ==> r == Result::<(), JitError>::Err(
                JitError::TypeMismatch,
            ) && *final(self) == *old(self),
            v.func == old(self).id && l.func == old(self).id && l.id < old(self).labels@.len()
                && v.kind.spec_is_integer() ==> r == Result::<(), JitError>::Ok(()) && old(self).emitted(*final(self), Insn::BranchIf { v: v.id, target: l.id }),
    {
        if v.func != self.id || l.func != self.id {
            return Result::Err(JitError::CrossFunctionUse);
        }
        if l.id >= self.labels.len() {
            return Result::Err(JitError::VerificationError);
        }
        if !v.kind.is_integer() {
            return Result::Err(JitError::TypeMismatch);
        }
        self.body.push(Insn::BranchIf { v: v.id, target: l.id });
        Result::Ok(())
    }

    /// Emits a branch to `l` taken when `v` is zero.
    pub fn insn_branch_if_not(&mut self, v: Value, l: Label) -> (r: Result<(), JitError>)
        requires
            old(self).can_emit(),
        ensures
            v.func != old(self).id || l.func != old(self).id ==> r == Result::<(), JitError>::Err(
                JitError::CrossFunctionUse,
            ) && *final(self) == *old(self),
            v.func == old(self).id && l.func == old(self).id && l.id >= old(self).labels@.len()
                ==> r == Result::<(), JitError>::Err(JitError::VerificationError) && *final(self)
                == *old(self),
            v.func == old(self).id && l.func == old(self).id && l.id < old(self).labels@.len()
                && !v.kind.spec_is_integer() ==> r == Result::<(), JitError>::Err(
                JitError::TypeMismatch,
            ) && *final(self) == *old(self),
            v.func == old(self).id && l.func == old(self).id && l.id < old(self).labels@.len()
                && v.kind.spec_is_integer() ==> r == Result::<(), JitError>::Ok(()) && old(self).emitted(*final(self), Insn::BranchIfNot { v: v.id, target: l.id }),
    {
        if v.func != self.id || l.func != self.id {
            return Result::Err(JitError::CrossFunctionUse);
        }
        if l.id >= self.labels.len() {
            return Result::Err(JitError::VerificationError);
        }
        if !v.kind.is_integer() {
            return Result::Err(JitError::TypeMismatch);
        }
        self.body.push(Insn::BranchIfNot { v: v.id, target: l.id });
        Result::Ok(())
    }

    /// Emits a return of `v`, whose kind must equal the run-time kind of the
    /// signature's non-void return type.
    pub fn insn_return(&mut self, v: Value) -> (r: Result<(), JitError>)
        requires
            old(self).can_emit(),
        ensures
            v.func != old(self).id ==> r == Result::<(), JitError>::Err(JitError::CrossFunctionUse)
                && *final(self) == *old(self),
            v.func == old(self).id && (old(self).ret_kind() == TypeKind::Void || v.kind != old(self).ret_kind()) ==> r == Result::<(), JitError>::Err(JitError::TypeMismatch) && *final(self) == *old(self),
            v.func == old(self).id && old(self).ret_kind() != TypeKind::Void && v.kind == old(self).ret_kind() ==> r == Result::<(), JitError>::Ok(()) && old(self).emitted(
                *final(self),
                Insn::Ret { v: v.id },
            ),
    {
        if v.func != self.id {
            return Result::Err(JitError::CrossFunctionUse);
        }
        let rk = match self.sig.return_type() {
            Option::Some(t) => t.runtime_kind(),
            Option::None => TypeKind::Void,
        };
        let void_ret = match rk {
            TypeKind::Void => true,
            _ => false,
        };
        if void_ret || v.kind != rk {
            return Result::Err(JitError::TypeMismatch);
        }
        self.body.push(Insn::Ret { v: v.id });
        Result::Ok(())
    }

    /// Emits the return appropriate to a void signature.
    pub fn insn_default_return(&mut self) -> (r: Result<(), JitError>)
        requires
            old(self).can_emit(),
        ensures
            old(self).ret_kind() != TypeKind::Void ==> r == Result::<(), JitError>::Err(
                JitError::TypeMismatch,
            ) && *final(self) == *old(self),
            old(self).ret_kind() == TypeKind::Void ==> r == Result::<(), JitError>::Ok(()) && old(self).emitted(*final(self), Insn::RetVoid),
    {
        let rk = match self.sig.return_type() {
            Option::Some(t) => t.runtime_kind(),
            Option::None => TypeKind::Void,
        };
        let void_ret = match rk {
            TypeKind::Void => true,
            _ => false,
        };
        if !void_ret {
            return Result::Err(JitError::TypeMismatch);
        }
        self.body.push(Insn::RetVoid);
        Result::Ok(())
    }

    /// Emits a recursive call of this function itself, handing it `args`,
    /// which must match its own parameter kinds; the call carries `flags` as
    /// unchecked backend hints.
    pub fn insn_call_self(&mut self, args: &Vec<Value>, flags: CallFlags) -> (r: Result<
        Value,
        JitError,
    >)
        requires
            old(self).can_emit(),
        ensures
            !args_same_func(args@, old(self).id) ==> r == Result::<Value, JitError>::Err(
                JitError::CrossFunctionUse,
            ) && *final(self) == *old(self),
            args_same_func(args@, old(self).id) && !args_kinds_ok(args@, old(self).sig) ==> r
                == Result::<Value, JitError>::Err(JitError::TypeMismatch) && *final(self) == *old(self),
            args_same_func(args@, old(self).id) && args_kinds_ok(args@, old(self).sig) ==> r
                == Result::<Value, JitError>::Ok(old(self).next_value(old(self).ret_kind()))
                && final(self).body@ == old(self).body@.push(
                Insn::Call {
                    callee: old(self).id,
                    args_start: old(self).pool@.len() as usize,
                    args_len: args@.len() as usize,
                    flags,
                },
            ) && final(self).pool@ == old(self).pool@ + args@.map_values(|v: Value| v.id) && final(self).labels@ == old(self).labels@ && final(self).loops@ == old(self).loops@ && final(self).sig == old(self).sig && final(self).id == old(self).id && final(self).nparams == old(self).nparams,
    {
        match check_args(args, self.id, &self.sig) {
            Result::Err(e) => {
                return Result::Err(e);
            },
            Result::Ok(()) => {},
        }
        let rk = match self.sig.return_type() {
            Option::Some(t) => t.runtime_kind(),
            Option::None => TypeKind::Void,
        };
        let start = self.pool.len();
        push_arg_ids(&mut self.pool, args);
        let v = Value { func: self.id, id: self.nparams + self.body.len(), kind: rk };
        self.body.push(
            Insn::Call { callee: self.id, args_start: start, args_len: args.len(), flags },
        );
        Result::Ok(v)
    }

    /// Emits a call of another function of the same context, already
    /// compiled, whose parameter kinds `args` must match.
    pub fn insn_call(&mut self, callee: &crate::context::CompiledFunction, args: &Vec<Value>, flags:
        CallFlags) -> (r: Result<Value, JitError>)
        requires
            old(self).can_emit(),
        ensures
            !args_same_func(args@, old(self).id) ==> r == Result::<Value, JitError>::Err(
                JitError::CrossFunctionUse,
            ) && *final(self) == *old(self),
            args_same_func(args@, old(self).id) && !args_kinds_ok(args@, callee.sig) ==> r
                == Result::<Value, JitError>::Err(JitError::TypeMismatch) && *final(self) == *old(self),
            args_same_func(args@, old(self).id) && args_kinds_ok(args@, callee.sig) ==> r
                == Result::<Value, JitError>::Ok(
                old(self).next_value(callee.spec_ret_kind()),
            ) && final(self).body@ == old(self).body@.push(
                Insn::Call {
                    callee: callee.func,
                    args_start: old(self).pool@.len() as usize,
                    args_len: args@.len() as usize,
                    flags,
                },
            ) && final(self).pool@ == old(self).pool@ + args@.map_values(|v: Value| v.id) && final(self).labels@ == old(self).labels@ && final(self).loops@ == old(self).loops@ && final(self).sig == old(self).sig && final(self).id == old(self).id && final(self).nparams == old(self).nparams,
    {
        match check_args(args, self.id, &callee.sig) {
            Result::Err(e) => {
                return Result::Err(e);
            },
            Result::Ok(()) => {},
        }
        let rk = match callee.sig.return_type() {
            Option::Some(t) => t.runtime_kind(),
            Option::None => TypeKind::Void,
        };
        let start = self.pool.len();
        push_arg_ids(&mut self.pool, args);
        let v = Value { func: self.id, id: self.nparams + self.body.len(), kind: rk };
        self.body.push(
            Insn::Call { callee: callee.func, args_start: start, args_len: args.len(), flags },
        );
        Result::Ok(v)
    }

    /// Emits a call of an externally defined host function through the
    /// native bridge.  `key` identifies the host function to the driver;
    /// `sig` must describe its real calling convention exactly, which the
    /// backend trusts without verification, as it does `flags`.
    pub fn insn_call_native(&mut self, key: u64, sig: &Type, args: &Vec<Value>, flags: CallFlags)
        -> (r: Result<Value, JitError>)
        requires
            old(self).can_emit(),
        ensures
            !args_same_func(args@, old(self).id) ==> r == Result::<Value, JitError>::Err(
                JitError::CrossFunctionUse,
            ) && *final(self) == *old(self),
            args_same_func(args@, old(self).id) && !(sig.spec_get_kind() == TypeKind::Signature
                && args_kinds_ok(args@, *sig)) ==> r == Result::<Value, JitError>::Err(
                JitError::TypeMismatch,
            ) && *final(self) == *old(self),
            args_same_func(args@, old(self).id) && sig.spec_get_kind() == TypeKind::Signature
                && args_kinds_ok(args@, *sig) ==> r == Result::<Value, JitError>::Ok(
                old(self).next_value(
                    match sig.spec_return_type() {
                        Option::Some(t) => t.spec_runtime_kind(),
                        Option::None => TypeKind::Void,
                    },
                ),
            ) && final(self).body@ == old(self).body@.push(
                Insn::CallNative {
                    key,
                    ret_void: (match sig.spec_return_type() {
                        Option::Some(t) => t.spec_runtime_kind(),
                        Option::None => TypeKind::Void,
                    }) == TypeKind::Void,
                    args_start: old(self).pool@.len() as usize,
                    args_len: args@.len() as usize,
                    flags,
                },
            ) && final(self).pool@ == old(self).pool@ + args@.map_values(|v: Value| v.id) && final(self).labels@ == old(self).labels@ && final(self).loops@ == old(self).loops@ && final(self).sig == old(self).sig && final(self).id == old(self).id && final(self).nparams == old(self).nparams,
    {
        match check_args(args, self.id, sig) {
            Result::Err(JitError::CrossFunctionUse) => {
                return Result::Err(JitError::CrossFunctionUse);
            },
            Result::Err(_) => {
                return Result::Err(JitError::TypeMismatch);
            },
            Result::Ok(()) => {},
        }
        let is_sig = match sig.get_kind() {
            TypeKind::Signature => true,
            _ => false,
        };
        if !is_sig {
            return Result::Err(JitError::TypeMismatch);
        }
        let rk = match sig.return_type() {
            Option::Some(t) => t.runtime_kind(),
            Option::None => TypeKind::Void,
        };
        let ret_void = match rk {
            TypeKind::Void => true,
            _ => false,
        };
        let start = self.pool.len();
        push_arg_ids(&mut self.pool, args);
        let v = Value { func: self.id, id: self.nparams + self.body.len(), kind: rk };
        self.body.push(
            Insn::CallNative { key, ret_void, args_start: start, args_len: args.len(), flags },
        );
        Result::Ok(v)
    }

    /// Enters a loop construct: allocates a fresh label pair, binds the
    /// start label at the current position, and pushes the loop onto the
    /// stack of open loops.  Returns the (start, end) labels; the loop body
    /// exits by branching to the end label.
    pub fn loop_begin(&mut self) -> (r: (Label, Label))
        requires
            old(self).labels@.len() + 2 <= usize::MAX,
        ensures
            r.0 == (Label { func: old(self).id, id: old(self).labels@.len() as usize }),
            r.1 == (Label { func: old(self).id, id: (old(self).labels@.len() + 1) as usize }),
            final(self).labels@ == old(self).labels@.push(
                Option::Some(old(self).body@.len() as usize),
            ).push(Option::<usize>::None),
            final(self).loops@ == old(self).loops@.push(
                (old(self).labels@.len() as usize, (old(self).labels@.len() + 1) as usize),
            ),
            final(self).body@ == old(self).body@,
            final(self).pool@ == old(self).pool@,
            final(self).sig == old(self).sig,
            final(self).id == old(self).id,
            final(self).nparams == old(self).nparams,
    {
        let s = Label { func: self.id, id: self.labels.len() };
        let e = Label { func: self.id, id: self.labels.len() + 1 };
        let pos = self.body.len();
        self.labels.push(Option::Some(pos));
        self.labels.push(Option::None);
        self.loops.push((s.id, e.id));
        (s, e)
    }

    /// Closes the innermost open loop: emits the unconditional back-branch
    /// to its start label, binds its end label just after that branch, and
    /// pops the loop stack, so that the enclosing loop becomes current
    /// again.  Closing while no loop is open is a usage error and changes
    /// nothing.
    pub fn loop_end(&mut self) -> (r: Result<(), JitError>)
        requires
            old(self).can_emit(),
        ensures
            old(self).loops@.len() == 0 ==> r == Result::<(), JitError>::Err(
                JitError::UnmatchedLoopClose,
            ) && *final(self) == *old(self),
            old(self).loops@.len() > 0 && !(old(self).loops@.last().0 < old(self).labels@.len()
                && old(self).loops@.last().1 < old(self).labels@.len() && old(self).labels@[old(self).loops@.last().1 as int] is None) ==> r == Result::<(), JitError>::Err(
                JitError::VerificationError,
            ) && *final(self) == *old(self),
            old(self).loops@.len() > 0 && old(self).loops@.last().0 < old(self).labels@.len()
                && old(self).loops@.last().1 < old(self).labels@.len() && old(self).labels@[old(self).loops@.last().1 as int] is None ==> r == Result::<(), JitError>::Ok(()) && final(self).body@ == old(self).body@.push(Insn::Branch { target: old(self).loops@.last().0 })
                && final(self).labels@ == old(self).labels@.update(
                old(self).loops@.last().1 as int,
                Option::Some((old(self).body@.len() + 1) as usize),
            ) && final(self).loops@ == old(self).loops@.drop_last() && final(self).pool@ == old(self).pool@ && final(self).sig == old(self).sig && final(self).id == old(self).id && final(self).nparams == old(self).nparams,
    {
        if self.loops.len() == 0 {
            return Result::Err(JitError::UnmatchedLoopClose);
        }
        let (s, e) = self.loops[self.loops.len() - 1];
        let ok = s < self.labels.len() && e < self.labels.len() && (match self.labels[e] {
            Option::None => true,
            Option::Some(_) => false,
        });
        if !ok {
            return Result::Err(JitError::VerificationError);
        }
        self.body.push(Insn::Branch { target: s });
        let pos = self.body.len();
        self.labels.set(e, Option::Some(pos));
        let _ = self.loops.pop();
        Result::Ok(())
    }

    /// The innermost open loop's (start, end) labels, if a loop is open.
    pub fn current_loop(&self) -> (r: Option<(Label, Label)>)
        ensures
            self.loops@.len() == 0 ==> r is None,
            self.loops@.len() > 0 ==> r == Option::Some(
                (
                    Label { func: self.id, id: self.loops@.last().0 },
                    Label { func: self.id, id: self.loops@.last().1 },
                ),
            ),
    {
        if self.loops.len() == 0 {
            Option::None
        } else {
            let (s, e) = self.loops[self.loops.len() - 1];
            Option::Some((Label { func: self.func_id(), id: s }, Label { func: self.func_id(), id: e }))
        }
    }

    /// The context slot this function will occupy once compiled.
    pub fn func_id(&self) -> (r: usize)
        ensures
            r == self.id,
    {
        self.id
    }
}

/// Checks that every value of `args` belongs to function `id` and that the
/// argument kinds match the parameter list of `sig`.
fn check_args(args: &Vec<Value>, id: usize, sig: &Type) -> (r: Result<(), JitError>)
    ensures
        !args_same_func(args@, id) ==> r == Result::<(), JitError>::Err(JitError::CrossFunctionUse),
        args_same_func(args@, id) && !args_kinds_ok(args@, *sig) ==> r == Result::<(), JitError>::Err(
            JitError::TypeMismatch,
        ),
        args_same_func(args@, id) && args_kinds_ok(args@, *sig) ==> r == Result::<(), JitError>::Ok(
            (),
        ),
{
    let mut i: usize = 0;
    while i < args.len()
        invariant
            i <= args.len(),
            forall|j: int| 0 <= j < i ==> args@[j].func == id,
        decreases args.len() - i,
    {
        if args[i].func != id {
            return Result::Err(JitError::CrossFunctionUse);
        }
        i += 1;
    }
    if args.len() != sig.param_count() {
        return Result::Err(JitError::TypeMismatch);
    }
    let mut i: usize = 0;
    while i < args.len()
        invariant
            i <= args.len(),
            args@.len() == sig.spec_params().len(),
            args_same_func(args@, id),
            forall|j: int| 0 <= j < i ==> args@[j].kind == sig.spec_params()[j].spec_runtime_kind(),
        decreases args.len() - i,
    {
        let ok = match sig.param_at(i) {
            Option::Some(t) => {
                let k = t.runtime_kind();
                args[i].kind == k
            },
            Option::None => false,
        };
        if !ok {
            return Result::Err(JitError::TypeMismatch);
        }
        i += 1;
    }
    Result::Ok(())
}

/// Appends the value slots of `args` to the call-argument pool.
fn push_arg_ids(pool: &mut Vec<usize>, args: &Vec<Value>)
    ensures
        final(pool)@ == old(pool)@ + args@.map_values(|v: Value| v.id),
{
    let mut i: usize = 0;
    while i < args.len()
        invariant
            i <= args.len(),
            pool@ =~= old(pool)@ + args@.take(i as int).map_values(|v: Value| v.id),
        decreases args.len() - i,
    {
        let x = args[i].id;
        pool.push(x);
        proof {
            assert(args@.take(i as int + 1).map_values(|v: Value| v.id) =~= args@.take(
                i as int,
            ).map_values(|v: Value| v.id).push(args@[i as int].id));
        }
        i += 1;
    }
    proof {
        assert(args@.take(args@.len() as int) =~= args@);
        assert(pool@ =~= old(pool)@ + args@.map_values(|v: Value| v.id));
    }
}

} // verus!
