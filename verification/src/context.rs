//! The context: the top-level owner of every function built in a session,
//! and the compilation pipeline that turns an in-progress function into a
//! callable artifact.
//!
//! Compilation is one-shot and consuming: it verifies the instruction graph
//! (every branch target bound, the body closed by a terminator), resolves
//! every branch's label to its bound position, and installs the resolved
//! graph in the context.  A verified graph is then invoked through the
//! engine of `crate::run`, whose behaviour `spec_run_func` defines exactly.

use vstd::prelude::*;
use crate::JitError;
use crate::function::UncompiledFunction;
use crate::ir::{FuncIR, Insn, Machine};
use crate::run::{run_func, spec_run_func, Outcome};
use crate::types::{Type, TypeKind};

verus! {

/// A type-checked, invocable handle over a compiled function, created only
/// by successful compilation.
pub struct CompiledFunction {
    /// The context slot holding the function's resolved instruction graph.
    pub func: usize,
    /// The signature the function was built from, governing invocation.
    pub sig: Type,
}

impl CompiledFunction {
    /// The run-time kind of the signature's return type; `Void` where the
    /// signature has none.
    pub open spec fn spec_ret_kind(&self) -> TypeKind {
        match self.sig.spec_return_type() {
            Option::Some(t) => t.spec_runtime_kind(),
            Option::None => TypeKind::Void,
        }
    }

    /// The signature the function was built from.
    pub fn get_signature(&self) -> (r: &Type)
        ensures
            r == &self.sig,
    {
        &self.sig
    }
}

/// Whether `insn` ends a basic block in a way that never falls through:
/// a return or an unconditional branch.
pub open spec fn spec_is_terminator(insn: Insn) -> bool {
    match insn {
        Insn::Ret { .. } => true,
        Insn::RetVoid => true,
        Insn::Branch { .. } => true,
        _ => false,
    }
}

/// Whether every branch of `body` targets a label that `labels` binds.
pub open spec fn branches_bound(body: Seq<Insn>, labels: Seq<Option<usize>>) -> bool {
    forall|i: int|
        0 <= i < body.len() ==> match #[trigger] body[i] {
            Insn::Branch { target } => target < labels.len() && labels[target as int] is Some,
            Insn::BranchIf { v: _, target } => target < labels.len() && labels[target as int]
                is Some,
            Insn::BranchIfNot { v: _, target } => target < labels.len() && labels[target as int]
                is Some,
            _ => true,
        }
}

/// Whether every branch of `body` resolves to a position strictly inside
/// the body, so that no jump can fall off its end: the compile-time face of
/// "every reachable path ends in a return" for graphs whose last
/// instruction is a terminator.
pub open spec fn branch_targets_in_range(body: Seq<Insn>, labels: Seq<Option<usize>>) -> bool {
    forall|i: int|
        0 <= i < body.len() ==> match #[trigger] body[i] {
            Insn::Branch { target } => labels[target as int]->Some_0 < body.len(),
            Insn::BranchIf { v: _, target } => labels[target as int]->Some_0 < body.len(),
            Insn::BranchIfNot { v: _, target } => labels[target as int]->Some_0 < body.len(),
            _ => true,
        }
}

/// `insn` with a branch's label index replaced by the label's bound
/// position.
pub open spec fn spec_patch_insn(insn: Insn, labels: Seq<Option<usize>>) -> Insn {
    match insn {
        Insn::Branch { target } => Insn::Branch { target: labels[target as int]->Some_0 },
        Insn::BranchIf { v, target } => Insn::BranchIf { v, target: labels[target as int]->Some_0 },
        Insn::BranchIfNot { v, target } => Insn::BranchIfNot {
            v,
            target: labels[target as int]->Some_0,
        },
        _ => insn,
    }
}

/// `body` with every branch resolved against `labels`.
pub open spec fn spec_patch(body: Seq<Insn>, labels: Seq<Option<usize>>) -> Seq<Insn> {
    body.map_values(|insn: Insn| spec_patch_insn(insn, labels))
}

/// The top-level owner of all functions created during a session.  Every
/// compiled graph lives in one of its slots; values, labels and builders
/// must not outlive it.
pub struct Context {
    /// One slot per function created from this context, filled by
    /// compilation.
    pub funcs: Vec<FuncIR>,
}

impl Context {
    /// A context owning no functions yet.
    pub fn new() -> (r: Context)
        ensures
            r.funcs@ == Seq::<FuncIR>::empty(),
    {
        Context { funcs: Vec::new() }
    }

    /// Creates an in-progress function from a signature type, reserving the
    /// context slot it will occupy once compiled.  A type that is not a
    /// signature is rejected.
    pub fn new_function(&mut self, sig: Type) -> (r: Result<UncompiledFunction, JitError>)
        requires
            old(self).funcs@.len() < usize::MAX,
        ensures
            sig.spec_get_kind() != TypeKind::Signature ==> r == Result::<
                UncompiledFunction,
                JitError,
            >::Err(JitError::TypeMismatch) && *final(self) == *old(self),
            sig.spec_get_kind() == TypeKind::Signature ==> ({
                &&& final(self).funcs@.len() == old(self).funcs@.len() + 1
                &&& (forall|i: int|
                    0 <= i < old(self).funcs@.len() ==> final(self).funcs@[i] == old(self).funcs@[i])
                &&& !final(self).funcs@.last().ready
                &&& r matches Result::Ok(f) && f.id == old(self).funcs@.len() && f.sig == sig
                    && f.nparams == sig.spec_params().len() && f.body@ == Seq::<Insn>::empty()
                    && f.pool@ == Seq::<usize>::empty() && f.labels@ == Seq::<Option<usize>>::empty()
                    && f.loops@ == Seq::<(usize, usize)>::empty()
            }),
    {
        let is_sig = match sig.get_kind() {
            TypeKind::Signature => true,
            _ => false,
        };
        if !is_sig {
            return Result::Err(JitError::TypeMismatch);
        }
        let id = self.funcs.len();
        self.funcs.push(FuncIR::empty());
        let nparams = sig.param_count();
        Result::Ok(
            UncompiledFunction {
                id,
                sig,
                nparams,
                body: Vec::new(),
                pool: Vec::new(),
                labels: Vec::new(),
                loops: Vec::new(),
            },
        )
    }

    /// Compiles `f`, consuming it: fails with `UnboundLabel` if any branch
    /// references a label that was never bound, and with
    /// `VerificationError` if the slot is missing or already filled, if the
    /// body does not end in a terminator, or if any branch resolves to the
    /// end of the body — the two shapes in which a path could fall off the
    /// graph without returning.  Otherwise every branch is resolved to its
    /// label's bound position, the graph is installed, and the callable
    /// handle is returned; every reachable path of the installed graph then
    /// ends in a return or stays inside the body.
    pub fn compile(&mut self, f: UncompiledFunction) -> (r: Result<CompiledFunction, JitError>)
        ensures
            !(f.id < old(self).funcs@.len() && !old(self).funcs@[f.id as int].ready) ==> r
                == Result::<CompiledFunction, JitError>::Err(JitError::VerificationError) && *final(self) == *old(self),
            f.id < old(self).funcs@.len() && !old(self).funcs@[f.id as int].ready
                && !branches_bound(f.body@, f.labels@) ==> r == Result::<
                CompiledFunction,
                JitError,
            >::Err(JitError::UnboundLabel) && *final(self) == *old(self),
            f.id < old(self).funcs@.len() && !old(self).funcs@[f.id as int].ready && branches_bound(
                f.body@,
                f.labels@,
            ) && !(f.body@.len() > 0 && spec_is_terminator(f.body@.last()) && branch_targets_in_range(
                f.body@,
                f.labels@,
            )) ==> r == Result::<CompiledFunction, JitError>::Err(JitError::VerificationError)
                && *final(self) == *old(self),
            f.id < old(self).funcs@.len() && !old(self).funcs@[f.id as int].ready && branches_bound(
                f.body@,
                f.labels@,
            ) && f.body@.len() > 0 && spec_is_terminator(f.body@.last()) && branch_targets_in_range(
                f.body@,
                f.labels@,
            ) ==> ({
                &&& r matches Result::Ok(cf) && cf.func == f.id && cf.sig == f.sig
                &&& final(self).funcs@.len() == old(self).funcs@.len()
                &&& (forall|i: int|
                    0 <= i < old(self).funcs@.len() && i != f.id ==> final(self).funcs@[i] == old(self).funcs@[i])
                &&& final(self).funcs@[f.id as int].ready
                &&& final(self).funcs@[f.id as int].nparams == f.nparams
                &&& final(self).funcs@[f.id as int].body@ == spec_patch(f.body@, f.labels@)
                &&& final(self).funcs@[f.id as int].pool@ == f.pool@
            }),
    {
        if !(f.id < self.funcs.len()) {
            return Result::Err(JitError::VerificationError);
        }
        if self.funcs[f.id].ready {
            return Result::Err(JitError::VerificationError);
        }
        // First pass: every branch must reference a bound label.
        let mut i: usize = 0;
        while i < f.body.len()
            invariant
                i <= f.body@.len(),
                self.funcs@ == old(self).funcs@,
                f.id < old(self).funcs@.len(),
                !old(self).funcs@[f.id as int].ready,
                forall|j: int|
                    0 <= j < i ==> match #[trigger] f.body@[j] {
                        Insn::Branch { target } => target < f.labels@.len() && f.labels@[target as int]
                            is Some,
                        Insn::BranchIf { v: _, target } => target < f.labels@.len()
                            && f.labels@[target as int] is Some,
                        Insn::BranchIfNot { v: _, target } => target < f.labels@.len()
                            && f.labels@[target as int] is Some,
                        _ => true,
                    },
            decreases f.body@.len() - i,
        {
            let ok = match f.body[i] {
                Insn::Branch { target } => target < f.labels.len() && (match f.labels[target] {
                    Option::Some(_) => true,
                    Option::None => false,
                }),
                Insn::BranchIf { v: _, target } => target < f.labels.len() && (
                match f.labels[target] {
                    Option::Some(_) => true,
                    Option::None => false,
                }),
                Insn::BranchIfNot { v: _, target } => target < f.labels.len() && (
                match f.labels[target] {
                    Option::Some(_) => true,
                    Option::None => false,
                }),
                _ => true,
            };
            if !ok {
                return Result::Err(JitError::UnboundLabel);
            }
            i += 1;
        }
        proof {
            assert(branches_bound(f.body@, f.labels@));
        }
        // Second check: the body must be closed by a terminator.
        let closed = f.body.len() > 0 && (match f.body[f.body.len() - 1] {
            Insn::Ret { .. } => true,
            Insn::RetVoid => true,
            Insn::Branch { .. } => true,
            _ => false,
        });
        if !closed {
            return Result::Err(JitError::VerificationError);
        }
        // Third pass: no branch may resolve to the end of the body, where
        // execution would fall off the graph.
        let mut i: usize = 0;
        while i < f.body.len()
            invariant
                i <= f.body@.len(),
                self.funcs@ == old(self).funcs@,
                f.id < old(self).funcs@.len(),
                !old(self).funcs@[f.id as int].ready,
                branches_bound(f.body@, f.labels@),
                forall|j: int|
                    0 <= j < i ==> match #[trigger] f.body@[j] {
                        Insn::Branch { target } => f.labels@[target as int]->Some_0 < f.body@.len(),
                        Insn::BranchIf { v: _, target } => f.labels@[target as int]->Some_0
                            < f.body@.len(),
                        Insn::BranchIfNot { v: _, target } => f.labels@[target as int]->Some_0
                            < f.body@.len(),
                        _ => true,
                    },
            decreases f.body@.len() - i,
        {
            let in_range = match f.body[i] {
                Insn::Branch { target } => {
                    assert(target < f.labels@.len() && f.labels@[target as int] is Some);
                    match f.labels[target] {
                        Option::Some(pos) => pos < f.body.len(),
                        Option::None => false,
                    }
                },
                Insn::BranchIf { v: _, target } => {
                    assert(target < f.labels@.len() && f.labels@[target as int] is Some);
                    match f.labels[target] {
                        Option::Some(pos) => pos < f.body.len(),
                        Option::None => false,
                    }
                },
                Insn::BranchIfNot { v: _, target } => {
                    assert(target < f.labels@.len() && f.labels@[target as int] is Some);
                    match f.labels[target] {
                        Option::Some(pos) => pos < f.body.len(),
                        Option::None => false,
                    }
                },
                _ => true,
            };
            if !in_range {
                return Result::Err(JitError::VerificationError);
            }
            i += 1;
        }
        proof {
            assert(branch_targets_in_range(f.body@, f.labels@));
        }
        // Resolution pass: patch each branch to its label's bound position.
        let mut patched: Vec<Insn> = Vec::new();
        let mut i: usize = 0;
        while i < f.body.len()
            invariant
                i <= f.body@.len(),
                self.funcs@ == old(self).funcs@,
                f.id < old(self).funcs@.len(),
                !old(self).funcs@[f.id as int].ready,
                patched@.len() == i,
                branches_bound(f.body@, f.labels@),
                forall|j: int| 0 <= j < i ==> patched@[j] == spec_patch_insn(f.body@[j], f.labels@),
            decreases f.body@.len() - i,
        {
            let insn = f.body[i];
            let p = match insn {
                Insn::Branch { target } => {
                    assert(target < f.labels@.len() && f.labels@[target as int] is Some);
                    match f.labels[target] {
                        Option::Some(pos) => Insn::Branch { target: pos },
                        Option::None => insn,
                    }
                },
                Insn::BranchIf { v, target } => {
                    assert(target < f.labels@.len() && f.labels@[target as int] is Some);
                    match f.labels[target] {
                        Option::Some(pos) => Insn::BranchIf { v, target: pos },
                        Option::None => insn,
                    }
                },
                Insn::BranchIfNot { v, target } => {
                    assert(target < f.labels@.len() && f.labels@[target as int] is Some);
                    match f.labels[target] {
                        Option::Some(pos) => Insn::BranchIfNot { v, target: pos },
                        Option::None => insn,
                    }
                },
                _ => insn,
            };
            patched.push(p);
            i += 1;
        }
        proof {
            assert(patched@ =~= spec_patch(f.body@, f.labels@));
        }
        let fid = f.id;
        self.funcs.set(fid, FuncIR { ready: true, nparams: f.nparams, body: patched, pool: f.pool });
        Result::Ok(CompiledFunction { func: fid, sig: f.sig })
    }

    /// Invokes a compiled function on argument representations against a
    /// machine, bounded by `fuel` units of work; the result and the
    /// machine's final state are exactly those of the semantics.
    pub fn invoke(&self, cf: &CompiledFunction, args: Vec<u64>, m: &mut Machine, fuel: u64) -> (r:
        Outcome)
        ensures
            r == spec_run_func(self.funcs@, cf.func as int, args@, old(m)@, fuel as nat).outcome,
            final(m)@ == spec_run_func(self.funcs@, cf.func as int, args@, old(m)@, fuel as nat).mach,
    {
        run_func(&self.funcs, cf.func, args, m, fuel)
    }

    /// Invokes a compiled function that needs no buffer and makes no native
    /// calls, bounded by `fuel` units of work.
    pub fn invoke_simple(&self, cf: &CompiledFunction, args: Vec<u64>, fuel: u64) -> (r: Outcome)
        ensures
            ({
                let m0 = crate::ir::MachV {
                    mem: Seq::<u8>::empty(),
                    input: Seq::<u64>::empty(),
                    output: Seq::<crate::ir::HostEventV>::empty(),
                };
                r == spec_run_func(self.funcs@, cf.func as int, args@, m0, fuel as nat).outcome
            }),
    {
        let mut m = Machine::idle();
        proof {
            assert(m@ =~= crate::ir::MachV {
                mem: Seq::<u8>::empty(),
                input: Seq::<u64>::empty(),
                output: Seq::<crate::ir::HostEventV>::empty(),
            });
        }
        run_func(&self.funcs, cf.func, args, &mut m, fuel)
    }
}

} // verus!
