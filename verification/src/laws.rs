//! Properties of the library that hold of all inputs, stated and proved
//! here: determinism of invocation, the default-value round trip for every
//! primitive kind, zero-trip loop entry, and the struct-field round trip.

use vstd::prelude::*;
use crate::JitError;
use crate::context::{CompiledFunction, Context};
use crate::function::Value;
use crate::ir::{FuncIR, Insn, MachV};
use crate::run::{spec_run_body, spec_run_func, Outcome};
use crate::types::{Field, Type, TypeKind};

verus! {

/// Invoking one compiled function twice with identical arguments against
/// identical machines yields identical results: the semantics is a pure
/// function of the program, the arguments and the machine, with no hidden
/// state left behind by the builder.
pub proof fn lemma_invoke_deterministic(
    prog: Seq<FuncIR>,
    fidx: int,
    args1: Seq<u64>,
    args2: Seq<u64>,
    m1: MachV,
    m2: MachV,
    fuel: nat,
)
    requires
        args1 == args2,
        m1 == m2,
    ensures
        spec_run_func(prog, fidx, args1, m1, fuel) == spec_run_func(prog, fidx, args2, m2, fuel),
{
}

/// A conditional loop entry whose test value is zero branches straight to
/// the loop's end position: none of the instructions between the entry test
/// and the end are executed.  This is the zero-trip case of a loop whose
/// test fails immediately.
pub proof fn lemma_zero_trip(
    prog: Seq<FuncIR>,
    fidx: int,
    env: Seq<u64>,
    pc: int,
    v: usize,
    target: usize,
    m: MachV,
    fuel: nat,
)
    requires
        fuel >= 1,
        0 <= fidx < prog.len(),
        0 <= pc < prog[fidx].body@.len(),
        prog[fidx].body@[pc] == (Insn::BranchIfNot { v, target }),
        v < env.len(),
        env[v as int] == 0,
    ensures
        spec_run_body(prog, fidx, env, pc, m, fuel) == spec_run_body(
            prog,
            fidx,
            env,
            target as int,
            m,
            (fuel - 1) as nat,
        ),
{
}

/// A function whose body is a constant of kind `k` with representation 0
/// followed by a return of that constant returns 0 — the representation of
/// the kind's default value — on every machine, leaving the machine
/// untouched.
pub proof fn lemma_default_value_runs(
    prog: Seq<FuncIR>,
    fidx: int,
    k: TypeKind,
    m: MachV,
    fuel: nat,
)
    requires
        0 <= fidx < prog.len(),
        prog[fidx].ready,
        prog[fidx].nparams == 0,
        prog[fidx].body@.len() == 2,
        prog[fidx].body@[0] == (Insn::Const { kind: k, bits: 0 }),
        prog[fidx].body@[1] == (Insn::Ret { v: 0 }) || prog[fidx].body@[1] == Insn::RetVoid,
        fuel >= 3,
    ensures
        spec_run_func(prog, fidx, Seq::empty(), m, fuel).outcome == Outcome::Returned(0),
        spec_run_func(prog, fidx, Seq::empty(), m, fuel).mach == m,
{
    reveal_with_fuel(spec_run_func, 2);
    reveal_with_fuel(spec_run_body, 4);
    assert(spec_run_func(prog, fidx, Seq::empty(), m, fuel).outcome == Outcome::Returned(0));
    assert(spec_run_func(prog, fidx, Seq::empty(), m, fuel).mach == m);
}

/// Iterating a struct type's fields yields them in insertion order, each
/// with the name and type it was constructed from.
pub proof fn lemma_struct_fields_round_trip(fields: Vec<Field>)
    ensures
        (Type::StructOf(fields)).spec_fields() == fields@,
{
}

/// Builds, compiles and installs in `ctx` a function of no parameters whose
/// body produces the default value of primitive kind `k` — representation
/// zero — and returns it.  The constructed value's queried kind equals `k`,
/// and invoking the compiled function on any machine with fuel of at least
/// 3 returns 0 and leaves the machine untouched.
pub fn build_default_value_fn(ctx: &mut Context, k: TypeKind) -> (r: Result<
    (CompiledFunction, Value),
    JitError,
>)
    requires
        k.spec_is_primitive(),
        old(ctx).funcs@.len() < usize::MAX,
    ensures
        r matches Result::Ok(p) ==> {
            &&& p.1.kind == k
            &&& forall|m: MachV, fuel: nat|
                fuel >= 3 ==> #[trigger] spec_run_func(
                    final(ctx).funcs@,
                    p.0.func as int,
                    Seq::empty(),
                    m,
                    fuel,
                ).outcome == Outcome::Returned(0) && spec_run_func(
                    final(ctx).funcs@,
                    p.0.func as int,
                    Seq::empty(),
                    m,
                    fuel,
                ).mach == m
        },
        r is Ok,
{
    let ret_ty = Type::primitive(k);
    let sig = Type::signature(Vec::new(), ret_ty);
    let mut f = match ctx.new_function(sig) {
        Result::Ok(f) => f,
        Result::Err(e) => {
            return Result::Err(e);
        },
    };
    let val = match f.insn_const(k, 0) {
        Result::Ok(v) => v,
        Result::Err(e) => {
            return Result::Err(e);
        },
    };
    proof {
        assert(0u64 & k.spec_mask() == 0u64) by (bit_vector);
    }
    let is_void = match k {
        TypeKind::Void => true,
        _ => false,
    };
    let emit = if is_void {
        f.insn_default_return()
    } else {
        f.insn_return(val)
    };
    match emit {
        Result::Ok(()) => {},
        Result::Err(e) => {
            return Result::Err(e);
        },
    }
    assert(f.body@.len() == 2);
    assert(f.body@[0] == (Insn::Const { kind: k, bits: 0 }));
    assert(f.body@[1] == (Insn::Ret { v: 0 }) || f.body@[1] == Insn::RetVoid);
    let ghost fsnap = f;
    let cf = match ctx.compile(f) {
        Result::Ok(cf) => cf,
        Result::Err(e) => {
            return Result::Err(e);
        },
    };
    proof {
        let prog = ctx.funcs@;
        let fidx = cf.func as int;
        assert(prog[fidx].body@ == crate::context::spec_patch(fsnap.body@, fsnap.labels@));
        assert(prog[fidx].body@.len() == 2);
        assert(prog[fidx].body@[0] == crate::context::spec_patch_insn(fsnap.body@[0], fsnap.labels@));
        assert(prog[fidx].body@[1] == crate::context::spec_patch_insn(fsnap.body@[1], fsnap.labels@));
        assert(prog[fidx].body@[0] == (Insn::Const { kind: k, bits: 0 }));
        assert(prog[fidx].body@[1] == (Insn::Ret { v: 0 }) || prog[fidx].body@[1] == Insn::RetVoid);
        assert forall|m: MachV, fuel: nat| fuel >= 3 implies #[trigger] spec_run_func(
            prog,
            fidx,
            Seq::empty(),
            m,
            fuel,
        ).outcome == Outcome::Returned(0) && spec_run_func(
            prog,
            fidx,
            Seq::empty(),
            m,
            fuel,
        ).mach == m by {
            lemma_default_value_runs(prog, fidx, k, m, fuel);
        }
    }
        Result::Ok((cf, val))
}

/// A counted loop executes its body exactly as many times as its entry test
/// dictates.  The shape: slot 0 holds the counter, slot 1 the accumulator,
/// slots 2 and 3 the constants 1 and 2; each trip adds 2 to the accumulator
/// and decrements the counter; the loop exits when the counter reaches 0 and
/// the accumulator is returned.  Starting from the loop's entry test with
/// counter `n`, the run returns the accumulator increased by exactly `2 * n`
/// — the body has run exactly `n` times — and leaves the machine untouched.
pub proof fn lemma_counted_loop_trips(
    prog: Seq<FuncIR>,
    fidx: int,
    env: Seq<u64>,
    m: MachV,
    fuel: nat,
)
    requires
        0 <= fidx < prog.len(),
        prog[fidx].nparams == 1,
        prog[fidx].body@.len() == 10,
        prog[fidx].body@[3] == (Insn::BranchIfNot { v: 0, target: 9 }),
        prog[fidx].body@[4] == (Insn::Add { kind: TypeKind::NUInt, a: 1, b: 3 }),
        prog[fidx].body@[5] == (Insn::Store { dest: 1, src: 5 }),
        prog[fidx].body@[6] == (Insn::Sub { kind: TypeKind::NUInt, a: 0, b: 2 }),
        prog[fidx].body@[7] == (Insn::Store { dest: 0, src: 7 }),
        prog[fidx].body@[8] == (Insn::Branch { target: 3 }),
        prog[fidx].body@[9] == (Insn::Ret { v: 1 }),
        env.len() == 11,
        env[2] == 1,
        env[3] == 2,
        6 * env[0] + 2 <= fuel,
        env[1] + 2 * env[0] <= u64::MAX,
    ensures
        spec_run_body(prog, fidx, env, 3, m, fuel) == (crate::run::StepRes {
            outcome: Outcome::Returned((env[1] + 2 * env[0]) as u64),
            mach: m,
        }),
    decreases env[0],
{
    reveal_with_fuel(spec_run_body, 7);
    if env[0] == 0 {
        assert(spec_run_body(prog, fidx, env, 3, m, fuel).outcome == Outcome::Returned(env[1]));
    } else {
        let bumped = vstd::wrapping::u64_specs::wrapping_add(env[1], env[3]) & TypeKind::NUInt.spec_mask();
        let lowered = vstd::wrapping::u64_specs::wrapping_sub(env[0], env[2]) & TypeKind::NUInt.spec_mask();
        assert(forall|x: u64| #[trigger] (x & 0xffff_ffff_ffff_ffffu64) == x) by (bit_vector);
        assert(bumped == (env[1] + 2) as u64);
        assert(lowered == (env[0] - 1) as u64);
        let env2 = env.update(5, bumped).update(1, bumped).update(7, lowered).update(0, lowered);
        assert(spec_run_body(prog, fidx, env, 3, m, fuel) == spec_run_body(
            prog,
            fidx,
            env2,
            3,
            m,
            (fuel - 6) as nat,
        ));
        assert(env2.len() == 11 && env2[0] == lowered && env2[1] == bumped && env2[2] == 1
            && env2[3] == 2);
        lemma_counted_loop_trips(prog, fidx, env2, m, (fuel - 6) as nat);
    }
}

/// Builds, compiles and installs in `ctx` a counted loop: a function of one
/// counter parameter whose loop body adds 2 to an accumulator and
/// decrements the counter until it reaches zero, returning the accumulator.
/// Invoking it on counter `n` with enough fuel returns exactly `2 * n` on
/// every machine: the loop body has run exactly as many times as the entry
/// test dictates, including zero times for a counter of zero.
pub fn build_counted_loop_fn(ctx: &mut Context) -> (r: Result<CompiledFunction, JitError>)
    requires
        old(ctx).funcs@.len() < usize::MAX,
    ensures
        r is Ok,
        r matches Result::Ok(cf) ==> forall|m: MachV, n: u64, fuel: nat|
            2 * n <= u64::MAX && 6 * n + 6 <= fuel ==> #[trigger] spec_run_func(
                final(ctx).funcs@,
                cf.func as int,
                seq![n],
                m,
                fuel,
            ) == (crate::run::StepRes { outcome: Outcome::Returned((2 * n) as u64), mach: m }),
{
    let mut params: Vec<Type> = Vec::new();
    params.push(Type::primitive(TypeKind::NUInt));
    let sig = Type::signature(params, Type::primitive(TypeKind::NUInt));
    let mut f = match ctx.new_function(sig) {
        Result::Ok(f) => f,
        Result::Err(e) => {
            return Result::Err(e);
        },
    };
    proof {
        assert(0u64 & TypeKind::NUInt.spec_mask() == 0u64) by (bit_vector);
        assert(1u64 & TypeKind::NUInt.spec_mask() == 1u64) by (bit_vector);
        assert(2u64 & TypeKind::NUInt.spec_mask() == 2u64) by (bit_vector);
    }
    let n = f.get_param(0).unwrap();
    let acc = f.insn_const(TypeKind::NUInt, 0).unwrap();
    let one = f.insn_const(TypeKind::NUInt, 1).unwrap();
    let two = f.insn_const(TypeKind::NUInt, 2).unwrap();
    let (_start, end) = f.loop_begin();
    f.insn_branch_if_not(n, end).unwrap();
    let bumped = f.insn_add(acc, two).unwrap();
    f.insn_store(acc, bumped).unwrap();
    let less = f.insn_sub(n, one).unwrap();
    f.insn_store(n, less).unwrap();
    f.loop_end().unwrap();
    f.insn_return(acc).unwrap();
    assert(f.body@.len() == 10);
    assert(f.labels@.len() == 2);
    assert(f.labels@[0] == Option::Some(3usize));
    assert(f.labels@[1] == Option::Some(9usize));
    let ghost fsnap = f;
    let cf = match ctx.compile(f) {
        Result::Ok(cf) => cf,
        Result::Err(e) => {
            return Result::Err(e);
        },
    };
    proof {
        let prog = ctx.funcs@;
        let fidx = cf.func as int;
        assert(prog[fidx].body@ == crate::context::spec_patch(fsnap.body@, fsnap.labels@));
        assert(prog[fidx].body@.len() == 10);
        assert forall|j: int| 0 <= j < 10 implies #[trigger] prog[fidx].body@[j]
            == crate::context::spec_patch_insn(fsnap.body@[j], fsnap.labels@) by {}
        assert(prog[fidx].body@[3] == (Insn::BranchIfNot { v: 0, target: 9 }));
        assert(prog[fidx].body@[4] == (Insn::Add { kind: TypeKind::NUInt, a: 1, b: 3 }));
        assert(prog[fidx].body@[5] == (Insn::Store { dest: 1, src: 5 }));
        assert(prog[fidx].body@[6] == (Insn::Sub { kind: TypeKind::NUInt, a: 0, b: 2 }));
        assert(prog[fidx].body@[7] == (Insn::Store { dest: 0, src: 7 }));
        assert(prog[fidx].body@[8] == (Insn::Branch { target: 3 }));
        assert(prog[fidx].body@[9] == (Insn::Ret { v: 1 }));
        assert(prog[fidx].ready && prog[fidx].nparams == 1);
        assert forall|m: MachV, n_arg: u64, fuel: nat|
            2 * n_arg <= u64::MAX && 6 * n_arg + 6 <= fuel implies #[trigger] spec_run_func(
            prog,
            fidx,
            seq![n_arg],
            m,
            fuel,
        ) == (crate::run::StepRes {
            outcome: Outcome::Returned((2 * n_arg) as u64),
            mach: m,
        }) by {
            reveal_with_fuel(spec_run_body, 5);
            let env0 = seq![n_arg] + Seq::new(10nat, |i: int| 0u64);
            assert(env0.len() == 11);
            let env3 = env0.update(1, 0u64).update(2, 1u64).update(3, 2u64);
            assert(spec_run_func(prog, fidx, seq![n_arg], m, fuel) == spec_run_body(
                prog,
                fidx,
                env0,
                0,
                m,
                (fuel - 1) as nat,
            ));
            assert(spec_run_body(prog, fidx, env0, 0, m, (fuel - 1) as nat) == spec_run_body(
                prog,
                fidx,
                env3,
                3,
                m,
                (fuel - 4) as nat,
            ));
            assert(env3[0] == n_arg && env3[1] == 0 && env3[2] == 1 && env3[3] == 2);
            lemma_counted_loop_trips(prog, fidx, env3, m, (fuel - 4) as nat);
        }
    }
    Result::Ok(cf)
}

} // verus!
