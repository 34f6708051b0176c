//! The meaning of a compiled instruction graph: a small-step, bit-level
//! semantics.  `spec_run_func` is the mathematical definition; `run_func` is
//! the executable engine, proved to compute exactly that definition.
//!
//! Values are 64-bit representations, truncated to their kind's width.
//! Execution is bounded by a fuel budget so that the semantics is total; a
//! malformed graph traps rather than doing anything undefined.

use vstd::prelude::*;
use vstd::wrapping::u64_specs;
use crate::ir::{FuncIR, HostEvent, HostEventV, Insn, MachV, Machine};
use crate::types::TypeKind;

verus! {

/// What running a function produced.
#[derive(Clone, Copy, PartialEq, Eq, Structural, Debug)]
pub enum Outcome {
    /// The function returned normally; for a void function the bits are 0.
    Returned(u64),
    /// The fuel budget ran out before the function finished.
    OutOfFuel,
    /// Execution hit a malformed edge of the graph: an operand slot or
    /// branch target out of range, a memory access outside the buffer, a
    /// call to a function that was never compiled, or a native call with no
    /// host result left to consume.
    Trapped,
}

/// The result of running: the outcome together with the machine as the run
/// left it.
#[verifier::ext_equal]
pub struct StepRes {
    /// What the run produced.
    pub outcome: Outcome,
    /// The machine after the run.
    pub mach: MachV,
}

/// Converts `v` from integer kind `from` to integer kind `to`: sign-extend
/// when the source kind is signed and the value negative, then truncate to
/// the target width.
pub open spec fn spec_convert_bits(v: u64, from: TypeKind, to: TypeKind) -> u64 {
    if from.spec_is_signed() && v & from.spec_sign_bit() != 0 {
        (v | !from.spec_mask()) & to.spec_mask()
    } else {
        v & to.spec_mask()
    }
}

/// Whether `a` is below `b` in the order of kind `k`.
pub open spec fn spec_lt_bits(a: u64, b: u64, k: TypeKind) -> bool {
    if k.spec_is_signed() {
        (a ^ k.spec_sign_bit()) < (b ^ k.spec_sign_bit())
    } else {
        a < b
    }
}

/// Whether the `w`-byte range at `base + off` lies inside `mem`.
pub open spec fn spec_mem_ok(mem: Seq<u8>, base: u64, off: u64, w: u64) -> bool {
    off <= mem.len() && w <= mem.len() - off && base <= mem.len() - off - w
}

/// The little-endian value of the `w` bytes of `mem` at `addr`.
pub open spec fn spec_read_bits(mem: Seq<u8>, addr: int, w: u64) -> u64 {
    if w == 1 {
        mem[addr] as u64
    } else if w == 2 {
        (mem[addr] as u64) | (mem[addr + 1] as u64) << 8
    } else if w == 4 {
        (mem[addr] as u64) | (mem[addr + 1] as u64) << 8 | (mem[addr + 2] as u64) << 16 | (mem[addr
            + 3] as u64) << 24
    } else if w == 8 {
        (mem[addr] as u64) | (mem[addr + 1] as u64) << 8 | (mem[addr + 2] as u64) << 16 | (mem[addr
            + 3] as u64) << 24 | (mem[addr + 4] as u64) << 32 | (mem[addr + 5] as u64) << 40 | (
        mem[addr + 6] as u64) << 48 | (mem[addr + 7] as u64) << 56
    } else {
        0
    }
}

/// `mem` with the low `w` bytes of `bits` written at `addr`, little-endian.
pub open spec fn spec_write_bits(mem: Seq<u8>, addr: int, w: u64, bits: u64) -> Seq<u8> {
    if w == 1 {
        mem.update(addr, (bits & 0xff) as u8)
    } else if w == 2 {
        mem.update(addr, (bits & 0xff) as u8).update(addr + 1, ((bits >> 8) & 0xff) as u8)
    } else if w == 4 {
        mem.update(addr, (bits & 0xff) as u8).update(addr + 1, ((bits >> 8) & 0xff) as u8).update(
            addr + 2,
            ((bits >> 16) & 0xff) as u8,
        ).update(addr + 3, ((bits >> 24) & 0xff) as u8)
    } else if w == 8 {
        mem.update(addr, (bits & 0xff) as u8).update(addr + 1, ((bits >> 8) & 0xff) as u8).update(
            addr + 2,
            ((bits >> 16) & 0xff) as u8,
        ).update(addr + 3, ((bits >> 24) & 0xff) as u8).update(
            addr + 4,
            ((bits >> 32) & 0xff) as u8,
        ).update(addr + 5, ((bits >> 40) & 0xff) as u8).update(
            addr + 6,
            ((bits >> 48) & 0xff) as u8,
        ).update(addr + 7, ((bits >> 56) & 0xff) as u8)
    } else {
        mem
    }
}

/// The argument values named by `pool[start .. start + n]`, or `None` if any
/// index is out of range.
pub open spec fn spec_gather(env: Seq<u64>, pool: Seq<usize>, start: int, n: int) -> Option<
    Seq<u64>,
>
    decreases n,
{
    if n <= 0 {
        Option::Some(Seq::empty())
    } else if 0 <= start < pool.len() && pool[start] < env.len() {
        match spec_gather(env, pool, start + 1, n - 1) {
            Option::Some(rest) => Option::Some(seq![env[pool[start] as int]] + rest),
            Option::None => Option::None,
        }
    } else {
        Option::None
    }
}

/// Runs function `fidx` of `prog` on `args`: lays out the value slots, then
/// steps through the body from its first instruction.
pub open spec fn spec_run_func(
    prog: Seq<FuncIR>,
    fidx: int,
    args: Seq<u64>,
    m: MachV,
    fuel: nat,
) -> StepRes
    decreases fuel, 1nat,
{
    if fuel == 0 {
        StepRes { outcome: Outcome::OutOfFuel, mach: m }
    } else if 0 <= fidx < prog.len() && prog[fidx].ready && args.len() == prog[fidx].nparams
        && prog[fidx].nparams + prog[fidx].body@.len() <= usize::MAX {
        let env = args + Seq::new(prog[fidx].body@.len(), |i: int| 0u64);
        spec_run_body(prog, fidx, env, 0, m, (fuel - 1) as nat)
    } else {
        StepRes { outcome: Outcome::Trapped, mach: m }
    }
}

/// Steps the body of function `fidx` from position `pc` with value slots
/// `env`, consuming one unit of fuel per instruction.
pub open spec fn spec_run_body(
    prog: Seq<FuncIR>,
    fidx: int,
    env: Seq<u64>,
    pc: int,
    m: MachV,
    fuel: nat,
) -> StepRes
    decreases fuel, 0nat,
{
    if fuel == 0 {
        StepRes { outcome: Outcome::OutOfFuel, mach: m }
    } else if !(0 <= fidx < prog.len()) {
        StepRes { outcome: Outcome::Trapped, mach: m }
    } else {
        let f = prog[fidx];
        if !(0 <= pc < f.body@.len()) {
            StepRes { outcome: Outcome::Trapped, mach: m }
        } else {
            let dst = f.nparams + pc;
            let fl = (fuel - 1) as nat;
            match f.body@[pc] {
                Insn::Const { kind: _, bits } => if dst < env.len() {
                    spec_run_body(prog, fidx, env.update(dst, bits), pc + 1, m, fl)
                } else {
                    StepRes { outcome: Outcome::Trapped, mach: m }
                },
                Insn::Add { kind, a, b } => if a < env.len() && b < env.len() && dst < env.len() {
                    let r = u64_specs::wrapping_add(env[a as int], env[b as int])
                        & kind.spec_mask();
                    spec_run_body(prog, fidx, env.update(dst, r), pc + 1, m, fl)
                } else {
                    StepRes { outcome: Outcome::Trapped, mach: m }
                },
                Insn::Sub { kind, a, b } => if a < env.len() && b < env.len() && dst < env.len() {
                    let r = u64_specs::wrapping_sub(env[a as int], env[b as int])
                        & kind.spec_mask();
                    spec_run_body(prog, fidx, env.update(dst, r), pc + 1, m, fl)
                } else {
                    StepRes { outcome: Outcome::Trapped, mach: m }
                },
                Insn::Mul { kind, a, b } => if a < env.len() && b < env.len() && dst < env.len() {
                    let r = u64_specs::wrapping_mul(env[a as int], env[b as int])
                        & kind.spec_mask();
                    spec_run_body(prog, fidx, env.update(dst, r), pc + 1, m, fl)
                } else {
                    StepRes { outcome: Outcome::Trapped, mach: m }
                },
                Insn::CmpEq { a, b } => if a < env.len() && b < env.len() && dst < env.len() {
                    let r: u64 = if env[a as int] == env[b as int] {
                        1
                    } else {
                        0
                    };
                    spec_run_body(prog, fidx, env.update(dst, r), pc + 1, m, fl)
                } else {
                    StepRes { outcome: Outcome::Trapped, mach: m }
                },
                Insn::CmpLt { kind, a, b } => if a < env.len() && b < env.len() && dst
                    < env.len() {
                    let r: u64 = if spec_lt_bits(env[a as int], env[b as int], kind) {
                        1
                    } else {
                        0
                    };
                    spec_run_body(prog, fidx, env.update(dst, r), pc + 1, m, fl)
                } else {
                    StepRes { outcome: Outcome::Trapped, mach: m }
                },
                Insn::Convert { from, to, v } => if v < env.len() && dst < env.len() {
                    let r = spec_convert_bits(env[v as int], from, to);
                    spec_run_body(prog, fidx, env.update(dst, r), pc + 1, m, fl)
                } else {
                    StepRes { outcome: Outcome::Trapped, mach: m }
                },
                Insn::Store { dest, src } => if dest < env.len() && src < env.len() && dst
                    < env.len() {
                    spec_run_body(prog, fidx, env.update(dest as int, env[src as int]), pc + 1, m, fl)
                } else {
                    StepRes { outcome: Outcome::Trapped, mach: m }
                },
                Insn::LoadRel { kind, base, offset } => if base < env.len() && dst < env.len()
                    && spec_mem_ok(m.mem, env[base as int], offset, kind.spec_width()) {
                    let addr = env[base as int] + offset;
                    let r = spec_read_bits(m.mem, addr as int, kind.spec_width());
                    spec_run_body(prog, fidx, env.update(dst, r), pc + 1, m, fl)
                } else {
                    StepRes { outcome: Outcome::Trapped, mach: m }
                },
                Insn::StoreRel { kind, base, offset, v } => if base < env.len() && v < env.len()
                    && dst < env.len() && spec_mem_ok(
                    m.mem,
                    env[base as int],
                    offset,
                    kind.spec_width(),
                ) {
                    let addr = env[base as int] + offset;
                    let mem2 = spec_write_bits(m.mem, addr as int, kind.spec_width(), env[v as int]);
                    spec_run_body(
                        prog,
                        fidx,
                        env.update(dst, 0u64),
                        pc + 1,
                        MachV { mem: mem2, ..m },
                        fl,
                    )
                } else {
                    StepRes { outcome: Outcome::Trapped, mach: m }
                },
                Insn::Branch { target } => spec_run_body(prog, fidx, env, target as int, m, fl),
                Insn::BranchIf { v, target } => if v < env.len() {
                    if env[v as int] != 0 {
                        spec_run_body(prog, fidx, env, target as int, m, fl)
                    } else {
                        spec_run_body(prog, fidx, env, pc + 1, m, fl)
                    }
                } else {
                    StepRes { outcome: Outcome::Trapped, mach: m }
                },
                Insn::BranchIfNot { v, target } => if v < env.len() {
                    if env[v as int] == 0 {
                        spec_run_body(prog, fidx, env, target as int, m, fl)
                    } else {
                        spec_run_body(prog, fidx, env, pc + 1, m, fl)
                    }
                } else {
                    StepRes { outcome: Outcome::Trapped, mach: m }
                },
                Insn::Ret { v } => if v < env.len() {
                    StepRes { outcome: Outcome::Returned(env[v as int]), mach: m }
                } else {
                    StepRes { outcome: Outcome::Trapped, mach: m }
                },
                Insn::RetVoid => StepRes { outcome: Outcome::Returned(0), mach: m },
                Insn::Call { callee, args_start, args_len, flags: _ } => match spec_gather(
                    env,
                    f.pool@,
                    args_start as int,
                    args_len as int,
                ) {
                    Option::Some(cargs) => {
                        let sub = spec_run_func(prog, callee as int, cargs, m, fl);
                        match sub.outcome {
                            Outcome::Returned(bits) => if dst < env.len() {
                                spec_run_body(prog, fidx, env.update(dst, bits), pc + 1, sub.mach, fl)
                            } else {
                                StepRes { outcome: Outcome::Trapped, mach: sub.mach }
                            },
                            _ => sub,
                        }
                    },
                    Option::None => StepRes { outcome: Outcome::Trapped, mach: m },
                },
                Insn::CallNative { key, ret_void, args_start, args_len, flags: _ } => match spec_gather(
                    env,
                    f.pool@,
                    args_start as int,
                    args_len as int,
                ) {
                    Option::Some(cargs) => {
                        let logged = m.output.push(HostEventV { key, args: cargs });
                        if ret_void {
                            if dst < env.len() {
                                spec_run_body(
                                    prog,
                                    fidx,
                                    env.update(dst, 0u64),
                                    pc + 1,
                                    MachV { output: logged, ..m },
                                    fl,
                                )
                            } else {
                                StepRes { outcome: Outcome::Trapped, mach: m }
                            }
                        } else {
                            if m.input.len() > 0 && dst < env.len() {
                                spec_run_body(
                                    prog,
                                    fidx,
                                    env.update(dst, m.input[0]),
                                    pc + 1,
                                    MachV { input: m.input.skip(1), output: logged, ..m },
                                    fl,
                                )
                            } else {
                                StepRes { outcome: Outcome::Trapped, mach: m }
                            }
                        }
                    },
                    Option::None => StepRes { outcome: Outcome::Trapped, mach: m },
                },
            }
        }
    }
}

/// Converts `v` from kind `from` to kind `to`.
fn convert_bits(v: u64, from: TypeKind, to: TypeKind) -> (r: u64)
    ensures
        r == spec_convert_bits(v, from, to),
{
    if from.is_signed() && v & from.sign_bit() != 0 {
        (v | !from.mask()) & to.mask()
    } else {
        v & to.mask()
    }
}

/// Whether `a` is below `b` in the order of kind `k`.
fn lt_bits(a: u64, b: u64, k: TypeKind) -> (r: bool)
    ensures
        r == spec_lt_bits(a, b, k),
{
    if k.is_signed() {
        (a ^ k.sign_bit()) < (b ^ k.sign_bit())
    } else {
        a < b
    }
}

/// Whether the `w`-byte range at `base + off` lies inside `mem`.
fn mem_ok(mem: &Vec<u8>, base: u64, off: u64, w: u64) -> (r: bool)
    ensures
        r == spec_mem_ok(mem@, base, off, w),
{
    let ml = mem.len() as u64;
    off <= ml && w <= ml - off && base <= ml - off - w
}

/// Reads the little-endian value of the `w` bytes of `mem` at `addr`.
fn read_bits(mem: &Vec<u8>, addr: usize, w: u64) -> (r: u64)
    requires
        addr + w <= mem@.len(),
    ensures
        r == spec_read_bits(mem@, addr as int, w),
{
    let n = mem.len();
    assert(n == mem@.len());
    if w == 1 {
        mem[addr] as u64
    } else if w == 2 {
        (mem[addr] as u64) | (mem[addr + 1] as u64) << 8
    } else if w == 4 {
        (mem[addr] as u64) | (mem[addr + 1] as u64) << 8 | (mem[addr + 2] as u64) << 16 | (mem[addr
            + 3] as u64) << 24
    } else if w == 8 {
        (mem[addr] as u64) | (mem[addr + 1] as u64) << 8 | (mem[addr + 2] as u64) << 16 | (mem[addr
            + 3] as u64) << 24 | (mem[addr + 4] as u64) << 32 | (mem[addr + 5] as u64) << 40 | (
        mem[addr + 6] as u64) << 48 | (mem[addr + 7] as u64) << 56
    } else {
        0
    }
}

/// Writes the low `w` bytes of `bits` to `mem` at `addr`, little-endian.
fn write_bits(mem: &mut Vec<u8>, addr: usize, w: u64, bits: u64)
    requires
        addr + w <= old(mem)@.len(),
    ensures
        final(mem)@ == spec_write_bits(old(mem)@, addr as int, w, bits),
{
    let n = mem.len();
    assert(n == mem@.len());
    if w == 1 {
        mem.set(addr, (bits & 0xff) as u8);
    } else if w == 2 {
        mem.set(addr, (bits & 0xff) as u8);
        mem.set(addr + 1, ((bits >> 8) & 0xff) as u8);
    } else if w == 4 {
        mem.set(addr, (bits & 0xff) as u8);
        mem.set(addr + 1, ((bits >> 8) & 0xff) as u8);
        mem.set(addr + 2, ((bits >> 16) & 0xff) as u8);
        mem.set(addr + 3, ((bits >> 24) & 0xff) as u8);
    } else if w == 8 {
        mem.set(addr, (bits & 0xff) as u8);
        mem.set(addr + 1, ((bits >> 8) & 0xff) as u8);
        mem.set(addr + 2, ((bits >> 16) & 0xff) as u8);
        mem.set(addr + 3, ((bits >> 24) & 0xff) as u8);
        mem.set(addr + 4, ((bits >> 32) & 0xff) as u8);
        mem.set(addr + 5, ((bits >> 40) & 0xff) as u8);
        mem.set(addr + 6, ((bits >> 48) & 0xff) as u8);
        mem.set(addr + 7, ((bits >> 56) & 0xff) as u8);
    }
}

/// Collects the argument values named by `pool[start .. start + n]`.
fn gather_args(env: &Vec<u64>, pool: &Vec<usize>, start: usize, n: usize) -> (r: Option<Vec<u64>>)
    ensures
        match spec_gather(env@, pool@, start as int, n as int) {
            Option::Some(s) => r matches Option::Some(v) && v@ == s,
            Option::None => r is None,
        },
    decreases n,
{
    if n == 0 {
        Option::Some(Vec::new())
    } else if start < pool.len() && pool[start] < env.len() {
        match gather_args(env, pool, start + 1, n - 1) {
            Option::Some(mut rest) => {
                let ghost rest0 = rest@;
                let x = env[pool[start]];
                rest.insert(0, x);
                assert(rest@ =~= seq![x] + rest0);
                Option::Some(rest)
            },
            Option::None => Option::None,
        }
    } else {
        Option::None
    }
}

/// Runs function `fidx` of `prog` on `args` against machine `m`, bounded by
/// `fuel` units of work, computing exactly what `spec_run_func` defines.
pub fn run_func(prog: &Vec<FuncIR>, fidx: usize, args: Vec<u64>, m: &mut Machine, fuel: u64) -> (r:
    Outcome)
    ensures
        r == spec_run_func(prog@, fidx as int, args@, old(m)@, fuel as nat).outcome,
        final(m)@ == spec_run_func(prog@, fidx as int, args@, old(m)@, fuel as nat).mach,
    decreases fuel, 1nat,
{
    if fuel == 0 {
        return Outcome::OutOfFuel;
    }
    if !(fidx < prog.len()) {
        return Outcome::Trapped;
    }
    let nparams = prog[fidx].nparams;
    let body_len = prog[fidx].body.len();
    if !(prog[fidx].ready && args.len() == nparams && nparams <= usize::MAX - body_len) {
        return Outcome::Trapped;
    }
    let total = nparams + body_len;
    let mut env = args;
    let ghost args_view = env@;
    while env.len() < total
        invariant
            args_view.len() <= env.len() <= total,
            env@ =~= args_view + Seq::new((env.len() - args_view.len()) as nat, |i: int| 0u64),
        decreases total - env.len(),
    {
        env.push(0);
    }
    proof {
        assert(env@ =~= args_view + Seq::new(body_len as nat, |i: int| 0u64));
    }
    run_body(prog, fidx, env, 0, m, fuel - 1)
}

/// Steps the body of function `fidx` from `pc`, computing exactly what
/// `spec_run_body` defines.
#[verifier::rlimit(100)]
pub fn run_body(prog: &Vec<FuncIR>, fidx: usize, env: Vec<u64>, pc: usize, m: &mut Machine, fuel:
    u64) -> (r: Outcome)
    ensures
        r == spec_run_body(prog@, fidx as int, env@, pc as int, old(m)@, fuel as nat).outcome,
        final(m)@ == spec_run_body(prog@, fidx as int, env@, pc as int, old(m)@, fuel as nat).mach,
    decreases fuel, 0nat,
{
    if fuel == 0 {
        return Outcome::OutOfFuel;
    }
    if !(fidx < prog.len()) {
        return Outcome::Trapped;
    }
    let nparams = prog[fidx].nparams;
    if !(pc < prog[fidx].body.len()) {
        return Outcome::Trapped;
    }
    let insn = prog[fidx].body[pc];
    let dst_ok = nparams <= usize::MAX - pc && nparams + pc < env.len();
    let mut env = env;
    match insn {
        Insn::Const { kind: _, bits } => {
            if dst_ok {
                env.set(nparams + pc, bits);
                run_body(prog, fidx, env, pc + 1, m, fuel - 1)
            } else {
                Outcome::Trapped
            }
        },
        Insn::Add { kind, a, b } => {
            if a < env.len() && b < env.len() && dst_ok {
                let r = env[a].wrapping_add(env[b]) & kind.mask();
                env.set(nparams + pc, r);
                run_body(prog, fidx, env, pc + 1, m, fuel - 1)
            } else {
                Outcome::Trapped
            }
        },
        Insn::Sub { kind, a, b } => {
            if a < env.len() && b < env.len() && dst_ok {
                let r = env[a].wrapping_sub(env[b]) & kind.mask();
                env.set(nparams + pc, r);
                run_body(prog, fidx, env, pc + 1, m, fuel - 1)
            } else {
                Outcome::Trapped
            }
        },
        Insn::Mul { kind, a, b } => {
            if a < env.len() && b < env.len() && dst_ok {
                let r = env[a].wrapping_mul(env[b]) & kind.mask();
                env.set(nparams + pc, r);
                run_body(prog, fidx, env, pc + 1, m, fuel - 1)
            } else {
                Outcome::Trapped
            }
        },
        Insn::CmpEq { a, b } => {
            if a < env.len() && b < env.len() && dst_ok {
                let r: u64 = if env[a] == env[b] {
                    1
                } else {
                    0
                };
                env.set(nparams + pc, r);
                run_body(prog, fidx, env, pc + 1, m, fuel - 1)
            } else {
                Outcome::Trapped
            }
        },
        Insn::CmpLt { kind, a, b } => {
            if a < env.len() && b < env.len() && dst_ok {
                let r: u64 = if lt_bits(env[a], env[b], kind) {
                    1
                } else {
                    0
                };
                env.set(nparams + pc, r);
                run_body(prog, fidx, env, pc + 1, m, fuel - 1)
            } else {
                Outcome::Trapped
            }
        },
        Insn::Convert { from, to, v } => {
            if v < env.len() && dst_ok {
                let r = convert_bits(env[v], from, to);
                env.set(nparams + pc, r);
                run_body(prog, fidx, env, pc + 1, m, fuel - 1)
            } else {
                Outcome::Trapped
            }
        },
        Insn::Store { dest, src } => {
            if dest < env.len() && src < env.len() && dst_ok {
                let x = env[src];
                env.set(dest, x);
                run_body(prog, fidx, env, pc + 1, m, fuel - 1)
            } else {
                Outcome::Trapped
            }
        },
        Insn::LoadRel { kind, base, offset } => {
            if base < env.len() && dst_ok && mem_ok(&m.mem, env[base], offset, kind.width()) {
                let mlen = m.mem.len();
                assert(env@[base as int] + offset + kind.spec_width() <= mlen);
                let addr = (env[base] + offset) as usize;
                let r = read_bits(&m.mem, addr, kind.width());
                env.set(nparams + pc, r);
                run_body(prog, fidx, env, pc + 1, m, fuel - 1)
            } else {
                Outcome::Trapped
            }
        },
        Insn::StoreRel { kind, base, offset, v } => {
            if base < env.len() && v < env.len() && dst_ok && mem_ok(
                &m.mem,
                env[base],
                offset,
                kind.width(),
            ) {
                let mlen = m.mem.len();
                assert(env@[base as int] + offset + kind.spec_width() <= mlen);
                let addr = (env[base] + offset) as usize;
                write_bits(&mut m.mem, addr, kind.width(), env[v]);
                env.set(nparams + pc, 0);
                run_body(prog, fidx, env, pc + 1, m, fuel - 1)
            } else {
                Outcome::Trapped
            }
        },
        Insn::Branch { target } => run_body(prog, fidx, env, target, m, fuel - 1),
        Insn::BranchIf { v, target } => {
            if v < env.len() {
                if env[v] != 0 {
                    run_body(prog, fidx, env, target, m, fuel - 1)
                } else {
                    run_body(prog, fidx, env, pc + 1, m, fuel - 1)
                }
            } else {
                Outcome::Trapped
            }
        },
        Insn::BranchIfNot { v, target } => {
            if v < env.len() {
                if env[v] == 0 {
                    run_body(prog, fidx, env, target, m, fuel - 1)
                } else {
                    run_body(prog, fidx, env, pc + 1, m, fuel - 1)
                }
            } else {
                Outcome::Trapped
            }
        },
        Insn::Ret { v } => {
            if v < env.len() {
                Outcome::Returned(env[v])
            } else {
                Outcome::Trapped
            }
        },
        Insn::RetVoid => Outcome::Returned(0),
        Insn::Call { callee, args_start, args_len, flags: _ } => {
            match gather_args(&env, &prog[fidx].pool, args_start, args_len) {
                Option::Some(cargs) => {
                    let sub = run_func(prog, callee, cargs, m, fuel - 1);
                    match sub {
                        Outcome::Returned(bits) => {
                            if dst_ok {
                                env.set(nparams + pc, bits);
                                run_body(prog, fidx, env, pc + 1, m, fuel - 1)
                            } else {
                                Outcome::Trapped
                            }
                        },
                        Outcome::OutOfFuel => Outcome::OutOfFuel,
                        Outcome::Trapped => Outcome::Trapped,
                    }
                },
                Option::None => Outcome::Trapped,
            }
        },
        Insn::CallNative { key, ret_void, args_start, args_len, flags: _ } => {
            match gather_args(&env, &prog[fidx].pool, args_start, args_len) {
                Option::Some(cargs) => {
                    if ret_void {
                        if dst_ok {
                            let ghost out0 = m.output@;
                            let ghost ev = HostEventV { key, args: cargs@ };
                            m.output.push(HostEvent { key, args: cargs });
                            proof {
                                assert(m.output@.map_values(|e: HostEvent| e@) =~= out0.map_values(
                                    |e: HostEvent| e@,
                                ).push(ev));
                            }
                            env.set(nparams + pc, 0);
                            run_body(prog, fidx, env, pc + 1, m, fuel - 1)
                        } else {
                            Outcome::Trapped
                        }
                    } else {
                        if m.input.len() > 0 && dst_ok {
                            let ghost out0 = m.output@;
                            let ghost in0 = m.input@;
                            let ghost ev = HostEventV { key, args: cargs@ };
                            m.output.push(HostEvent { key, args: cargs });
                            let val = m.input.remove(0);
                            proof {
                                assert(m.output@.map_values(|e: HostEvent| e@) =~= out0.map_values(
                                    |e: HostEvent| e@,
                                ).push(ev));
                                assert(m.input@ =~= in0.skip(1));
                            }
                            env.set(nparams + pc, val);
                            run_body(prog, fidx, env, pc + 1, m, fuel - 1)
                        } else {
                            Outcome::Trapped
                        }
                    }
                },
                Option::None => Outcome::Trapped,
            }
        },
    }
}

} // verus!
