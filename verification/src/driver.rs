//! A driver front end for a small, textual loop language: each character of
//! the program is translated into builder calls against a one-parameter
//! function that walks a byte buffer.  The driver tracks its own loop
//! nesting and refuses a program whose loop closes do not match its opens
//! before any instruction of it reaches the builder.
//!
//! The character set: `>` and `<` move the buffer pointer, `+` and `-`
//! adjust the byte under it, `.` and `,` exchange that byte with the host
//! through the native-call bridge, `[` opens a loop that runs while the
//! byte under the pointer is non-zero, and `]` closes the innermost loop.
//! Every other character is ignored.

use vstd::prelude::*;
use crate::JitError;
use crate::CallFlags;
use crate::function::{UncompiledFunction, Value};
use crate::ir::Insn;
use crate::types::{Type, TypeKind};

verus! {

/// How one character changes the loop nesting depth.
pub open spec fn spec_delta(c: u8) -> int {
    if c == 91 {
        1
    } else if c == 93 {
        -1
    } else {
        0
    }
}

/// The loop nesting depth after the whole of `prog`.
pub open spec fn spec_depth(prog: Seq<u8>) -> int
    decreases prog.len(),
{
    if prog.len() == 0 {
        0
    } else {
        spec_depth(prog.drop_last()) + spec_delta(prog.last())
    }
}

/// Whether no prefix of `prog` closes more loops than it has opened.
pub open spec fn spec_prefix_ok(prog: Seq<u8>) -> bool
    decreases prog.len(),
{
    if prog.len() == 0 {
        true
    } else {
        spec_prefix_ok(prog.drop_last()) && spec_depth(prog) >= 0
    }
}

/// Whether every close of `prog` matches an open and every open is closed.
pub open spec fn spec_balanced(prog: Seq<u8>) -> bool {
    spec_prefix_ok(prog) && spec_depth(prog) == 0
}

/// Every prefix of a program whose prefixes are all in balance is itself a
/// program whose prefixes are all in balance.
pub proof fn lemma_prefix_ok_take(prog: Seq<u8>, i: int)
    requires
        spec_prefix_ok(prog),
        0 <= i <= prog.len(),
    ensures
        spec_prefix_ok(prog.take(i)),
    decreases prog.len(),
{
    if i == prog.len() {
        assert(prog.take(i) =~= prog);
    } else if prog.len() > 0 {
        assert(prog.drop_last().take(i) =~= prog.take(i));
        lemma_prefix_ok_take(prog.drop_last(), i);
    }
}

/// The builder state that translation threads from character to character:
/// the four growing tables of an `UncompiledFunction`, with the parameter
/// count that fixes where value slots start.
#[verifier::ext_equal]
pub struct EmitState {
    /// How many parameters the function declares.
    pub nparams: usize,
    /// The instruction body, branch targets still label indices.
    pub body: Seq<Insn>,
    /// The call-argument pool.
    pub pool: Seq<usize>,
    /// The label table.
    pub labels: Seq<Option<usize>>,
    /// The stack of open loops, innermost last.
    pub loops: Seq<(usize, usize)>,
}

/// The builder state of `f`.
pub open spec fn state_of(f: UncompiledFunction) -> EmitState {
    EmitState {
        nparams: f.nparams,
        body: f.body@,
        pool: f.pool@,
        labels: f.labels@,
        loops: f.loops@,
    }
}

/// What translating one character emits, given the builder state it finds:
/// exactly the instructions, pool entries, labels and loop-stack motion of
/// the corresponding builder calls.  Slot 0 holds the buffer pointer; the
/// value slot of the instruction at position `p` is `nparams + p`.
pub open spec fn spec_emit_char(st: EmitState, c: u8, put_key: u64, read_key: u64) -> EmitState {
    let d0 = (st.nparams + st.body.len()) as usize;
    let d1 = (st.nparams + st.body.len() + 1) as usize;
    let d2 = (st.nparams + st.body.len() + 2) as usize;
    if c == 62 {
        // '>' : constant 1, pointer plus 1, persisted into slot 0.
        EmitState {
            body: st.body.push(Insn::Const { kind: TypeKind::NUInt, bits: 1 }).push(
                Insn::Add { kind: TypeKind::NUInt, a: 0, b: d0 },
            ).push(Insn::Store { dest: 0, src: d1 }),
            ..st
        }
    } else if c == 60 {
        // '<' : constant 1, pointer minus 1, persisted into slot 0.
        EmitState {
            body: st.body.push(Insn::Const { kind: TypeKind::NUInt, bits: 1 }).push(
                Insn::Sub { kind: TypeKind::NUInt, a: 0, b: d0 },
            ).push(Insn::Store { dest: 0, src: d1 }),
            ..st
        }
    } else if c == 43 {
        // '+' : load the byte, add 1, store it back.
        EmitState {
            body: st.body.push(Insn::LoadRel { kind: TypeKind::UByte, base: 0, offset: 0 }).push(
                Insn::Const { kind: TypeKind::UByte, bits: 1 },
            ).push(Insn::Add { kind: TypeKind::UByte, a: d0, b: d1 }).push(
                Insn::StoreRel { kind: TypeKind::UByte, base: 0, offset: 0, v: d2 },
            ),
            ..st
        }
    } else if c == 45 {
        // '-' : load the byte, subtract 1, store it back.
        EmitState {
            body: st.body.push(Insn::LoadRel { kind: TypeKind::UByte, base: 0, offset: 0 }).push(
                Insn::Const { kind: TypeKind::UByte, bits: 1 },
            ).push(Insn::Sub { kind: TypeKind::UByte, a: d0, b: d1 }).push(
                Insn::StoreRel { kind: TypeKind::UByte, base: 0, offset: 0, v: d2 },
            ),
            ..st
        }
    } else if c == 46 {
        // '.' : load the byte and hand it to the host.
        EmitState {
            body: st.body.push(Insn::LoadRel { kind: TypeKind::UByte, base: 0, offset: 0 }).push(
                Insn::CallNative {
                    key: put_key,
                    ret_void: true,
                    args_start: st.pool.len() as usize,
                    args_len: 1,
                    flags: CallFlags { no_throw: true, no_return: false, tail: false },
                },
            ),
            pool: st.pool.push(d0),
            ..st
        }
    } else if c == 44 {
        // ',' : take a byte from the host and store it.
        EmitState {
            body: st.body.push(
                Insn::CallNative {
                    key: read_key,
                    ret_void: false,
                    args_start: st.pool.len() as usize,
                    args_len: 0,
                    flags: CallFlags { no_throw: true, no_return: false, tail: false },
                },
            ).push(Insn::StoreRel { kind: TypeKind::UByte, base: 0, offset: 0, v: d0 }),
            ..st
        }
    } else if c == 91 {
        // '[' : fresh label pair, start bound here, loop pushed, then the
        // test: load the byte and skip to the end label when it is zero.
        let start = st.labels.len() as usize;
        let end = (st.labels.len() + 1) as usize;
        EmitState {
            body: st.body.push(Insn::LoadRel { kind: TypeKind::UByte, base: 0, offset: 0 }).push(
                Insn::BranchIfNot { v: d0, target: end },
            ),
            labels: st.labels.push(Option::Some(st.body.len() as usize)).push(
                Option::<usize>::None,
            ),
            loops: st.loops.push((start, end)),
            ..st
        }
    } else if c == 93 {
        // ']' : branch back to the innermost start label, bind its end
        // label just after, pop the loop.
        let s = st.loops.last().0;
        let e = st.loops.last().1;
        EmitState {
            body: st.body.push(Insn::Branch { target: s }),
            labels: st.labels.update(e as int, Option::Some((st.body.len() + 1) as usize)),
            loops: st.loops.drop_last(),
            ..st
        }
    } else {
        st
    }
}

/// The builder state after translating the whole of `prog` from `st`.
pub open spec fn spec_translate(st: EmitState, prog: Seq<u8>, put_key: u64, read_key: u64)
    -> EmitState
    decreases prog.len(),
{
    if prog.len() == 0 {
        st
    } else {
        spec_emit_char(
            spec_translate(st, prog.drop_last(), put_key, read_key),
            prog.last(),
            put_key,
            read_key,
        )
    }
}

/// Checks the loop structure of `prog`: `UnmatchedLoopClose` if some close
/// has no matching open, `UnboundLabel` if some open is never closed, and
/// success exactly when the loops balance.
pub fn check_loops(prog: &Vec<u8>) -> (r: Result<(), JitError>)
    ensures
        !spec_prefix_ok(prog@) ==> r == Result::<(), JitError>::Err(JitError::UnmatchedLoopClose),
        spec_prefix_ok(prog@) && spec_depth(prog@) != 0 ==> r == Result::<(), JitError>::Err(
            JitError::UnboundLabel,
        ),
        spec_balanced(prog@) ==> r == Result::<(), JitError>::Ok(()),
{
    let mut depth: u64 = 0;
    let mut i: usize = 0;
    while i < prog.len()
        invariant
            i <= prog@.len(),
            spec_prefix_ok(prog@.take(i as int)),
            depth == spec_depth(prog@.take(i as int)),
            depth <= i,
        decreases prog@.len() - i,
    {
        let c = prog[i];
        proof {
            assert(prog@.take(i as int + 1).drop_last() =~= prog@.take(i as int));
            assert(prog@.take(i as int + 1).last() == prog@[i as int]);
        }
        if c == 91 {
            depth = depth + 1;
        } else if c == 93 {
            if depth == 0 {
                proof {
                    assert(spec_depth(prog@.take(i as int + 1)) < 0);
                    assert(!spec_prefix_ok(prog@.take(i as int + 1)));
                    if spec_prefix_ok(prog@) {
                        lemma_prefix_ok_take(prog@, i as int + 1);
                    }
                }
                return Result::Err(JitError::UnmatchedLoopClose);
            }
            depth = depth - 1;
        }
        i += 1;
    }
    proof {
        assert(prog@.take(i as int) =~= prog@);
    }
    if depth != 0 {
        return Result::Err(JitError::UnboundLabel);
    }
    Result::Ok(())
}

/// Translates `prog` into the body of `f`, a function of one pointer
/// parameter over a byte buffer, closing it with a default return.  Output
/// and input go through the native bridge under the caller's keys
/// `put_key` and `read_key`.  A program whose loops do not balance is
/// rejected before any of it reaches the builder, leaving `f` untouched:
/// a close with no open fails with `UnmatchedLoopClose`, an open that is
/// never closed with `UnboundLabel`.
pub fn translate(f: &mut UncompiledFunction, prog: &Vec<u8>, put_key: u64, read_key: u64) -> (r:
    Result<(), JitError>)
    requires
        old(f).sig.spec_get_kind() == TypeKind::Signature,
        old(f).sig.spec_params().len() == 1,
        old(f).sig.spec_params()[0].spec_runtime_kind() == TypeKind::NUInt,
        old(f).ret_kind() == TypeKind::Void,
        old(f).loops@.len() == 0,
        old(f).nvalues() + 4 * prog@.len() + 1 < usize::MAX,
        old(f).labels@.len() + 2 * prog@.len() + 2 < usize::MAX,
    ensures
        !spec_prefix_ok(prog@) ==> r == Result::<(), JitError>::Err(JitError::UnmatchedLoopClose)
            && *final(f) == *old(f),
        spec_prefix_ok(prog@) && spec_depth(prog@) != 0 ==> r == Result::<(), JitError>::Err(
            JitError::UnboundLabel,
        ) && *final(f) == *old(f),
        spec_balanced(prog@) ==> ({
            let st = spec_translate(state_of(*old(f)), prog@, put_key, read_key);
            &&& r == Result::<(), JitError>::Ok(())
            &&& final(f).id == old(f).id
            &&& final(f).sig == old(f).sig
            &&& final(f).nparams == old(f).nparams
            &&& final(f).body@ == st.body.push(Insn::RetVoid)
            &&& final(f).pool@ == st.pool
            &&& final(f).labels@ == st.labels
            &&& final(f).loops@ == st.loops
            &&& final(f).loops@.len() == 0
        }),
{
    match check_loops(prog) {
        Result::Err(e) => {
            return Result::Err(e);
        },
        Result::Ok(()) => {},
    }
    let ub = Type::primitive(TypeKind::UByte);
    let mut put_params: Vec<Type> = Vec::new();
    put_params.push(Type::primitive(TypeKind::UByte));
    let put_sig = Type::signature(put_params, Type::void());
    let read_sig = Type::signature(Vec::new(), Type::primitive(TypeKind::UByte));
    let data = match f.get_param(0) {
        Result::Ok(v) => v,
        Result::Err(e) => {
            return Result::Err(e);
        },
    };
    let mut i: usize = 0;
    while i < prog.len()
        invariant
            i <= prog@.len(),
            spec_balanced(prog@),
            state_of(*f) == spec_translate(state_of(*old(f)), prog@.take(i as int), put_key, read_key),
            f.id == old(f).id,
            f.sig == old(f).sig,
            f.nparams == old(f).nparams,
            f.sig.spec_params().len() == 1,
            f.sig.spec_params()[0].spec_runtime_kind() == TypeKind::NUInt,
            f.ret_kind() == TypeKind::Void,
            data == (Value { func: f.id, id: 0, kind: TypeKind::NUInt }),
            ub == Type::Prim(TypeKind::UByte),
            put_sig.spec_get_kind() == TypeKind::Signature,
            put_sig.spec_params().len() == 1,
            put_sig.spec_params()[0].spec_runtime_kind() == TypeKind::UByte,
            (match put_sig.spec_return_type() {
                Option::Some(t) => t.spec_runtime_kind(),
                Option::None => TypeKind::Void,
            }) == TypeKind::Void,
            read_sig.spec_get_kind() == TypeKind::Signature,
            read_sig.spec_params().len() == 0,
            (match read_sig.spec_return_type() {
                Option::Some(t) => t.spec_runtime_kind(),
                Option::None => TypeKind::Void,
            }) == TypeKind::UByte,
            f.loops@.len() == spec_depth(prog@.take(i as int)),
            spec_depth(prog@.take(i as int)) >= 0,
            forall|k: int|
                0 <= k < f.loops@.len() ==> (#[trigger] f.loops@[k]).0 < f.labels@.len()
                    && f.loops@[k].1 < f.labels@.len() && f.labels@[f.loops@[k].1 as int] is None,
            forall|k1: int, k2: int|
                0 <= k1 < k2 < f.loops@.len() ==> (#[trigger] f.loops@[k1]).1 < (
                #[trigger] f.loops@[k2]).1,
            f.body@.len() <= old(f).body@.len() + 4 * i,
            f.labels@.len() <= old(f).labels@.len() + 2 * i,
            old(f).nvalues() + 4 * prog@.len() + 1 < usize::MAX,
            old(f).labels@.len() + 2 * prog@.len() + 2 < usize::MAX,
        decreases prog@.len() - i,
    {
        let c = prog[i];
        let ghost st_prev = state_of(*f);
        proof {
            assert(prog@.take(i as int + 1).drop_last() =~= prog@.take(i as int));
            assert(prog@.take(i as int + 1).last() == prog@[i as int]);
            lemma_prefix_ok_take(prog@, i as int + 1);
        }
        if c == 62 {
            // '>' : advance the pointer by one.
            let one = f.insn_const(TypeKind::NUInt, 1).unwrap();
            let moved = f.insn_add(data, one).unwrap();
            f.insn_store(data, moved).unwrap();
        } else if c == 60 {
            // '<' : move the pointer back by one.
            let one = f.insn_const(TypeKind::NUInt, 1).unwrap();
            let moved = f.insn_sub(data, one).unwrap();
            f.insn_store(data, moved).unwrap();
        } else if c == 43 {
            // '+' : increment the byte under the pointer.
            let cur = f.insn_load_relative(data, 0, &ub).unwrap();
            let one = f.insn_const(TypeKind::UByte, 1).unwrap();
            let bumped = f.insn_add(cur, one).unwrap();
            f.insn_store_relative(data, 0, bumped).unwrap();
        } else if c == 45 {
            // '-' : decrement the byte under the pointer.
            let cur = f.insn_load_relative(data, 0, &ub).unwrap();
            let one = f.insn_const(TypeKind::UByte, 1).unwrap();
            let dropped = f.insn_sub(cur, one).unwrap();
            f.insn_store_relative(data, 0, dropped).unwrap();
        } else if c == 46 {
            // '.' : hand the byte under the pointer to the host.
            let cur = f.insn_load_relative(data, 0, &ub).unwrap();
            let mut args: Vec<Value> = Vec::new();
            args.push(cur);
            proof {
                assert(crate::function::args_same_func(args@, f.id));
                assert(crate::function::args_kinds_ok(args@, put_sig));
            }
            f.insn_call_native(put_key, &put_sig, &args, CallFlags::no_throw()).unwrap();
        } else if c == 44 {
            // ',' : take one byte from the host and store it.
            let args: Vec<Value> = Vec::new();
            proof {
                assert(crate::function::args_same_func(args@, f.id));
                assert(crate::function::args_kinds_ok(args@, read_sig));
            }
            let got = f.insn_call_native(read_key, &read_sig, &args, CallFlags::no_throw()).unwrap();
            f.insn_store_relative(data, 0, got).unwrap();
        } else if c == 91 {
            // '[' : open a loop; skip it when the byte under the pointer is
            // zero.
            let (_start, end) = f.loop_begin();
            let cur = f.insn_load_relative(data, 0, &ub).unwrap();
            f.insn_branch_if_not(cur, end).unwrap();
        } else if c == 93 {
            // ']' : close the innermost loop.  The balance check above
            // guarantees one is open.
            proof {
                assert(spec_depth(prog@.take(i as int + 1)) >= 0);
                assert(f.loops@.len() > 0);
            }
            f.loop_end().unwrap();
        }
        proof {
            assert(1u64 & 0xffff_ffff_ffff_ffffu64 == 1u64) by (bit_vector);
            assert(1u64 & 0xffu64 == 1u64) by (bit_vector);
            assert(state_of(*f) =~= spec_emit_char(st_prev, c, put_key, read_key));
            assert(state_of(*f) == spec_translate(
                state_of(*old(f)),
                prog@.take(i as int + 1),
                put_key,
                read_key,
            ));
        }
        i += 1;
    }
    proof {
        assert(prog@.take(i as int) =~= prog@);
    }
    match f.insn_default_return() {
        Result::Ok(()) => {},
        Result::Err(e) => {
            return Result::Err(e);
        },
    }
    Result::Ok(())
}

} // verus!
