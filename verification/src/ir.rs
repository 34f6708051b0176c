//! The instruction graph that the builder produces and the compiler
//! consumes.  Every instruction writes its result into one value slot; the
//! slots `0 .. nparams` hold the parameters and the slot `nparams + pc`
//! holds the result of the instruction at position `pc`.

use vstd::prelude::*;
use crate::CallFlags;
use crate::types::TypeKind;

verus! {

/// One operation of a function body.  Operands are value-slot indices.
/// Branch targets name a label while the function is being built and are
/// patched to instruction positions when it is compiled.
#[derive(Clone, Copy, PartialEq, Eq, Structural, Debug)]
pub enum Insn {
    /// Produces a constant of a primitive kind; `bits` holds its
    /// representation, truncated to the kind's width.
    Const { kind: TypeKind, bits: u64 },
    /// Integer addition, wrapping at the kind's width.
    Add { kind: TypeKind, a: usize, b: usize },
    /// Integer subtraction, wrapping at the kind's width.
    Sub { kind: TypeKind, a: usize, b: usize },
    /// Integer multiplication, wrapping at the kind's width.
    Mul { kind: TypeKind, a: usize, b: usize },
    /// Equality test; produces 1 or 0 as an `Int`.
    CmpEq { a: usize, b: usize },
    /// Less-than test at the kind's signedness; produces 1 or 0 as an `Int`.
    CmpLt { kind: TypeKind, a: usize, b: usize },
    /// Explicit numeric conversion between integer kinds.
    Convert { from: TypeKind, to: TypeKind, v: usize },
    /// Persists the value of slot `src` into the storage slot of an
    /// existing value.
    Store { dest: usize, src: usize },
    /// Reads a value of the given kind from memory at `base + offset`.
    LoadRel { kind: TypeKind, base: usize, offset: u64 },
    /// Writes the value of slot `v`, at its kind's width, to memory at
    /// `base + offset`.
    StoreRel { kind: TypeKind, base: usize, offset: u64, v: usize },
    /// Unconditional jump.
    Branch { target: usize },
    /// Jump taken when the operand is non-zero.
    BranchIf { v: usize, target: usize },
    /// Jump taken when the operand is zero.
    BranchIfNot { v: usize, target: usize },
    /// Return the value of slot `v` to the caller.
    Ret { v: usize },
    /// Return from a function of void return type.
    RetVoid,
    /// Call another function owned by the same context.  The argument
    /// value-slot indices are `pool[args_start .. args_start + args_len]`.
    Call { callee: usize, args_start: usize, args_len: usize, flags: CallFlags },
    /// Call a host function through the native bridge, identified by a
    /// caller-chosen key.  The result, when the signature's return type is
    /// not void, is taken from the machine's host-input stream.
    CallNative { key: u64, ret_void: bool, args_start: usize, args_len: usize, flags: CallFlags },
}

/// The instruction graph of one function, as the backend receives it.
/// Branch targets are instruction positions.  A context slot that is not
/// `ready` belongs to a function that has not been compiled yet.
pub struct FuncIR {
    /// Whether compilation has filled this slot.
    pub ready: bool,
    /// How many parameters the function takes.
    pub nparams: usize,
    /// The instruction sequence.
    pub body: Vec<Insn>,
    /// The flattened pool of call-argument value-slot indices.
    pub pool: Vec<usize>,
}

impl FuncIR {
    /// An unfilled slot.
    pub fn empty() -> (r: FuncIR)
        ensures
            !r.ready,
            r.nparams == 0,
            r.body@ == Seq::<Insn>::empty(),
            r.pool@ == Seq::<usize>::empty(),
    {
        FuncIR { ready: false, nparams: 0, body: Vec::new(), pool: Vec::new() }
    }
}

/// One call made through the native bridge: the host function's key and the
/// argument values it was handed.
pub struct HostEvent {
    /// The caller-chosen key identifying the host function.
    pub key: u64,
    /// The argument values, in order.
    pub args: Vec<u64>,
}

/// The mathematical model of a `HostEvent`.
#[verifier::ext_equal]
pub struct HostEventV {
    /// The caller-chosen key identifying the host function.
    pub key: u64,
    /// The argument values, in order.
    pub args: Seq<u64>,
}

impl View for HostEvent {
    type V = HostEventV;

    open spec fn view(&self) -> HostEventV {
        HostEventV { key: self.key, args: self.args@ }
    }
}

/// Everything outside the value slots that a running function can touch:
/// the externally supplied memory buffer, the stream of results that host
/// functions will return, and the log of native calls made so far.
pub struct Machine {
    /// The raw buffer handed to the compiled routine by its driver.
    pub mem: Vec<u8>,
    /// Results that pending native calls will return, in order.
    pub input: Vec<u64>,
    /// The native calls made so far, in order.
    pub output: Vec<HostEvent>,
}

/// The mathematical model of a `Machine`.
#[verifier::ext_equal]
pub struct MachV {
    /// The raw buffer handed to the compiled routine by its driver.
    pub mem: Seq<u8>,
    /// Results that pending native calls will return, in order.
    pub input: Seq<u64>,
    /// The native calls made so far, in order.
    pub output: Seq<HostEventV>,
}

impl View for Machine {
    type V = MachV;

    open spec fn view(&self) -> MachV {
        MachV {
            mem: self.mem@,
            input: self.input@,
            output: self.output@.map_values(|e: HostEvent| e@),
        }
    }
}

impl Machine {
    /// A machine with a zeroed buffer of the given length, the given host
    /// inputs, and an empty call log.
    pub fn new(mem_len: usize, input: Vec<u64>) -> (r: Machine)
        ensures
            r@.mem == Seq::new(mem_len as nat, |i: int| 0u8),
            r@.input == input@,
            r@.output == Seq::<HostEventV>::empty(),
    {
        let mut mem: Vec<u8> = Vec::new();
        while mem.len() < mem_len
            invariant
                mem@ =~= Seq::new(mem.len() as nat, |i: int| 0u8),
                mem.len() <= mem_len,
            decreases mem_len - mem.len(),
        {
            mem.push(0);
        }
        proof {
            assert(mem@ =~= Seq::new(mem_len as nat, |i: int| 0u8));
            assert(Seq::<HostEvent>::empty().map_values(|e: HostEvent| e@) =~= Seq::<
                HostEventV,
            >::empty());
        }
        Machine { mem, input, output: Vec::new() }
    }

    /// A machine with no buffer and no host inputs.
    pub fn idle() -> (r: Machine)
        ensures
            r@.mem == Seq::<u8>::empty(),
            r@.input == Seq::<u64>::empty(),
            r@.output == Seq::<HostEventV>::empty(),
    {
        proof {
            assert(Seq::<u8>::empty() =~= Seq::new(0nat, |i: int| 0u8));
            assert(Seq::<HostEvent>::empty().map_values(|e: HostEvent| e@) =~= Seq::<
                HostEventV,
            >::empty());
        }
        Machine { mem: Vec::new(), input: Vec::new(), output: Vec::new() }
    }
}

} // verus!
