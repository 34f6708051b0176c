use jit::laws::{build_counted_loop_fn, build_default_value_fn};
use jit::run::Outcome;
use jit::{CallFlags, Context, JitError, Machine, Type, TypeKind, Value};

const FUEL: u64 = 1_000_000;

fn default_value_roundtrip(kind: TypeKind) {
    let mut ctx = Context::new();
    let (cf, val) = build_default_value_fn(&mut ctx, kind).unwrap();
    assert_eq!(val.get_kind(), kind);
    assert_eq!(ctx.invoke_simple(&cf, Vec::new(), FUEL), Outcome::Returned(0));
}

#[test]
fn test_compile_void() {
    default_value_roundtrip(TypeKind::Void);
}

#[test]
fn test_compile_f64() {
    default_value_roundtrip(TypeKind::Float64);
    // The bit pattern 0 is the representation of the float default.
    assert_eq!(f64::from_bits(0), 0.0f64);
}

#[test]
fn test_compile_f32() {
    default_value_roundtrip(TypeKind::Float32);
    assert_eq!(f32::from_bits(0), 0.0f32);
}

#[test]
fn test_compile_int() {
    default_value_roundtrip(TypeKind::NInt);
}

#[test]
fn test_compile_uint() {
    default_value_roundtrip(TypeKind::NUInt);
}

#[test]
fn test_compile_i32() {
    default_value_roundtrip(TypeKind::Int);
}

#[test]
fn test_compile_u32() {
    default_value_roundtrip(TypeKind::UInt);
}

#[test]
fn test_compile_i16() {
    default_value_roundtrip(TypeKind::Short);
}

#[test]
fn test_compile_u16() {
    default_value_roundtrip(TypeKind::UShort);
}

#[test]
fn test_compile_i8() {
    default_value_roundtrip(TypeKind::SByte);
}

#[test]
fn test_compile_u8() {
    default_value_roundtrip(TypeKind::UByte);
}

fn nuint() -> Type {
    Type::primitive(TypeKind::NUInt)
}

/// Builds the subtraction-based Euclidean gcd as a self-recursive function.
fn build_gcd(ctx: &mut Context) -> jit::CompiledFunction {
    let sig = Type::signature(vec![nuint(), nuint()], nuint());
    let mut f = ctx.new_function(sig).unwrap();
    let x = f.get_param(0).unwrap();
    let y = f.get_param(1).unwrap();

    // if x == y { return x; }
    let eq = f.insn_eq(x, y).unwrap();
    let after_eq = f.new_label();
    f.insn_branch_if_not(eq, after_eq).unwrap();
    f.insn_return(x).unwrap();
    f.insn_label(after_eq).unwrap();

    // if x < y { return gcd(x, y - x); }
    let lt = f.insn_lt(x, y).unwrap();
    let after_lt = f.new_label();
    f.insn_branch_if_not(lt, after_lt).unwrap();
    let y_minus_x = f.insn_sub(y, x).unwrap();
    let rec1 = f.insn_call_self(&vec![x, y_minus_x], CallFlags::no_throw()).unwrap();
    f.insn_return(rec1).unwrap();
    f.insn_label(after_lt).unwrap();

    // return gcd(x - y, y);
    let x_minus_y = f.insn_sub(x, y).unwrap();
    let rec2 = f.insn_call_self(&vec![x_minus_y, y], CallFlags::no_throw()).unwrap();
    f.insn_return(rec2).unwrap();

    ctx.compile(f).unwrap()
}

#[test]
fn gcd_of_70_and_81_is_1() {
    let mut ctx = Context::new();
    let gcd = build_gcd(&mut ctx);
    assert_eq!(ctx.invoke_simple(&gcd, vec![70, 81], FUEL), Outcome::Returned(1));
}

#[test]
fn gcd_more_values() {
    let mut ctx = Context::new();
    let gcd = build_gcd(&mut ctx);
    assert_eq!(ctx.invoke_simple(&gcd, vec![48, 18], FUEL), Outcome::Returned(6));
    assert_eq!(ctx.invoke_simple(&gcd, vec![7, 7], FUEL), Outcome::Returned(7));
}

#[test]
fn invoking_twice_with_identical_arguments_yields_identical_results() {
    let mut ctx = Context::new();
    let gcd = build_gcd(&mut ctx);
    let first = ctx.invoke_simple(&gcd, vec![70, 81], FUEL);
    let second = ctx.invoke_simple(&gcd, vec![70, 81], FUEL);
    assert_eq!(first, second);
    assert_eq!(first, Outcome::Returned(1));
}

#[test]
fn signed_conversion_sign_extends() {
    let mut ctx = Context::new();
    let sig = Type::signature(Vec::new(), nuint());
    let mut f = ctx.new_function(sig).unwrap();
    // The Int representation of -1, widened to NUInt with its sign.
    let minus_one = f.insn_const(TypeKind::Int, 0xffff_ffff).unwrap();
    let wide = f.insn_convert(minus_one, &nuint()).unwrap();
    f.insn_return(wide).unwrap();
    let cf = ctx.compile(f).unwrap();
    assert_eq!(ctx.invoke_simple(&cf, Vec::new(), FUEL), Outcome::Returned(u64::MAX));
}

#[test]
fn arithmetic_wraps_at_the_kind_width() {
    let mut ctx = Context::new();
    let sig = Type::signature(Vec::new(), Type::primitive(TypeKind::UByte));
    let mut f = ctx.new_function(sig).unwrap();
    let a = f.insn_const(TypeKind::UByte, 200).unwrap();
    let b = f.insn_const(TypeKind::UByte, 100).unwrap();
    let sum = f.insn_add(a, b).unwrap();
    f.insn_return(sum).unwrap();
    let cf = ctx.compile(f).unwrap();
    assert_eq!(ctx.invoke_simple(&cf, Vec::new(), FUEL), Outcome::Returned(44));
}

#[test]
fn mixed_kinds_are_a_type_mismatch() {
    let mut ctx = Context::new();
    let sig = Type::signature(Vec::new(), nuint());
    let mut f = ctx.new_function(sig).unwrap();
    let a = f.insn_const(TypeKind::UByte, 1).unwrap();
    let b = f.insn_const(TypeKind::NUInt, 1).unwrap();
    assert_eq!(f.insn_add(a, b), Err(JitError::TypeMismatch));
}

#[test]
fn cross_function_use_is_rejected() {
    let mut ctx = Context::new();
    let sig1 = Type::signature(Vec::new(), nuint());
    let sig2 = Type::signature(Vec::new(), nuint());
    let mut f1 = ctx.new_function(sig1).unwrap();
    let mut f2 = ctx.new_function(sig2).unwrap();
    let foreign = f1.insn_const(TypeKind::NUInt, 1).unwrap();
    let own = f2.insn_const(TypeKind::NUInt, 1).unwrap();
    assert_eq!(f2.insn_add(own, foreign), Err(JitError::CrossFunctionUse));
}

#[test]
fn unbound_label_fails_compilation() {
    let mut ctx = Context::new();
    let sig = Type::signature(Vec::new(), Type::void());
    let mut f = ctx.new_function(sig).unwrap();
    let never_bound = f.new_label();
    f.insn_branch(never_bound).unwrap();
    f.insn_default_return().unwrap();
    assert_eq!(ctx.compile(f).map(|_| ()), Err(JitError::UnboundLabel));
}

#[test]
fn missing_terminator_fails_compilation() {
    let mut ctx = Context::new();
    let sig = Type::signature(Vec::new(), nuint());
    let mut f = ctx.new_function(sig).unwrap();
    f.insn_const(TypeKind::NUInt, 5).unwrap();
    assert_eq!(ctx.compile(f).map(|_| ()), Err(JitError::VerificationError));
}

#[test]
fn a_label_binds_at_most_once() {
    let mut ctx = Context::new();
    let sig = Type::signature(Vec::new(), Type::void());
    let mut f = ctx.new_function(sig).unwrap();
    let l = f.new_label();
    assert_eq!(f.insn_label(l), Ok(()));
    assert_eq!(f.insn_label(l), Err(JitError::VerificationError));
}

#[test]
fn forward_branch_resolves_once_bound() {
    let mut ctx = Context::new();
    let sig = Type::signature(Vec::new(), nuint());
    let mut f = ctx.new_function(sig).unwrap();
    let skip = f.new_label();
    let cond = f.insn_const(TypeKind::NUInt, 1).unwrap();
    f.insn_branch_if(cond, skip).unwrap();
    // Skipped when the branch is taken.
    let seven = f.insn_const(TypeKind::NUInt, 7).unwrap();
    f.insn_return(seven).unwrap();
    f.insn_label(skip).unwrap();
    let nine = f.insn_const(TypeKind::NUInt, 9).unwrap();
    f.insn_return(nine).unwrap();
    let cf = ctx.compile(f).unwrap();
    assert_eq!(ctx.invoke_simple(&cf, Vec::new(), FUEL), Outcome::Returned(9));
}

#[test]
fn closing_a_loop_that_was_never_opened_is_an_error() {
    let mut ctx = Context::new();
    let sig = Type::signature(Vec::new(), Type::void());
    let mut f = ctx.new_function(sig).unwrap();
    assert_eq!(f.loop_end(), Err(JitError::UnmatchedLoopClose));
}

#[test]
fn return_kind_must_match_the_signature() {
    let mut ctx = Context::new();
    let sig = Type::signature(Vec::new(), nuint());
    let mut f = ctx.new_function(sig).unwrap();
    let narrow = f.insn_const(TypeKind::UByte, 1).unwrap();
    assert_eq!(f.insn_return(narrow), Err(JitError::TypeMismatch));
    // And a default (void) return does not fit a value-returning signature.
    assert_eq!(f.insn_default_return(), Err(JitError::TypeMismatch));
}

#[test]
fn counted_loop_runs_its_body_the_dictated_number_of_times() {
    // A hand-built counted loop: counts down from the argument, adding 2 to
    // an accumulator on every trip; returns the accumulator.
    let mut ctx = Context::new();
    let sig = Type::signature(vec![nuint()], nuint());
    let mut f = ctx.new_function(sig).unwrap();
    let n = f.get_param(0).unwrap();
    let acc = f.insn_const(TypeKind::NUInt, 0).unwrap();
    let one = f.insn_const(TypeKind::NUInt, 1).unwrap();
    let two = f.insn_const(TypeKind::NUInt, 2).unwrap();
    let (_start, end) = f.loop_begin();
    f.insn_branch_if_not(n, end).unwrap();
    let bumped = f.insn_add(acc, two).unwrap();
    f.insn_store(acc, bumped).unwrap();
    let less = f.insn_sub(n, one).unwrap();
    f.insn_store(n, less).unwrap();
    f.loop_end().unwrap();
    f.insn_return(acc).unwrap();
    let cf = ctx.compile(f).unwrap();
    // Ten trips; and the zero-trip case leaves the accumulator untouched.
    assert_eq!(ctx.invoke_simple(&cf, vec![10], FUEL), Outcome::Returned(20));
    assert_eq!(ctx.invoke_simple(&cf, vec![0], FUEL), Outcome::Returned(0));
}

#[test]
fn verified_counted_loop_returns_twice_its_counter() {
    let mut ctx = Context::new();
    let cf = build_counted_loop_fn(&mut ctx).unwrap();
    assert_eq!(ctx.invoke_simple(&cf, vec![0], FUEL), Outcome::Returned(0));
    assert_eq!(ctx.invoke_simple(&cf, vec![1], FUEL), Outcome::Returned(2));
    assert_eq!(ctx.invoke_simple(&cf, vec![21], FUEL), Outcome::Returned(42));
}

#[test]
fn out_of_fuel_is_reported() {
    let mut ctx = Context::new();
    let gcd = build_gcd(&mut ctx);
    assert_eq!(ctx.invoke_simple(&gcd, vec![70, 81], 2), Outcome::OutOfFuel);
}

#[test]
fn invoking_an_uncompiled_slot_traps() {
    let mut ctx = Context::new();
    let sig = Type::signature(Vec::new(), nuint());
    let f = ctx.new_function(sig).unwrap();
    // Reference the reserved slot without compiling it.
    let bogus = jit::CompiledFunction { func: f.func_id(), sig: Type::signature(Vec::new(), nuint()) };
    let mut m = Machine { mem: Vec::new(), input: Vec::new(), output: Vec::new() };
    assert_eq!(ctx.invoke(&bogus, Vec::new(), &mut m, FUEL), Outcome::Trapped);
}

#[test]
fn values_carry_their_kind() {
    let mut ctx = Context::new();
    let sig = Type::signature(vec![Type::pointer(Type::primitive(TypeKind::UByte))], Type::void());
    let f = ctx.new_function(sig).unwrap();
    let p: Value = f.get_param(0).unwrap();
    // A pointer parameter is a machine-word address at run time.
    assert_eq!(p.get_kind(), TypeKind::NUInt);
}
