use jit::run::Outcome;
use jit::{check_loops, translate, Context, JitError, Machine, Type, TypeKind};

const FUEL: u64 = 1_000_000;
const PUT: u64 = 1;
const READ: u64 = 2;

/// Translates and compiles a program of the driver's loop language, then
/// runs it over a fresh buffer, returning the bytes handed to the host and
/// the final buffer.
fn run_program(src: &str, input: Vec<u64>, mem_len: usize) -> (Vec<u8>, Vec<u8>) {
    let mut ctx = Context::new();
    let sig = Type::signature(
        vec![Type::pointer(Type::primitive(TypeKind::UByte))],
        Type::void(),
    );
    let mut f = ctx.new_function(sig).unwrap();
    let prog: Vec<u8> = src.bytes().collect();
    translate(&mut f, &prog, PUT, READ).unwrap();
    let cf = ctx.compile(f).unwrap();
    let mut m = Machine::new(mem_len, input);
    assert_eq!(ctx.invoke(&cf, vec![0], &mut m, FUEL), Outcome::Returned(0));
    let out = m
        .output
        .iter()
        .filter(|e| e.key == PUT)
        .map(|e| e.args[0] as u8)
        .collect();
    (out, m.mem)
}

#[test]
fn close_with_no_open_is_rejected_by_the_driver() {
    let prog: Vec<u8> = "+]".bytes().collect();
    assert_eq!(check_loops(&prog), Err(JitError::UnmatchedLoopClose));

    let mut ctx = Context::new();
    let sig = Type::signature(
        vec![Type::pointer(Type::primitive(TypeKind::UByte))],
        Type::void(),
    );
    let mut f = ctx.new_function(sig).unwrap();
    assert_eq!(translate(&mut f, &prog, PUT, READ), Err(JitError::UnmatchedLoopClose));
    // Nothing of the ill-formed program reached the builder.
    assert_eq!(f.body.len(), 0);
    assert_eq!(f.labels.len(), 0);
}

#[test]
fn open_that_never_closes_is_rejected_by_the_driver() {
    let prog: Vec<u8> = "[+".bytes().collect();
    assert_eq!(check_loops(&prog), Err(JitError::UnboundLabel));
    let balanced: Vec<u8> = "[+]".bytes().collect();
    assert_eq!(check_loops(&balanced), Ok(()));
}

#[test]
fn zero_trip_loop_runs_its_body_zero_times() {
    // The cell under the pointer starts at 0, so the loop body, which
    // would emit output, never runs.
    let (out, _) = run_program("[.]", Vec::new(), 4);
    assert_eq!(out, Vec::<u8>::new());
}

#[test]
fn counted_loop_trips_match_the_test() {
    // Four trips move 2 per trip into the second cell: 4 * 2 = 8.
    let (_, mem) = run_program("++++[->++<]", Vec::new(), 4);
    assert_eq!(mem[0], 0);
    assert_eq!(mem[1], 8);
}

#[test]
fn nested_loops_multiply() {
    // 2 outer trips, each running 3 inner trips that bump the third cell:
    // 2 * 3 = 6.
    let (_, mem) = run_program("++[>+++[>+<-]<-]", Vec::new(), 4);
    assert_eq!(mem[2], 6);
}

#[test]
fn output_goes_through_the_native_bridge() {
    let (out, _) = run_program("+++.", Vec::new(), 4);
    assert_eq!(out, vec![3]);
}

#[test]
fn input_comes_through_the_native_bridge() {
    // Read a byte, bump it twice, write it out.
    let (out, mem) = run_program(",++.", vec![65], 4);
    assert_eq!(mem[0], 67);
    assert_eq!(out, vec![67]);
}

#[test]
fn cell_arithmetic_wraps_like_a_byte() {
    let (_, mem) = run_program("-", Vec::new(), 4);
    assert_eq!(mem[0], 255);
}

#[test]
fn hello_fragment_prints_expected_bytes() {
    // Classic counted-loop multiplication: 8 * 9 = 72, the letter H.
    let (out, _) = run_program("++++++++[>+++++++++<-]>.", Vec::new(), 4);
    assert_eq!(out, vec![b'H']);
}
