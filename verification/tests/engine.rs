use libwasmvm::{
    contain_code, contain_handle, do_compile, do_run, oracle_cache_t, oracle_init_cache,
    oracle_release_cache, to_cache, Error, RunOutput, Span,
};

const HEADER: [u8; 8] = [0x00, 0x61, 0x73, 0x6d, 0x01, 0x00, 0x00, 0x00];
const TYPES: [u8; 6] = [0x01, 0x04, 0x01, 0x60, 0x00, 0x00];
const FUNCTIONS: [u8; 5] = [0x03, 0x03, 0x02, 0x00, 0x00];
const MEMORY: [u8; 5] = [0x05, 0x03, 0x01, 0x00, 0x01];
const MEMORY_WITH_MAXIMUM: [u8; 6] = [0x05, 0x04, 0x01, 0x01, 0x01, 0x05];
const EXPORTS: [u8; 23] = [
    0x07, 0x15, 0x02, 0x07, b'p', b'r', b'e', b'p', b'a', b'r', b'e', 0x00, 0x00, 0x07, b'e',
    b'x', b'e', b'c', b'u', b't', b'e', 0x00, 0x01,
];
const BODIES: [u8; 9] = [0x0a, 0x07, 0x02, 0x02, 0x00, 0x0b, 0x02, 0x00, 0x0b];

fn module(sections: &[&[u8]]) -> Vec<u8> {
    let mut bytes = HEADER.to_vec();
    for s in sections {
        bytes.extend_from_slice(s);
    }
    bytes
}

fn valid_bytecode() -> Vec<u8> {
    module(&[&TYPES, &FUNCTIONS, &MEMORY, &EXPORTS, &BODIES])
}

fn compile_into(input: &Span, output: &mut Span) -> Error {
    let outcome = owasm_vm::compile(input.read()).map_err(|e| Error::from_code(e as i32));
    do_compile(outcome, output)
}

fn run_with(
    handle: &mut oracle_cache_t,
    executor: Result<u64, Error>,
    output: &mut RunOutput,
) -> Error {
    let outcome = to_cache(handle).map(|_cache| executor);
    do_run(outcome, output)
}

#[test]
fn init_cache_is_never_null() {
    for size in [0u32, 1, 16, 1024] {
        let mut h = oracle_init_cache(size);
        assert!(h.is_live());
        assert!(to_cache(&mut h).is_some());
        oracle_release_cache(&mut h);
        assert!(!h.is_live());
    }
}

#[test]
fn release_of_null_does_nothing() {
    let mut h = oracle_cache_t::null();
    assert!(!h.is_live());
    oracle_release_cache(&mut h);
    assert!(!h.is_live());
    assert!(to_cache(&mut h).is_none());
}

#[test]
fn release_twice_is_harmless() {
    let mut h = oracle_init_cache(4);
    oracle_release_cache(&mut h);
    oracle_release_cache(&mut h);
    assert!(!h.is_live());
}

#[test]
fn init_and_release_many_times() {
    for _ in 0..200 {
        let mut h = oracle_init_cache(64);
        assert!(h.is_live());
        oracle_release_cache(&mut h);
        assert!(!h.is_live());
    }
}

#[test]
fn to_cache_keeps_a_live_handle_live() {
    let mut h = oracle_init_cache(8);
    assert!(to_cache(&mut h).is_some());
    assert!(h.is_live());
    assert!(to_cache(&mut h).is_some());
}

#[test]
fn compile_valid_bytecode() {
    let input = Span::from_bytes(valid_bytecode());
    let mut output = Span::with_capacity(4096);
    assert_eq!(compile_into(&input, &mut output), Error::NoError);
    assert!(output.len() > 0);
    assert!(output.len() <= 4096);
    assert_ne!(output.read(), input.read());
    assert_eq!(output.read(), owasm_vm::compile(input.read()).unwrap().as_slice());
    assert_eq!(input.read(), valid_bytecode().as_slice());
}

#[test]
fn compile_is_repeatable() {
    let input = Span::from_bytes(valid_bytecode());
    let mut first = Span::with_capacity(4096);
    let mut second = Span::with_capacity(4096);
    assert_eq!(compile_into(&input, &mut first), Error::NoError);
    assert_eq!(compile_into(&input, &mut second), Error::NoError);
    assert_eq!(first.read(), second.read());
}

#[test]
fn compile_refuses_garbage() {
    let input = Span::from_bytes(vec![1, 2, 3]);
    let mut output = Span::with_capacity(64);
    assert_eq!(compile_into(&input, &mut output), Error::ValidationError);
    assert_eq!(output.len(), 0);
}

#[test]
fn compile_refuses_empty_input() {
    let input = Span::from_bytes(Vec::new());
    let mut output = Span::with_capacity(64);
    assert_eq!(compile_into(&input, &mut output), Error::ValidationError);
    assert_eq!(output.len(), 0);
}

#[test]
fn compile_refuses_missing_exports() {
    let input = Span::from_bytes(module(&[]));
    let mut output = Span::with_capacity(64);
    assert_eq!(compile_into(&input, &mut output), Error::InvalidExportsError);
    assert_eq!(output.len(), 0);
}

#[test]
fn compile_refuses_missing_memory() {
    let input = Span::from_bytes(module(&[&TYPES, &FUNCTIONS, &EXPORTS, &BODIES]));
    let mut output = Span::with_capacity(64);
    assert_eq!(compile_into(&input, &mut output), Error::BadMemorySectionError);
    assert_eq!(output.len(), 0);
}

#[test]
fn compile_refuses_memory_with_maximum() {
    let input =
        Span::from_bytes(module(&[&TYPES, &FUNCTIONS, &MEMORY_WITH_MAXIMUM, &EXPORTS, &BODIES]));
    let mut output = Span::with_capacity(64);
    assert_eq!(compile_into(&input, &mut output), Error::BadMemorySectionError);
    assert_eq!(output.len(), 0);
}

#[test]
fn compile_failure_keeps_what_the_output_held() {
    let input = Span::from_bytes(vec![0xff; 16]);
    let mut output = Span::with_capacity(8);
    assert_eq!(output.write(&[5, 6]), Error::NoError);
    assert_ne!(compile_into(&input, &mut output), Error::NoError);
    assert_eq!(output.read(), &[5u8, 6]);
}

#[test]
fn compile_into_a_small_buffer_writes_nothing() {
    let input = Span::from_bytes(valid_bytecode());
    let mut output = Span::with_capacity(4);
    assert_eq!(compile_into(&input, &mut output), Error::NoError);
    assert_eq!(output.len(), 0);
    assert_eq!(output.cap(), 4);
}

#[test]
fn compile_by_outcome() {
    let mut output = Span::with_capacity(4);
    assert_eq!(do_compile(Ok(vec![1, 2]), &mut output), Error::NoError);
    assert_eq!(output.read(), &[1u8, 2]);
    assert_eq!(do_compile(Err(Error::ValidationError), &mut output), Error::ValidationError);
    assert_eq!(output.read(), &[1u8, 2]);
    assert_eq!(do_compile(Err(Error::InvalidExportsError), &mut output), Error::InvalidExportsError);
    assert_eq!(do_compile(Ok(vec![3, 4, 5]), &mut output), Error::NoError);
    assert_eq!(output.read(), &[1u8, 2]);
    assert_eq!(do_compile(Ok(vec![3, 4]), &mut output), Error::NoError);
    assert_eq!(output.read(), &[1u8, 2, 3, 4]);
}

#[test]
fn run_without_cache_is_unknown_error() {
    let mut h = oracle_cache_t::null();
    let mut out = RunOutput { gas_used: 77 };
    assert_eq!(run_with(&mut h, Ok(5), &mut out), Error::UnknownError);
    assert_eq!(out.gas_used, 77);
    assert_eq!(run_with(&mut h, Err(Error::OutOfGasError), &mut out), Error::UnknownError);
    assert_eq!(out.gas_used, 77);
    assert_eq!(do_run(None, &mut out), Error::UnknownError);
    assert_eq!(out.gas_used, 77);
}

#[test]
fn run_after_release_is_unknown_error() {
    let mut h = oracle_init_cache(8);
    oracle_release_cache(&mut h);
    let mut out = RunOutput { gas_used: 3 };
    assert_eq!(run_with(&mut h, Ok(5), &mut out), Error::UnknownError);
    assert_eq!(out.gas_used, 3);
}

#[test]
fn run_by_outcome() {
    let mut out = RunOutput { gas_used: 5 };
    assert_eq!(do_run(Some(Ok(123)), &mut out), Error::NoError);
    assert_eq!(out.gas_used, 123);
    assert_eq!(do_run(Some(Err(Error::OutOfGasError)), &mut out), Error::OutOfGasError);
    assert_eq!(out.gas_used, 123);
    assert_eq!(do_run(Some(Err(Error::RuntimeError)), &mut out), Error::RuntimeError);
    assert_eq!(out.gas_used, 123);
    assert_eq!(
        do_run(Some(Err(Error::UnavailableExternalDataError)), &mut out),
        Error::UnavailableExternalDataError
    );
    assert_eq!(do_run(Some(Err(Error::UnknownError)), &mut out), Error::UnknownError);
    assert_eq!(out.gas_used, 123);
    assert_eq!(do_run(Some(Ok(0)), &mut out), Error::NoError);
    assert_eq!(out.gas_used, 0);
}

#[test]
fn run_out_of_gas_leaves_output() {
    let mut h = oracle_init_cache(16);
    let mut out = RunOutput { gas_used: 41 };
    assert_eq!(run_with(&mut h, Err(Error::OutOfGasError), &mut out), Error::OutOfGasError);
    assert_eq!(out.gas_used, 41);
    oracle_release_cache(&mut h);
}

#[test]
fn compile_then_run_scenario() {
    let mut h = oracle_init_cache(1024);
    assert!(h.is_live());
    let input = Span::from_bytes(valid_bytecode());
    let mut buf = Span::with_capacity(4096);
    assert_eq!(compile_into(&input, &mut buf), Error::NoError);
    assert!(buf.len() > 0);
    let limit: u64 = 1_000_000;
    let mut out = RunOutput { gas_used: 0 };
    assert_eq!(run_with(&mut h, Ok(650_000), &mut out), Error::NoError);
    assert_eq!(out.gas_used, 650_000);
    assert!(out.gas_used > 0);
    assert!(out.gas_used <= limit);
    assert!(h.is_live());
    oracle_release_cache(&mut h);
    assert!(!h.is_live());
}

#[test]
fn fault_becomes_unknown_error() {
    assert_eq!(contain_code(None), Error::UnknownError);
    assert_eq!(contain_code(Some(Error::NoError)), Error::NoError);
    assert_eq!(contain_code(Some(Error::OutOfGasError)), Error::OutOfGasError);
}

#[test]
fn fault_becomes_null_handle() {
    assert!(!contain_handle(None).is_live());
    assert!(contain_handle(Some(oracle_init_cache(2))).is_live());
    assert!(!contain_handle(Some(oracle_cache_t::null())).is_live());
}

#[test]
fn run_max_gas_is_stored() {
    let mut out = RunOutput { gas_used: 1 };
    assert_eq!(do_run(Some(Ok(u64::MAX)), &mut out), Error::NoError);
    assert_eq!(out.gas_used, u64::MAX);
}
