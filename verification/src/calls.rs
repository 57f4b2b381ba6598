//! The compile and run entry points, and the rule that turns a fault into
//! the error value of the operation in which it happened.
//!
//! The engine's compiler and executor may fault on input that they do not
//! expect, and a fault can only be caught on the host's side of this
//! library. So the engine is called there, under containment, and the
//! entry points here are handed what it answered: they decide what the
//! host is told and what is written to its buffers.
use vstd::prelude::*;
use crate::cache::oracle_cache_t;
use crate::error::Error;
use crate::span::Span;

verus! {

/// Where a run leaves the amount of gas it used. The value means something
/// only after a run that answered `NoError`.
#[derive(Debug, Clone, Copy, PartialEq, Eq, Structural)]
pub struct RunOutput {
    pub gas_used: u64,
}

/// A compiler's answer with the bytes taken as a sequence.
pub open spec fn artifact_view(outcome: Result<Vec<u8>, Error>) -> Result<Seq<u8>, Error> {
    match outcome {
        Ok(bytes) => Ok(bytes@),
        Err(code) => Err(code),
    }
}

/// The code that a compilation with this outcome answers with: `NoError`
/// for a compiled module, and the compiler's own code for a failure.
pub open spec fn compile_code(outcome: Result<Seq<u8>, Error>) -> Error {
    match outcome {
        Ok(_) => Error::NoError,
        Err(code) => code,
    }
}

/// What a compilation with this outcome leaves in an output buffer that
/// held `held` and has room for `capacity` bytes: a compiled module is
/// appended if it fits, and anything else leaves the buffer as it was.
pub open spec fn compile_output(
    outcome: Result<Seq<u8>, Error>,
    held: Seq<u8>,
    capacity: nat,
) -> Seq<u8> {
    match outcome {
        Ok(bytes) => Span::written(held, capacity, bytes),
        Err(_) => held,
    }
}

/// Answers the host for one compilation. `outcome` is what the compiler
/// made of the host's bytecode: the compiled module, or the code of its
/// failure. A compiled module goes into `output` and the answer is
/// `NoError`; a failure is answered with the compiler's code and `output`
/// is not written. No cache is touched.
pub fn do_compile(outcome: Result<Vec<u8>, Error>, output: &mut Span) -> (e: Error)
    requires
        old(output).wf(),
    ensures
        final(output).wf(),
        final(output).capacity() == old(output).capacity(),
        e == compile_code(artifact_view(outcome)),
        final(output)@ == compile_output(
            artifact_view(outcome),
            old(output)@,
            old(output).capacity(),
        ),
        outcome is Err ==> final(output)@ == old(output)@,
        (e == Error::NoError) == (outcome is Ok || outcome == Err::<Vec<u8>, Error>(
            Error::NoError,
        )),
{
    match outcome {
        Ok(bytes) => {
            let _ = output.write(bytes.as_slice());
            Error::NoError
        },
        Err(code) => code,
    }
}

/// The code that a run answers with. `outcome` is what the executor
/// reported, the gas it used or the code of its failure; it is `None`
/// where there was no cache to run against, so that nothing was run.
pub open spec fn run_code(outcome: Option<Result<u64, Error>>) -> Error {
    match outcome {
        None => Error::UnknownError,
        Some(Ok(_)) => Error::NoError,
        Some(Err(code)) => code,
    }
}

/// The gas count that a run leaves in an output that held `before`: the
/// executor's count after a run that succeeded, and `before` otherwise.
pub open spec fn run_gas(outcome: Option<Result<u64, Error>>, before: u64) -> u64 {
    match outcome {
        Some(Ok(gas_used)) => gas_used,
        _ => before,
    }
}

/// Answers the host for one run. `outcome` is what the executor reported
/// when run against the cache behind the host's handle, or `None` if the
/// handle was null and nothing was run. Without a cache the answer is
/// `UnknownError`; a run that succeeded leaves its gas count in `output`
/// and answers `NoError`; one that failed answers with the executor's code.
/// `output` is written on success only.
pub fn do_run(outcome: Option<Result<u64, Error>>, output: &mut RunOutput) -> (e: Error)
    ensures
        e == run_code(outcome),
        final(output).gas_used == run_gas(outcome, old(output).gas_used),
        !(outcome matches Some(Ok(_))) ==> *final(output) == *old(output),
{
    match outcome {
        None => Error::UnknownError,
        Some(Ok(gas_used)) => {
            output.gas_used = gas_used;
            Error::NoError
        },
        Some(Err(code)) => code,
    }
}

/// The answer of an operation that reports a code, run under fault
/// containment: `outcome` is the code it returned, or `None` if a fault
/// stopped it. A fault is answered with `UnknownError`.
pub fn contain_code(outcome: Option<Error>) -> (e: Error)
    ensures
        e == match outcome {
            Some(code) => code,
            None => Error::UnknownError,
        },
{
    match outcome {
        Some(code) => code,
        None => Error::UnknownError,
    }
}

/// The answer of an operation that hands out a handle, run under fault
/// containment: `outcome` is the handle it returned, or `None` if a fault
/// stopped it. A fault is answered with the null handle.
pub fn contain_handle(outcome: Option<oracle_cache_t>) -> (h: oracle_cache_t)
    ensures
        outcome matches Some(handle) ==> h == handle,
        outcome is None ==> h.is_null(),
{
    match outcome {
        Some(handle) => handle,
        None => oracle_cache_t::null(),
    }
}

/// A run without a cache answers `UnknownError` and leaves the output as it
/// was, whatever it held and whatever else was asked.
pub proof fn lemma_run_without_cache(before: u64)
    ensures
        run_code(None) == Error::UnknownError,
        run_gas(None, before) == before,
{
}

/// A run that the executor finished within the gas limit answers `NoError`
/// and leaves the executor's gas count, which is within the limit.
pub proof fn lemma_run_within_limit(gas_used: u64, gas_limit: u64, before: u64)
    requires
        gas_used <= gas_limit,
    ensures
        run_code(Some(Ok(gas_used))) == Error::NoError,
        run_gas(Some(Ok(gas_used)), before) == gas_used,
        run_gas(Some(Ok(gas_used)), before) <= gas_limit,
{
}

/// A run that the executor failed answers with the executor's code, which
/// is not `NoError`, and leaves the output as it was. Gas exhaustion is
/// such a failure.
pub proof fn lemma_run_failure(code: Error, before: u64)
    requires
        code != Error::NoError,
    ensures
        run_code(Some(Err(code))) == code,
        run_code(Some(Err(code))) != Error::NoError,
        run_gas(Some(Err(code)), before) == before,
        run_code(Some(Err(Error::OutOfGasError))) == Error::OutOfGasError,
        run_gas(Some(Err(Error::OutOfGasError)), before) == before,
{
}

/// A compilation that failed answers with the compiler's code, which is
/// not `NoError`, and writes nothing.
pub proof fn lemma_compile_failure(code: Error, held: Seq<u8>, capacity: nat)
    requires
        code != Error::NoError,
    ensures
        compile_code(Err(code)) == code,
        compile_code(Err(code)) != Error::NoError,
        compile_output(Err(code), held, capacity) == held,
{
}

/// Whatever the compiler answered, the output buffer keeps what it held,
/// in front, and holds no more than its capacity.
pub proof fn lemma_compile_within_capacity(
    outcome: Result<Seq<u8>, Error>,
    held: Seq<u8>,
    capacity: nat,
)
    requires
        held.len() <= capacity,
    ensures
        compile_output(outcome, held, capacity).len() <= capacity,
        held.is_prefix_of(compile_output(outcome, held, capacity)),
{
}

} // verus!
