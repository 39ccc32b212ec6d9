//! The proof inputs of a finished run.
//!
//! A finished run leaves its relocated memory and, where tracing was enabled,
//! its relocated trace. Both are written out as flat streams of fixed-width
//! little-endian fields, and bundled with the public and the private input.

use vstd::prelude::*;
use vstd::bytes::{lemma_auto_spec_u64_to_from_le_bytes, spec_u64_to_le_bytes, u64_to_le_bytes};
use bincode::error::EncodeError;
use cairo_vm::air_private_input::AirPrivateInput;
use cairo_vm::air_public_input::PublicInputError;
use cairo_vm::vm::errors::cairo_run_errors::CairoRunError;
use cairo_vm::vm::errors::memory_errors::MemoryError;
use crate::models::PublicInput;

verus! {

/// The error of `bincode`'s writers, carried through as it is.
#[verifier::external_type_specification]
#[verifier::external_body]
pub struct ExEncodeError(EncodeError);

/// The machine's private input, carried through as it is.
#[verifier::external_type_specification]
#[verifier::external_body]
pub struct ExAirPrivateInput(AirPrivateInput);

/// The machine's failure to produce a public input, carried through as it is.
#[verifier::external_type_specification]
#[verifier::external_body]
pub struct ExPublicInputError(PublicInputError);

/// The machine's failure to run a program, carried through as it is.
#[verifier::external_type_specification]
#[verifier::external_body]
pub struct ExCairoRunError(CairoRunError);

/// The machine's failure to reach its memory, carried through as it is.
#[verifier::external_type_specification]
#[verifier::external_body]
pub struct ExMemoryError(MemoryError);

/// A failure to read or write JSON text, carried through as it is.
#[verifier::external_type_specification]
#[verifier::external_body]
pub struct ExJsonError(serde_json::Error);

/// The value of a memory cell: a field element as 32 little-endian bytes.
pub type FieldBytes = [u8; 32];

/// The registers before one executed instruction, after relocation.
#[derive(Debug, Clone, Copy, PartialEq, Eq, Structural)]
pub struct TraceEntry {
    pub pc: usize,
    pub ap: usize,
    pub fp: usize,
}

/// A writer that keeps in memory what is written to it.
#[derive(Debug)]
pub struct MemWriter {
    pub buf: Vec<u8>,
}

impl MemWriter {
    /// A writer that holds nothing yet.
    pub fn new() -> (writer: MemWriter)
        ensures
            writer.buf@ == Seq::<u8>::empty(),
    {
        MemWriter { buf: Vec::new() }
    }

    /// Appends `bytes` to what the writer holds. It never fails.
    pub fn write(&mut self, bytes: &[u8]) -> (written: Result<(), EncodeError>)
        ensures
            written.is_ok(),
            final(self).buf@ == old(self).buf@ + bytes@,
    {
        self.buf.extend_from_slice(bytes);
        Ok(())
    }
}

impl Default for MemWriter {
    fn default() -> (writer: MemWriter)
        ensures
            writer.buf@ == Seq::<u8>::empty(),
    {
        MemWriter::new()
    }
}

/// A failure to write the record at `position` of a stream.
#[derive(Debug)]
pub struct EncodeTraceError {
    pub position: usize,
    pub cause: EncodeError,
}

/// One populated memory cell in the stream: its address as 8 little-endian
/// bytes, then its value.
pub open spec fn encoded_cell(address: int, value: FieldBytes) -> Seq<u8> {
    spec_u64_to_le_bytes(address as u64) + value@
}

/// The memory stream: the populated cells by ascending address, with nothing
/// between them and nothing for the cells that hold no value.
pub open spec fn encoded_memory(memory: Seq<Option<FieldBytes>>) -> Seq<u8>
    decreases memory.len(),
{
    if memory.len() == 0 {
        Seq::<u8>::empty()
    } else {
        let before = encoded_memory(memory.drop_last());
        match memory.last() {
            Some(value) => before + encoded_cell(memory.len() - 1, value),
            None => before,
        }
    }
}

/// One trace entry in the stream: `ap`, `fp` and `pc`, in this order, each as
/// 8 little-endian bytes.
pub open spec fn encoded_trace_entry(entry: TraceEntry) -> Seq<u8> {
    spec_u64_to_le_bytes(entry.ap as u64) + spec_u64_to_le_bytes(entry.fp as u64)
        + spec_u64_to_le_bytes(entry.pc as u64)
}

/// The trace stream: the entries in the order of execution, with nothing
/// between them.
pub open spec fn encoded_trace(trace: Seq<TraceEntry>) -> Seq<u8>
    decreases trace.len(),
{
    if trace.len() == 0 {
        Seq::<u8>::empty()
    } else {
        encoded_trace(trace.drop_last()) + encoded_trace_entry(trace.last())
    }
}

/// Writes the memory stream of `relocated_memory` to `dest`.
pub fn write_encoded_memory(
    relocated_memory: &Vec<Option<FieldBytes>>,
    dest: &mut MemWriter,
) -> (written: Result<(), EncodeTraceError>)
    ensures
        written.is_ok(),
        final(dest).buf@ == old(dest).buf@ + encoded_memory(relocated_memory@),
{
    let mut i: usize = 0;
    while i < relocated_memory.len()
        invariant
            i <= relocated_memory.len(),
            dest.buf@ == old(dest).buf@ + encoded_memory(relocated_memory@.take(i as int)),
        decreases relocated_memory.len() - i,
    {
        proof {
            assert(relocated_memory@.take(i + 1).drop_last() =~= relocated_memory@.take(i as int));
        }
        match &relocated_memory[i] {
            None => {},
            Some(value) => {
                let address = u64_to_le_bytes(i as u64);
                match dest.write(address.as_slice()) {
                    Ok(()) => {},
                    Err(cause) => {
                        return Err(EncodeTraceError { position: i, cause });
                    },
                }
                match dest.write(value.as_slice()) {
                    Ok(()) => {},
                    Err(cause) => {
                        return Err(EncodeTraceError { position: i, cause });
                    },
                }
                assert(dest.buf@ =~= old(dest).buf@ + encoded_memory(
                    relocated_memory@.take(i + 1),
                ));
            },
        }
        i += 1;
    }
    assert(relocated_memory@.take(i as int) =~= relocated_memory@);
    Ok(())
}

/// Writes the trace stream of `relocated_trace` to `dest`.
pub fn write_encoded_trace(
    relocated_trace: &Vec<TraceEntry>,
    dest: &mut MemWriter,
) -> (written: Result<(), EncodeTraceError>)
    ensures
        written.is_ok(),
        final(dest).buf@ == old(dest).buf@ + encoded_trace(relocated_trace@),
{
    let mut i: usize = 0;
    while i < relocated_trace.len()
        invariant
            i <= relocated_trace.len(),
            dest.buf@ == old(dest).buf@ + encoded_trace(relocated_trace@.take(i as int)),
        decreases relocated_trace.len() - i,
    {
        proof {
            assert(relocated_trace@.take(i + 1).drop_last() =~= relocated_trace@.take(i as int));
        }
        let entry = relocated_trace[i];
        let ap = u64_to_le_bytes(entry.ap as u64);
        match dest.write(ap.as_slice()) {
            Ok(()) => {},
            Err(cause) => {
                return Err(EncodeTraceError { position: i, cause });
            },
        }
        let fp = u64_to_le_bytes(entry.fp as u64);
        match dest.write(fp.as_slice()) {
            Ok(()) => {},
            Err(cause) => {
                return Err(EncodeTraceError { position: i, cause });
            },
        }
        let pc = u64_to_le_bytes(entry.pc as u64);
        match dest.write(pc.as_slice()) {
            Ok(()) => {},
            Err(cause) => {
                return Err(EncodeTraceError { position: i, cause });
            },
        }
        assert(dest.buf@ =~= old(dest).buf@ + encoded_trace(relocated_trace@.take(i + 1)));
        i += 1;
    }
    assert(relocated_trace@.take(i as int) =~= relocated_trace@);
    Ok(())
}

/// Why a run has no trace to offer.
#[derive(Debug)]
pub enum TraceError {
    TraceNotEnabled,
    AlreadyRelocated,
    NoRelocationFound,
    MemoryError(MemoryError),
    TraceNotRelocated,
}

/// Why a run has no public input to offer.
#[derive(Debug)]
pub enum PublicInputFailure {
    /// The machine could not produce its public input.
    Generate(PublicInputError),
    /// The machine's public input could not be read into [`PublicInput`].
    Serialize(serde_json::Error),
}

/// What a finished run leaves behind.
#[derive(Debug)]
pub struct CompletedRun {
    /// The relocated memory, by address; `None` where a cell holds no value.
    pub relocated_memory: Vec<Option<FieldBytes>>,
    /// The relocated trace, where tracing was enabled for the run.
    pub relocated_trace: Option<Vec<TraceEntry>>,
    /// The public input of the run, or why there is none.
    pub public_input: Result<PublicInput, PublicInputFailure>,
    /// The private input of the run.
    pub private_input: AirPrivateInput,
}

/// The inputs of the prover.
#[derive(Debug)]
pub struct ExecutionArtifacts {
    pub public_input: PublicInput,
    pub private_input: AirPrivateInput,
    pub memory: Vec<u8>,
    pub trace: Vec<u8>,
}

/// Why a run gave no proof inputs.
#[derive(Debug)]
pub enum ExecutionError {
    RunFailed(CairoRunError),
    GeneratePublicInput(PublicInputError),
    GenerateTrace(TraceError),
    EncodeMemory(EncodeTraceError),
    EncodeTrace(EncodeTraceError),
    SerializePublicInput(serde_json::Error),
}

/// The two streams of a run.
#[derive(Debug)]
pub struct EncodedRun {
    pub memory: Vec<u8>,
    pub trace: Vec<u8>,
}

/// What [`encode_run`] returns for a memory and a trace: the failure that
/// says that tracing was not enabled where there is no trace, and both
/// streams otherwise.
pub open spec fn encoding_of(
    relocated_memory: Seq<Option<FieldBytes>>,
    relocated_trace: Option<Vec<TraceEntry>>,
    encoded: Result<EncodedRun, ExecutionError>,
) -> bool {
    match relocated_trace {
        None => encoded matches Err(ExecutionError::GenerateTrace(TraceError::TraceNotEnabled)),
        Some(trace) => encoded matches Ok(streams) && {
            &&& streams.memory@ == encoded_memory(relocated_memory)
            &&& streams.trace@ == encoded_trace(trace@)
        },
    }
}

/// What [`public_input_of`] returns for the outcome of asking a run for its
/// public input: the public input, or the failure under the mark of the step
/// that failed.
pub open spec fn public_input_checked(
    outcome: Result<PublicInput, PublicInputFailure>,
    checked: Result<PublicInput, ExecutionError>,
) -> bool {
    match outcome {
        Ok(public_input) => checked matches Ok(accepted) && accepted == public_input,
        Err(PublicInputFailure::Generate(cause)) => checked matches Err(
            ExecutionError::GeneratePublicInput(reported),
        ) && reported == cause,
        Err(PublicInputFailure::Serialize(cause)) => checked matches Err(
            ExecutionError::SerializePublicInput(reported),
        ) && reported == cause,
    }
}

/// What [`extract_execution_artifacts`] returns for a run: the failure of the
/// first step that fails, or the four inputs of the prover.
pub open spec fn extraction_of(
    run: CompletedRun,
    extracted: Result<ExecutionArtifacts, ExecutionError>,
) -> bool {
    match run.relocated_trace {
        None => extracted matches Err(ExecutionError::GenerateTrace(TraceError::TraceNotEnabled)),
        Some(relocated_trace) => match run.public_input {
            Err(PublicInputFailure::Generate(cause)) => extracted matches Err(
                ExecutionError::GeneratePublicInput(reported),
            ) && reported == cause,
            Err(PublicInputFailure::Serialize(cause)) => extracted matches Err(
                ExecutionError::SerializePublicInput(reported),
            ) && reported == cause,
            Ok(public_input) => extracted matches Ok(artifacts) && {
                &&& artifacts.public_input == public_input
                &&& artifacts.private_input == run.private_input
                &&& artifacts.memory@ == encoded_memory(run.relocated_memory@)
                &&& artifacts.trace@ == encoded_trace(relocated_trace@)
            },
        },
    }
}

/// Writes out the memory and the trace of a run. A run without a trace is
/// refused before anything is written.
pub fn encode_run(
    relocated_memory: &Vec<Option<FieldBytes>>,
    relocated_trace: &Option<Vec<TraceEntry>>,
) -> (encoded: Result<EncodedRun, ExecutionError>)
    ensures
        encoding_of(relocated_memory@, *relocated_trace, encoded),
{
    let trace = match relocated_trace {
        Some(trace) => trace,
        None => {
            return Err(ExecutionError::GenerateTrace(TraceError::TraceNotEnabled));
        },
    };

    let mut memory_writer = MemWriter::new();
    match write_encoded_memory(relocated_memory, &mut memory_writer) {
        Ok(()) => {},
        Err(cause) => {
            return Err(ExecutionError::EncodeMemory(cause));
        },
    }
    let memory_raw = memory_writer.buf;

    let mut trace_writer = MemWriter::new();
    match write_encoded_trace(trace, &mut trace_writer) {
        Ok(()) => {},
        Err(cause) => {
            return Err(ExecutionError::EncodeTrace(cause));
        },
    }
    let trace_raw = trace_writer.buf;

    Ok(EncodedRun { memory: memory_raw, trace: trace_raw })
}

/// Takes the public input of a run, or hands on why there is none, marked by
/// the step that failed.
pub fn public_input_of(
    outcome: Result<PublicInput, PublicInputFailure>,
) -> (checked: Result<PublicInput, ExecutionError>)
    ensures
        public_input_checked(outcome, checked),
{
    match outcome {
        Ok(public_input) => Ok(public_input),
        Err(PublicInputFailure::Generate(cause)) => Err(
            ExecutionError::GeneratePublicInput(cause),
        ),
        Err(PublicInputFailure::Serialize(cause)) => Err(
            ExecutionError::SerializePublicInput(cause),
        ),
    }
}

/// Bundles the two streams of a run with its public and its private input.
pub fn bundle_artifacts(
    encoded: EncodedRun,
    public_input: PublicInput,
    private_input: AirPrivateInput,
) -> (artifacts: ExecutionArtifacts)
    ensures
        artifacts.public_input == public_input,
        artifacts.private_input == private_input,
        artifacts.memory == encoded.memory,
        artifacts.trace == encoded.trace,
{
    ExecutionArtifacts {
        public_input,
        private_input,
        memory: encoded.memory,
        trace: encoded.trace,
    }
}

/// Gathers the inputs of the prover from a finished run.
///
/// A run without a trace is refused before anything is encoded, and a run
/// without a public input once both streams are written; in either case no
/// part of the result is handed out.
pub fn extract_execution_artifacts(
    run: CompletedRun,
) -> (extracted: Result<ExecutionArtifacts, ExecutionError>)
    ensures
        extraction_of(run, extracted),
{
    let CompletedRun { relocated_memory, relocated_trace, public_input, private_input } = run;
    let encoded = match encode_run(&relocated_memory, &relocated_trace) {
        Ok(encoded) => encoded,
        Err(failure) => {
            return Err(failure);
        },
    };
    let public_input = match public_input_of(public_input) {
        Ok(public_input) => public_input,
        Err(failure) => {
            return Err(failure);
        },
    };
    Ok(bundle_artifacts(encoded, public_input, private_input))
}

/// The number of memory cells that hold a value.
pub open spec fn populated_cells(memory: Seq<Option<FieldBytes>>) -> nat
    decreases memory.len(),
{
    if memory.len() == 0 {
        0
    } else {
        populated_cells(memory.drop_last()) + if memory.last().is_some() {
            1nat
        } else {
            0nat
        }
    }
}

/// Every populated cell takes 40 bytes of the memory stream, and the other
/// cells take none.
pub proof fn lemma_encoded_memory_len(memory: Seq<Option<FieldBytes>>)
    ensures
        encoded_memory(memory).len() == 40 * populated_cells(memory),
    decreases memory.len(),
{
    lemma_auto_spec_u64_to_from_le_bytes();
    if memory.len() > 0 {
        lemma_encoded_memory_len(memory.drop_last());
    }
}

/// Every entry takes 24 bytes of the trace stream.
pub proof fn lemma_encoded_trace_len(trace: Seq<TraceEntry>)
    ensures
        encoded_trace(trace).len() == 24 * trace.len(),
    decreases trace.len(),
{
    lemma_auto_spec_u64_to_from_le_bytes();
    if trace.len() > 0 {
        lemma_encoded_trace_len(trace.drop_last());
    }
}

/// Extraction is repeatable: two runs with the same relocated memory and the
/// same relocated trace, where both give proof inputs, give the same two
/// streams byte for byte.
pub proof fn lemma_extraction_repeatable(
    first: CompletedRun,
    second: CompletedRun,
    first_extracted: Result<ExecutionArtifacts, ExecutionError>,
    second_extracted: Result<ExecutionArtifacts, ExecutionError>,
)
    requires
        extraction_of(first, first_extracted),
        extraction_of(second, second_extracted),
        first.relocated_memory@ == second.relocated_memory@,
        first.relocated_trace.is_some(),
        second.relocated_trace.is_some(),
        first.relocated_trace.unwrap()@ == second.relocated_trace.unwrap()@,
        first_extracted.is_ok(),
        second_extracted.is_ok(),
    ensures
        first_extracted.unwrap().memory@ == second_extracted.unwrap().memory@,
        first_extracted.unwrap().trace@ == second_extracted.unwrap().trace@,
{
}

/// A run without a trace gives the failure that says so and nothing else,
/// whatever else the run holds.
pub proof fn lemma_extraction_needs_trace(
    run: CompletedRun,
    extracted: Result<ExecutionArtifacts, ExecutionError>,
)
    requires
        extraction_of(run, extracted),
    ensures
        run.relocated_trace.is_none() <==> extracted matches Err(
            ExecutionError::GenerateTrace(_),
        ),
        run.relocated_trace.is_none() ==> extracted matches Err(
            ExecutionError::GenerateTrace(TraceError::TraceNotEnabled),
        ),
        extracted.is_ok() <==> run.relocated_trace.is_some() && run.public_input.is_ok(),
{
}

} // verus!
