//! How the machine is driven towards a proof.
//!
//! Every run is made for a proof: it starts at `main`, records its trace and
//! relocates its memory. A bootloader run is given, besides, the tasks to
//! run, the layout to run them on and the record that identifies the
//! bootloader.

use vstd::prelude::*;
use vstd::string::*;
use cairo_vm::vm::errors::cairo_run_errors::CairoRunError;
use crate::artifacts::{
    extract_execution_artifacts, extraction_of, CompletedRun, ExecutionArtifacts, ExecutionError,
    FieldBytes,
};
use crate::models::Layout;
use crate::tasks::TaskSpec;

verus! {

/// What the machine is told before it runs a program.
#[derive(Debug)]
pub struct RunConfig {
    pub entrypoint: String,
    pub trace_enabled: bool,
    pub relocate_mem: bool,
    pub layout: Layout,
    pub proof_mode: bool,
    pub secure_run: Option<bool>,
    pub disable_trace_padding: bool,
    pub allow_missing_builtins: Option<bool>,
}

/// What a [`RunConfig`] stands for in contracts.
pub ghost struct RunConfigView {
    pub entrypoint: Seq<char>,
    pub trace_enabled: bool,
    pub relocate_mem: bool,
    pub layout: Layout,
    pub proof_mode: bool,
    pub secure_run: Option<bool>,
    pub disable_trace_padding: bool,
    pub allow_missing_builtins: Option<bool>,
}

impl View for RunConfig {
    type V = RunConfigView;

    open spec fn view(&self) -> RunConfigView {
        RunConfigView {
            entrypoint: self.entrypoint@,
            trace_enabled: self.trace_enabled,
            relocate_mem: self.relocate_mem,
            layout: self.layout,
            proof_mode: self.proof_mode,
            secure_run: self.secure_run,
            disable_trace_padding: self.disable_trace_padding,
            allow_missing_builtins: self.allow_missing_builtins,
        }
    }
}

/// The configuration of a run in proof mode: entered at `main`, with the
/// trace recorded and padded, the memory relocated, and the security checks
/// left to the machine's own choice.
pub open spec fn proof_mode_config(
    layout: Layout,
    allow_missing_builtins: Option<bool>,
) -> RunConfigView {
    RunConfigView {
        entrypoint: "main"@,
        trace_enabled: true,
        relocate_mem: true,
        layout,
        proof_mode: true,
        secure_run: None,
        disable_trace_padding: false,
        allow_missing_builtins,
    }
}

/// The configuration with which a program is run in proof mode.
pub fn proof_mode_run_config(
    layout: Layout,
    allow_missing_builtins: Option<bool>,
) -> (config: RunConfig)
    ensures
        config@ == proof_mode_config(layout, allow_missing_builtins),
{
    let proof_mode = true;
    RunConfig {
        entrypoint: String::from_str("main"),
        trace_enabled: true,
        relocate_mem: true,
        layout,
        proof_mode,
        secure_run: None,
        disable_trace_padding: false,
        allow_missing_builtins,
    }
}

/// The record that identifies the bootloader to the programs it runs.
#[derive(Debug)]
pub struct BootloaderConfig {
    pub simple_bootloader_program_hash: FieldBytes,
    pub supported_cairo_verifier_program_hashes: Vec<FieldBytes>,
}

/// How the output of a task is packed.
#[derive(Debug, Clone, Copy, PartialEq, Eq, Structural)]
pub enum PackedOutput {
    Plain,
}

/// What a bootloader run is given before it starts.
#[derive(Debug)]
pub struct BootloaderInput {
    pub tasks: Vec<TaskSpec>,
    pub layout: Layout,
    pub bootloader_config: BootloaderConfig,
    pub packed_outputs: Vec<PackedOutput>,
}

/// The layout of a bootloader run: the one that was chosen, and
/// `starknet_with_keccak` where none was.
pub open spec fn bootloader_layout(chosen: Option<Layout>) -> Layout {
    match chosen {
        Some(layout) => layout,
        None => Layout::StarknetWithKeccak,
    }
}

/// Puts together what a bootloader run is given: the tasks in their order,
/// the layout, a bootloader record whose program hash is left at zero and
/// which knows no verifier, and one plain packed output per task.
pub fn bootloader_input(tasks: Vec<TaskSpec>, layout: Option<Layout>) -> (input: BootloaderInput)
    ensures
        input.tasks == tasks,
        input.layout == bootloader_layout(layout),
        input.bootloader_config.simple_bootloader_program_hash@ == Seq::new(32, |i: int| 0u8),
        input.bootloader_config.supported_cairo_verifier_program_hashes@.len() == 0,
        input.packed_outputs@ == Seq::new(tasks@.len(), |i: int| PackedOutput::Plain),
{
    let layout = match layout {
        Some(layout) => layout,
        None => Layout::StarknetWithKeccak,
    };
    let mut packed_outputs: Vec<PackedOutput> = Vec::new();
    let mut i: usize = 0;
    while i < tasks.len()
        invariant
            i <= tasks.len(),
            packed_outputs@ == Seq::new(i as nat, |k: int| PackedOutput::Plain),
        decreases tasks.len() - i,
    {
        packed_outputs.push(PackedOutput::Plain);
        i += 1;
        assert(packed_outputs@ =~= Seq::new(i as nat, |k: int| PackedOutput::Plain));
    }
    let simple_bootloader_program_hash: FieldBytes = [0u8; 32];
    assert(simple_bootloader_program_hash@ =~= Seq::new(32, |i: int| 0u8));
    BootloaderInput {
        tasks,
        layout,
        bootloader_config: BootloaderConfig {
            simple_bootloader_program_hash,
            supported_cairo_verifier_program_hashes: Vec::new(),
        },
        packed_outputs,
    }
}

/// What a run that the machine attempted gives the prover: the machine's own
/// failure where the run failed, and else what is extracted from the run.
pub open spec fn artifacts_of(
    outcome: Result<CompletedRun, CairoRunError>,
    extracted: Result<ExecutionArtifacts, ExecutionError>,
) -> bool {
    match outcome {
        Ok(run) => extraction_of(run, extracted),
        Err(cause) => extracted matches Err(ExecutionError::RunFailed(reported)) && reported
            == cause,
    }
}

/// Gathers the inputs of the prover from the outcome of a run. A failure of
/// the run is handed on as it is, marked as a failure of the run.
pub fn artifacts_of_run(
    outcome: Result<CompletedRun, CairoRunError>,
) -> (extracted: Result<ExecutionArtifacts, ExecutionError>)
    ensures
        artifacts_of(outcome, extracted),
{
    match outcome {
        Ok(run) => extract_execution_artifacts(run),
        Err(cause) => Err(ExecutionError::RunFailed(cause)),
    }
}

} // verus!
