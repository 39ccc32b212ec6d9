//! The task list of a bootloader run.
//!
//! A bootloader runs a list of tasks one after the other. A task is either a
//! program that is still to be run or the snapshot of a program that was run
//! before. The list holds the programs first, then the snapshots, each kind
//! in the order it was given. Both kinds are handed in as the outcome of
//! loading them from their bytes, which is the machine's work.

use vstd::prelude::*;
use cairo_vm::types::errors::program_errors::ProgramError;
use cairo_vm::types::program::Program;
use cairo_vm::vm::runners::cairo_pie::CairoPie;

verus! {

/// A program image of the machine, carried through as it is.
#[verifier::external_type_specification]
#[verifier::external_body]
pub struct ExProgram(Program);

/// The snapshot of an executed program, carried through as it is.
#[verifier::external_type_specification]
#[verifier::external_body]
pub struct ExCairoPie(CairoPie);

/// The machine's failure to load a program, carried through as it is.
#[verifier::external_type_specification]
#[verifier::external_body]
pub struct ExProgramError(ProgramError);

/// A failure to read from a stream of bytes, carried through as it is.
#[verifier::external_type_specification]
#[verifier::external_body]
pub struct ExIoError(std::io::Error);

/// The entry point at which every program of a task list is entered.
pub const TASK_ENTRYPOINT: &'static str = "main";

/// One unit of work of a bootloader run.
#[derive(Debug)]
pub enum Task {
    /// A program that the bootloader loads and runs.
    Program(Program),
    /// The snapshot of a program that was run before.
    Pie(CairoPie),
}

/// A task as it stands in the task list.
#[derive(Debug)]
pub struct TaskSpec {
    pub task: Task,
}

/// Why no task list was assembled: the input at `index` of its kind could not
/// be loaded.
#[derive(Debug)]
#[allow(inconsistent_fields)]
pub enum BootloaderTaskError {
    Program { index: usize, cause: ProgramError },
    Pie { index: usize, cause: std::io::Error },
}

/// The task for the program at `index`, or the failure to load it.
pub fn program_task(
    index: usize,
    loaded: Result<Program, ProgramError>,
) -> (task: Result<TaskSpec, BootloaderTaskError>)
    ensures
        match loaded {
            Ok(program) => task == Ok::<TaskSpec, BootloaderTaskError>(
                TaskSpec { task: Task::Program(program) },
            ),
            Err(cause) => task == Err::<TaskSpec, BootloaderTaskError>(
                BootloaderTaskError::Program { index, cause },
            ),
        },
{
    match loaded {
        Ok(program) => Ok(TaskSpec { task: Task::Program(program) }),
        Err(cause) => Err(BootloaderTaskError::Program { index, cause }),
    }
}

/// The task for the snapshot at `index`, or the failure to load it.
pub fn pie_task(
    index: usize,
    loaded: Result<CairoPie, std::io::Error>,
) -> (task: Result<TaskSpec, BootloaderTaskError>)
    ensures
        match loaded {
            Ok(pie) => task == Ok::<TaskSpec, BootloaderTaskError>(
                TaskSpec { task: Task::Pie(pie) },
            ),
            Err(cause) => task == Err::<TaskSpec, BootloaderTaskError>(
                BootloaderTaskError::Pie { index, cause },
            ),
        },
{
    match loaded {
        Ok(pie) => Ok(TaskSpec { task: Task::Pie(pie) }),
        Err(cause) => Err(BootloaderTaskError::Pie { index, cause }),
    }
}

/// What [`make_program_tasks`] returns for the outcomes of loading the
/// programs.
///
/// A list is returned exactly where every program was loaded: one task per
/// program, in the order of the outcomes. Otherwise the first failure is
/// reported as it is, with its place among the outcomes.
pub open spec fn programs_assembled(
    programs: Seq<Result<Program, ProgramError>>,
    assembly: Result<Vec<TaskSpec>, BootloaderTaskError>,
) -> bool {
    match assembly {
        Ok(tasks) => {
            &&& forall|i: int| 0 <= i < programs.len() ==> (#[trigger] programs[i]).is_ok()
            &&& tasks@.len() == programs.len()
            &&& forall|k: int|
                0 <= k < tasks@.len() ==> (#[trigger] tasks@[k]).task == Task::Program(
                    programs[k].unwrap(),
                )
        },
        Err(BootloaderTaskError::Program { index, cause }) => {
            &&& index < programs.len()
            &&& programs[index as int] == Err::<Program, ProgramError>(cause)
            &&& forall|i: int| 0 <= i < index ==> (#[trigger] programs[i]).is_ok()
        },
        Err(BootloaderTaskError::Pie { .. }) => false,
    }
}

/// What [`append_pie_tasks`] returns for a list of tasks and the outcomes of
/// loading the snapshots.
///
/// A list is returned exactly where every snapshot was loaded: the tasks
/// given, followed by one task per snapshot, in the order of the outcomes.
/// Otherwise the first failure is reported as it is, with its place among
/// the outcomes.
pub open spec fn pies_appended(
    before: Seq<TaskSpec>,
    pies: Seq<Result<CairoPie, std::io::Error>>,
    assembly: Result<Vec<TaskSpec>, BootloaderTaskError>,
) -> bool {
    match assembly {
        Ok(tasks) => {
            &&& forall|j: int| 0 <= j < pies.len() ==> (#[trigger] pies[j]).is_ok()
            &&& tasks@.len() == before.len() + pies.len()
            &&& forall|k: int| 0 <= k < before.len() ==> #[trigger] tasks@[k] == before[k]
            &&& forall|k: int|
                before.len() <= k < tasks@.len() ==> (#[trigger] tasks@[k]).task == Task::Pie(
                    pies[k - before.len()].unwrap(),
                )
        },
        Err(BootloaderTaskError::Pie { index, cause }) => {
            &&& index < pies.len()
            &&& pies[index as int] == Err::<CairoPie, std::io::Error>(cause)
            &&& forall|j: int| 0 <= j < index ==> (#[trigger] pies[j]).is_ok()
        },
        Err(BootloaderTaskError::Program { .. }) => false,
    }
}

/// What [`make_bootloader_tasks`] returns for the outcomes of loading the
/// programs and the snapshots.
///
/// A list is returned exactly where every input was loaded: it holds one
/// task per input, the programs first and then the snapshots, each kind in the
/// order of the inputs. Otherwise the first input that was not loaded is
/// reported, a program before any snapshot.
pub open spec fn assembled(
    programs: Seq<Result<Program, ProgramError>>,
    pies: Seq<Result<CairoPie, std::io::Error>>,
    assembly: Result<Vec<TaskSpec>, BootloaderTaskError>,
) -> bool {
    match assembly {
        Ok(tasks) => {
            &&& forall|i: int| 0 <= i < programs.len() ==> (#[trigger] programs[i]).is_ok()
            &&& forall|j: int| 0 <= j < pies.len() ==> (#[trigger] pies[j]).is_ok()
            &&& tasks@.len() == programs.len() + pies.len()
            &&& forall|k: int|
                0 <= k < programs.len() ==> (#[trigger] tasks@[k]).task == Task::Program(
                    programs[k].unwrap(),
                )
            &&& forall|k: int|
                programs.len() <= k < tasks@.len() ==> (#[trigger] tasks@[k]).task == Task::Pie(
                    pies[k - programs.len()].unwrap(),
                )
        },
        Err(BootloaderTaskError::Program { index, cause }) => {
            &&& index < programs.len()
            &&& programs[index as int] == Err::<Program, ProgramError>(cause)
            &&& forall|i: int| 0 <= i < index ==> (#[trigger] programs[i]).is_ok()
        },
        Err(BootloaderTaskError::Pie { index, cause }) => {
            &&& forall|i: int| 0 <= i < programs.len() ==> (#[trigger] programs[i]).is_ok()
            &&& index < pies.len()
            &&& pies[index as int] == Err::<CairoPie, std::io::Error>(cause)
            &&& forall|j: int| 0 <= j < index ==> (#[trigger] pies[j]).is_ok()
        },
    }
}

/// Makes one task of each loaded program, in the order of the outcomes.
///
/// Either every program becomes a task or none does: the first program that
/// was not loaded ends the assembly.
pub fn make_program_tasks(
    programs: Vec<Result<Program, ProgramError>>,
) -> (assembly: Result<Vec<TaskSpec>, BootloaderTaskError>)
    ensures
        programs_assembled(programs@, assembly),
{
    let mut list: Vec<TaskSpec> = Vec::new();
    let mut rest = programs;
    let total = rest.len();
    let mut i: usize = 0;
    while i < total
        invariant
            total == programs@.len(),
            i + rest@.len() == programs@.len(),
            rest@ =~= programs@.subrange(i as int, programs@.len() as int),
            list@.len() == i,
            forall|k: int| 0 <= k < i ==> (#[trigger] programs@[k]).is_ok(),
            forall|k: int|
                0 <= k < list@.len() ==> (#[trigger] list@[k]).task == Task::Program(
                    programs@[k].unwrap(),
                ),
        decreases total - i,
    {
        let loaded = rest.remove(0);
        assert(loaded == programs@[i as int]);
        match program_task(i, loaded) {
            Ok(task) => {
                list.push(task);
            },
            Err(failure) => {
                return Err(failure);
            },
        }
        i += 1;
    }
    Ok(list)
}

/// Adds one task per loaded snapshot to the end of a task list, in the order
/// of the outcomes.
///
/// Either every snapshot becomes a task or none does: the first snapshot that
/// was not loaded ends the assembly, and no part of the list is handed out.
pub fn append_pie_tasks(
    tasks: Vec<TaskSpec>,
    pies: Vec<Result<CairoPie, std::io::Error>>,
) -> (assembly: Result<Vec<TaskSpec>, BootloaderTaskError>)
    ensures
        pies_appended(tasks@, pies@, assembly),
{
    let mut list = tasks;
    let mut rest = pies;
    let total = rest.len();
    let mut j: usize = 0;
    while j < total
        invariant
            total == pies@.len(),
            j + rest@.len() == pies@.len(),
            rest@ =~= pies@.subrange(j as int, pies@.len() as int),
            list@.len() == tasks@.len() + j,
            forall|k: int| 0 <= k < j ==> (#[trigger] pies@[k]).is_ok(),
            forall|k: int| 0 <= k < tasks@.len() ==> #[trigger] list@[k] == tasks@[k],
            forall|k: int|
                tasks@.len() <= k < list@.len() ==> (#[trigger] list@[k]).task == Task::Pie(
                    pies@[k - tasks@.len()].unwrap(),
                ),
        decreases total - j,
    {
        let loaded = rest.remove(0);
        assert(loaded == pies@[j as int]);
        match pie_task(j, loaded) {
            Ok(task) => {
                list.push(task);
            },
            Err(failure) => {
                return Err(failure);
            },
        }
        j += 1;
    }
    Ok(list)
}

/// Assembles the task list of a bootloader run from the outcomes of loading
/// the compiled programs and the snapshot packages.
///
/// Either every input becomes a task or none does: the first input that was
/// not loaded ends the assembly, and no part of the list is handed out.
pub fn make_bootloader_tasks(
    programs: Vec<Result<Program, ProgramError>>,
    pies: Vec<Result<CairoPie, std::io::Error>>,
) -> (assembly: Result<Vec<TaskSpec>, BootloaderTaskError>)
    ensures
        assembled(programs@, pies@, assembly),
{
    match make_program_tasks(programs) {
        Ok(tasks) => append_pie_tasks(tasks, pies),
        Err(failure) => Err(failure),
    }
}

/// In an assembled list the programs come first and the snapshots after
/// them: the list is as long as both kinds of input together, its first tasks
/// are programs, as many as there were, and all the others are snapshots.
pub proof fn lemma_programs_come_first(
    programs: Seq<Result<Program, ProgramError>>,
    pies: Seq<Result<CairoPie, std::io::Error>>,
    assembly: Result<Vec<TaskSpec>, BootloaderTaskError>,
)
    requires
        assembled(programs, pies, assembly),
        assembly.is_ok(),
    ensures
        assembly.unwrap()@.len() == programs.len() + pies.len(),
        forall|k: int|
            0 <= k < programs.len() ==> (#[trigger] assembly.unwrap()@[k]).task is Program,
        forall|k: int|
            programs.len() <= k < assembly.unwrap()@.len() ==> (
            #[trigger] assembly.unwrap()@[k]).task is Pie,
{
}

/// Assembly is all or nothing: a list is handed out exactly where every
/// input was loaded.
pub proof fn lemma_assembly_is_all_or_nothing(
    programs: Seq<Result<Program, ProgramError>>,
    pies: Seq<Result<CairoPie, std::io::Error>>,
    assembly: Result<Vec<TaskSpec>, BootloaderTaskError>,
)
    requires
        assembled(programs, pies, assembly),
    ensures
        assembly.is_ok() <==> (forall|i: int|
            0 <= i < programs.len() ==> (#[trigger] programs[i]).is_ok()) && (forall|j: int|
            0 <= j < pies.len() ==> (#[trigger] pies[j]).is_ok()),
{
}

} // verus!
