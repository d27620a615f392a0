//! The two workflows' requests and progress updates, and the checks that
//! come before a workflow touches the file system.

use vstd::prelude::*;

verus! {

/// Request to compile a problem source into an invoker package.
#[derive(Clone, Debug)]
pub struct CompileRequest {
    /// Path to problem source directory
    pub problem_path: String,
    /// Where to put compiled package
    pub out_path: String,
    /// Ignore existing files in out_path
    pub force: bool,
    /// Path to directory containing JJS binaries (such as svaluer)
    pub jjs_path: String,
}

/// Progress of a compilation.
#[derive(Clone, Debug)]
pub enum CompileUpdate {
    /// Contains some warnings that should be displayed to used.
    /// Appears at most once.
    Warnings(Vec<String>),
    /// Solution with given name is being built
    BuildSolution(String),
    /// Test generator with given name is being built
    BuildTestgen(String),
    /// Checker building started
    BuildChecker,
    /// Test generation started. `count` tests will be processed.
    /// Appears at most once before `GenerateTest` updates.
    GenerateTests { count: usize },
    /// Test `test_id` is being generated; ids are in range 1..=`count`.
    GenerateTest { test_id: usize },
    /// Valuer config is being copied
    CopyValuerConfig,
}

/// Request to import a problem from the foreign format.
#[derive(Clone, Debug)]
pub struct ImportRequest {
    /// this path specifies file or files that should be imported
    pub src_path: String,
    /// where to put generated problem source
    pub out_path: String,
    /// do not check that dest is empty
    pub force: bool,
}

/// Progress of an import.
#[derive(Clone, Debug)]
pub enum ImportUpdate {
    /// Contains one property of discovered problem.
    /// Each `property_name` will be reported at most once.
    Property { property_name: PropertyName, property_value: String },
    /// Contains one warnings. May appear multiple times.
    Warning(String),
    /// Started importing checker
    ImportChecker,
    /// Started importing tests
    ImportTests,
    /// Finished importing tests. `count` tests imported.
    ImportTestsDone { count: usize },
    /// Started importing solutions
    ImportSolutions,
    /// Started importing solution with specific name
    ImportSolution(String),
    /// Valuer config is detected and will be imported
    ImportValuerConfig,
    /// Valuer config was not found, default will be used
    DefaultValuerConfig,
}

#[derive(Clone, Copy, Debug, PartialEq, Eq, Structural)]
pub enum PropertyName {
    /// Value is time limit in milliseconds.
    TimeLimit,
    /// Value is memory limit in bytes.
    MemoryLimit,
    /// Value is printf-style pattern of input files.
    InputPathPattern,
    /// Value is printf-style pattern of output files.
    OutputPathPattern,
    /// Value is problem title.
    ProblemTitle,
}

/// What an import source holds.
#[derive(Clone, Copy, Debug, PartialEq, Eq, Structural)]
pub enum ImportKind {
    Problem,
    Contest,
}

/// Why an import cannot start.
#[derive(Clone, Copy, Debug, PartialEq, Eq, Structural)]
pub enum ImportError {
    /// The source path does not exist.
    SourceMissing,
    /// The source holds neither a problem nor a contest manifest.
    UnknownSource,
    /// Contests cannot be imported yet.
    ContestUnsupported,
}

/// Tells what the source at a path holds, from what the file system shows
/// of it: whether it exists, and whether it holds a problem manifest or a
/// contest manifest. A problem manifest wins over a contest manifest.
pub fn detect_import_kind(exists: bool, has_problem_manifest: bool, has_contest_manifest: bool) -> (r: Result<ImportKind, ImportError>)
    ensures
        !exists ==> r == Err::<ImportKind, ImportError>(ImportError::SourceMissing),
        exists && has_problem_manifest ==> r == Ok::<ImportKind, ImportError>(ImportKind::Problem),
        exists && !has_problem_manifest && has_contest_manifest ==> r == Ok::<ImportKind, ImportError>(ImportKind::Contest),
        exists && !has_problem_manifest && !has_contest_manifest ==> r == Err::<ImportKind, ImportError>(ImportError::UnknownSource),
{
    if !exists {
        return Err(ImportError::SourceMissing);
    }
    if has_problem_manifest {
        return Ok(ImportKind::Problem);
    }
    if has_contest_manifest {
        return Ok(ImportKind::Contest);
    }
    Err(ImportError::UnknownSource)
}

/// Only a problem can be imported.
pub fn check_importable(kind: ImportKind) -> (r: Result<(), ImportError>)
    ensures
        r is Ok <==> kind == ImportKind::Problem,
        kind == ImportKind::Contest ==> r == Err::<(), ImportError>(ImportError::ContestUnsupported),
{
    match kind {
        ImportKind::Problem => Ok(()),
        ImportKind::Contest => Err(ImportError::ContestUnsupported),
    }
}

/// Why a directory is not fit to be written into.
#[derive(Clone, Copy, Debug, PartialEq, Eq, Structural)]
pub enum DirError {
    /// The path does not exist or is not available.
    Missing,
    /// The path is not a directory.
    NotDirectory,
    /// The directory has entries, which was not allowed.
    NotEmpty,
}

/// Judges an output directory from what the file system shows of it:
/// whether it exists, whether it is a directory, and whether it has at
/// least one entry. It must exist and be a directory, and be empty unless
/// `allow_nonempty`.
pub fn check_dir(exists: bool, is_dir: bool, has_entry: bool, allow_nonempty: bool) -> (r: Result<(), DirError>)
    ensures
        !exists ==> r == Err::<(), DirError>(DirError::Missing),
        exists && !is_dir ==> r == Err::<(), DirError>(DirError::NotDirectory),
        exists && is_dir && has_entry && !allow_nonempty ==> r == Err::<(), DirError>(DirError::NotEmpty),
        r is Ok <==> (exists && is_dir && (allow_nonempty || !has_entry)),
{
    if !exists {
        return Err(DirError::Missing);
    }
    if !is_dir {
        return Err(DirError::NotDirectory);
    }
    if !allow_nonempty && has_entry {
        return Err(DirError::NotEmpty);
    }
    Ok(())
}

/// A resource limit: the soft value and the hard ceiling.
#[derive(Clone, Copy, Debug, PartialEq, Eq, Structural)]
pub struct ResourceLimit {
    pub cur: u64,
    pub max: u64,
}

/// The stack limit to set: the soft value raised to the hard ceiling.
pub fn raised_limit(current: ResourceLimit) -> (r: ResourceLimit)
    ensures
        r.cur == current.max,
        r.max == current.max,
{
    ResourceLimit { cur: current.max, max: current.max }
}

} // verus!
