//! The command line's arguments, and the requests they turn into.

use crate::engine::CompileRequest;
use vstd::prelude::*;
use vstd::string::*;

verus! {

/// Arguments of the `compile` command.
#[derive(Clone, Debug)]
pub struct CompileArgs {
    /// Path to problem package root
    pub pkg_path: Vec<String>,
    /// Output path
    pub out_path: Vec<String>,
    /// Rewrite dir
    pub force: bool,
}

/// Arguments of the `import` command.
#[derive(Clone, Debug)]
pub struct ImportArgs {
    /// Path to package being imported
    pub in_path: String,
    /// Out path (will contain pps package)
    pub out_path: String,
    /// Rewrite dir
    pub force: bool,
    /// Imported contest name
    /// This option can only be used when importing contest
    pub contest_name: Option<String>,
}

#[derive(Clone, Debug)]
pub enum Args {
    Compile(CompileArgs),
    Import(ImportArgs),
}

/// Why the command line cannot be carried out.
#[derive(Clone, Copy, Debug, PartialEq, Eq, Structural)]
pub enum CliError {
    /// `--pkg` and `--out` were given a different number of times.
    PathCountMismatch,
}

/// One compile request per `--pkg`, paired in order with the `--out` given
/// in the same position; both must be given equally often.
pub fn compile_requests(args: &CompileArgs, jjs_path: &str) -> (r: Result<Vec<CompileRequest>, CliError>)
    ensures
        args.out_path@.len() != args.pkg_path@.len() ==> r == Err::<Vec<CompileRequest>, CliError>(
            CliError::PathCountMismatch,
        ),
        args.out_path@.len() == args.pkg_path@.len() ==> (r matches Ok(reqs) && reqs@.len()
            == args.pkg_path@.len() && forall|i: int|
            0 <= i < reqs@.len() ==> {
                &&& (#[trigger] reqs@[i]).problem_path@ == args.pkg_path@[i]@
                &&& reqs@[i].out_path@ == args.out_path@[i]@
                &&& reqs@[i].force == args.force
                &&& reqs@[i].jjs_path@ == jjs_path@
            }),
{
    if args.out_path.len() != args.pkg_path.len() {
        return Err(CliError::PathCountMismatch);
    }
    let mut reqs: Vec<CompileRequest> = Vec::new();
    let mut i: usize = 0;
    while i < args.pkg_path.len()
        invariant
            args.out_path@.len() == args.pkg_path@.len(),
            i <= args.pkg_path@.len(),
            reqs@.len() == i,
            forall|k: int|
                0 <= k < i ==> {
                    &&& (#[trigger] reqs@[k]).problem_path@ == args.pkg_path@[k]@
                    &&& reqs@[k].out_path@ == args.out_path@[k]@
                    &&& reqs@[k].force == args.force
                    &&& reqs@[k].jjs_path@ == jjs_path@
                },
        decreases args.pkg_path@.len() - i,
    {
        reqs.push(CompileRequest {
            problem_path: args.pkg_path[i].clone(),
            out_path: args.out_path[i].clone(),
            force: args.force,
            jjs_path: String::from_str(jjs_path),
        });
        i = i + 1;
    }
    Ok(reqs)
}

} // verus!
