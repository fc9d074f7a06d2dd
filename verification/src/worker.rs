//! The script-worker mode of the program: how the command line selects it and
//! which script it runs.
use vstd::prelude::*;
use vstd::string::*;

verus! {

broadcast use vstd::string::group_string_axioms;

/// The flag that starts the program as a script worker instead of a window.
pub open spec fn worker_flag_text() -> Seq<char> {
    "--nu-worker"@
}

/// The call appended to a script run from a pipeline, so that its `main` runs
/// with the downloaded asset and the install folder.
pub open spec fn entry_call_text() -> Seq<char> {
    "\n\nmain $env.GRM_ASSET_PATH $env.GRM_INSTALL_DIR\n"@
}

/// Whether the command line `args` (program name first) asks for the worker.
pub fn is_worker_invocation(args: &Vec<String>) -> (b: bool)
    ensures
        b == (args@.len() > 1 && args@[1]@ == worker_flag_text()),
{
    args.len() > 1 && args[1] == "--nu-worker".to_string()
}

/// The script a worker command line names: its third word, when there is one.
pub fn worker_script_path(args: &Vec<String>) -> (r: Option<&String>)
    ensures
        match r {
            Some(p) => args@.len() >= 3 && *p == args@[2],
            None => args@.len() < 3,
        },
{
    if args.len() < 3 {
        None
    } else {
        Some(&args[2])
    }
}

/// The source a worker evaluates: the script as read, followed by the call of
/// its `main` when the worker runs for a pipeline.
pub fn worker_source(script: String, for_pipeline: bool) -> (r: String)
    ensures
        r@ == if for_pipeline {
            script@ + entry_call_text()
        } else {
            script@
        },
{
    let mut r = script;
    if for_pipeline {
        r.append("\n\nmain $env.GRM_ASSET_PATH $env.GRM_INSTALL_DIR\n");
    }
    r
}

} // verus!
