//! Invocations of the isolation layer for one sandbox session.
//!
//! The layer is driven through its command line: `create` provisions the
//! sandbox, `start` launches it attached to three streams, `kill` stops it.
//! Running the commands is left to the caller; this module says what they are.

use vstd::prelude::*;
use crate::naming::region_path;
use crate::naming::region_path_chars;

verus! {

/// The arguments that provision the sandbox `name` running `code`.
///
/// The sandbox gets the session's region bound into its own shared-memory
/// root, and starts the interpreter unbuffered on the code, which is handed
/// over as it came, behind the import of the display wrappers.
pub open spec fn create_args_chars(name: Seq<char>, code: Seq<char>) -> Seq<Seq<char>> {
    seq![
        "create"@,
        "--name"@,
        name,
        "--mount"@,
        "type=bind,src="@ + region_path_chars(name) + ",dst=/dev/shm/neon"@,
        "neon"@,
        "-u"@,
        "-c"@,
        "import neon_wrappers; "@ + code,
    ]
}

/// The arguments that launch the sandbox `name` with its streams attached.
pub open spec fn start_args_chars(name: Seq<char>) -> Seq<Seq<char>> {
    seq!["start"@, "-ai"@, name]
}

/// The arguments that stop the sandbox `name`.
pub open spec fn stop_args_chars(name: Seq<char>) -> Seq<Seq<char>> {
    seq!["kill"@, name]
}

/// The program through which the isolation layer is driven.
pub fn runtime_program() -> (program: &'static str)
    ensures
        program@ == "docker"@,
{
    "docker"
}

/// Builds the arguments of the `create` invocation.
pub fn create_args(name: &str, code: &str) -> (args: Vec<String>)
    ensures
        args.deep_view() == create_args_chars(name@, code@),
{
    let mut mount = String::from_str("type=bind,src=");
    let source = region_path(name);
    mount.append(source.as_str());
    mount.append(",dst=/dev/shm/neon");
    let mut command = String::from_str("import neon_wrappers; ");
    command.append(code);
    let mut args: Vec<String> = Vec::with_capacity(9);
    args.push(String::from_str("create"));
    args.push(String::from_str("--name"));
    args.push(String::from_str(name));
    args.push(String::from_str("--mount"));
    args.push(mount);
    args.push(String::from_str("neon"));
    args.push(String::from_str("-u"));
    args.push(String::from_str("-c"));
    args.push(command);
    assert(args.deep_view() =~= create_args_chars(name@, code@));
    args
}

/// Builds the arguments of the `start` invocation.
pub fn start_args(name: &str) -> (args: Vec<String>)
    ensures
        args.deep_view() == start_args_chars(name@),
{
    let mut args: Vec<String> = Vec::with_capacity(3);
    args.push(String::from_str("start"));
    args.push(String::from_str("-ai"));
    args.push(String::from_str(name));
    assert(args.deep_view() =~= start_args_chars(name@));
    args
}

/// Builds the arguments of the `kill` invocation.
pub fn stop_args(name: &str) -> (args: Vec<String>)
    ensures
        args.deep_view() == stop_args_chars(name@),
{
    let mut args: Vec<String> = Vec::with_capacity(2);
    args.push(String::from_str("kill"));
    args.push(String::from_str(name));
    assert(args.deep_view() =~= stop_args_chars(name@));
    args
}

} // verus!
