//! What the program is started with.

use vstd::prelude::*;

verus! {

/// Exit status of the program when it is not given exactly one argument.
pub const USAGE_EXIT_STATUS: i32 = 1;

/// What the program logs as an error before it exits with
/// [`USAGE_EXIT_STATUS`].
pub const USAGE: &'static str = "Please specify target interface name";

/// The name of the interface to capture on, or the status to exit with.
///
/// `args` is the command line, the program's own name first. The name is
/// the one argument after it. Where the arguments are not exactly one
/// there is no name, and so nothing to capture on: the program is to exit
/// with the status that is handed back, which is [`USAGE_EXIT_STATUS`].
pub fn interface_name(args: &Vec<String>) -> (name: Result<&String, i32>)
    ensures
        name is Ok <==> args@.len() == 2,
        name matches Ok(n) ==> *n == args@[1],
        name matches Err(status) ==> status == USAGE_EXIT_STATUS && status == 1,
{
    if args.len() != 2 {
        Err(USAGE_EXIT_STATUS)
    } else {
        Ok(&args[1])
    }
}

} // verus!
