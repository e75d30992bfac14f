//! The meaning of a search program's arguments.

use vstd::prelude::*;

verus! {

/// The query and the file path among the arguments of the program: the
/// first and the second behind the program's own name.
///
/// Both have to be there.
pub fn query_and_file_path(args: &[String]) -> (found: (&String, &String))
    requires
        args@.len() >= 3,
    ensures
        *found.0 == args@[1],
        *found.1 == args@[2],
{
    (&args[1], &args[2])
}

} // verus!
