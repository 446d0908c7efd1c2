//! Command-line handling: exactly one logical runfile path is expected.

use vstd::prelude::*;

verus! {

/// Exit code of an invocation with the wrong number of arguments.
pub const USAGE_EXIT_CODE: i32 = 1;

/// Exit code of an invocation that printed the resolved file.
pub const SUCCESS_EXIT_CODE: i32 = 0;

/// The arguments of a well-formed invocation.
pub struct Args {
    /// The logical runfile path to locate (e.g. `workspace/path/to/file.txt`).
    pub rlocationpath: String,
}

/// The two lines written to standard error when the argument count is wrong.
pub struct UsageMessage {
    /// `Usage: <program> <runfile_path>`
    pub usage: String,
    /// `Example: <program> workspace/path/to/file.txt`
    pub example: String,
}

/// The first line of the usage message for a program of the given name.
pub open spec fn usage_line(program: Seq<char>) -> Seq<char> {
    "Usage: "@ + program + " <runfile_path>"@
}

/// The second line of the usage message for a program of the given name.
pub open spec fn example_line(program: Seq<char>) -> Seq<char> {
    "Example: "@ + program + " workspace/path/to/file.txt"@
}

/// Reads the command line. With exactly one argument after the program
/// name, that argument is the logical runfile path; with any other count
/// the invocation is refused with the usage message built from the
/// program's own name.
pub fn parse_args(argv: &Vec<String>) -> (r: Result<Args, UsageMessage>)
    requires
        argv@.len() >= 1,
    ensures
        argv@.len() == 2 ==> (r matches Ok(a) && a.rlocationpath@ == argv@[1]@),
        argv@.len() != 2 ==> (r matches Err(m) && m.usage@ == usage_line(argv@[0]@)
            && m.example@ == example_line(argv@[0]@)),
{
    if argv.len() != 2 {
        let program: &String = &argv[0];
        let mut usage = String::from_str("Usage: ");
        usage.append(program.as_str());
        usage.append(" <runfile_path>");
        let mut example = String::from_str("Example: ");
        example.append(program.as_str());
        example.append(" workspace/path/to/file.txt");
        Err(UsageMessage { usage, example })
    } else {
        Ok(Args { rlocationpath: argv[1].clone() })
    }
}

} // verus!
