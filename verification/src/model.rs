//! A ghost account of one whole invocation of the fixture: given the
//! command line, the resolver's answer and what the read gave back, it
//! fixes how the process ends, everything it writes to standard output,
//! and the message of an abort. The laws of the fixture are proved here
//! against this account and the spec functions that the executable steps
//! are verified against.

use vstd::prelude::*;
use crate::cli::example_line;
use crate::cli::usage_line;
use crate::locate::init_failure_text;
use crate::locate::not_found_diag;
use crate::output::output_text;
use crate::output::read_failure_diag;

verus! {

/// The resolver's answer for the requested logical path.
pub ghost enum Resolution {
    /// The resolver itself could not be initialized.
    InitFailure,
    /// The logical path has no runfile mapping.
    Unmapped,
    /// The logical path maps to this on-disk location.
    Mapped(Seq<char>),
}

/// What reading the mapped location gave back.
pub ghost enum ReadBack {
    /// The read failed, with this error text.
    Failure(Seq<char>),
    /// The file's full contents.
    Contents(Seq<char>),
}

/// How an invocation of the fixture ends.
pub ghost enum Termination {
    /// Wrong argument count: usage message, exit code 1.
    UsageExit,
    /// Resolution or reading failed: abort with a diagnostic.
    Aborted,
    /// The contents were printed: exit code 0.
    Completed,
}

/// The process's exit code for each way of ending; an abort's code is
/// left open, beyond being abnormal.
pub open spec fn exit_code_of(t: Termination) -> Option<int> {
    match t {
        Termination::UsageExit => Some(1),
        Termination::Aborted => None,
        Termination::Completed => Some(0),
    }
}

/// How the invocation ends. The argument count is judged first; then a
/// resolver failure or an unmapped path aborts, and a mapped path
/// completes exactly when its file reads back.
pub open spec fn fixture_termination(
    argv: Seq<Seq<char>>,
    resolution: Resolution,
    read: ReadBack,
) -> Termination {
    if argv.len() != 2 {
        Termination::UsageExit
    } else {
        match resolution {
            Resolution::InitFailure => Termination::Aborted,
            Resolution::Unmapped => Termination::Aborted,
            Resolution::Mapped(_) => match read {
                ReadBack::Failure(_) => Termination::Aborted,
                ReadBack::Contents(_) => Termination::Completed,
            },
        }
    }
}

/// Everything the invocation writes to standard output: the mapped
/// file's contents, byte for byte, and on every other course nothing
/// at all.
pub open spec fn fixture_stdout(
    argv: Seq<Seq<char>>,
    resolution: Resolution,
    read: ReadBack,
) -> Seq<char> {
    if argv.len() != 2 {
        Seq::<char>::empty()
    } else {
        match (resolution, read) {
            (Resolution::Mapped(_), ReadBack::Contents(content)) => output_text(content),
            _ => Seq::<char>::empty(),
        }
    }
}

/// The message the fixture attaches to an abort, where it aborts.
pub open spec fn fixture_diagnostic(
    argv: Seq<Seq<char>>,
    resolution: Resolution,
    read: ReadBack,
) -> Option<Seq<char>> {
    if argv.len() != 2 {
        None
    } else {
        match resolution {
            Resolution::InitFailure => Some(init_failure_text()),
            Resolution::Unmapped => Some(not_found_diag(argv[1])),
            Resolution::Mapped(path) => match read {
                ReadBack::Failure(error) => Some(read_failure_diag(path, error)),
                ReadBack::Contents(_) => None,
            },
        }
    }
}

/// Cutting a concatenation of three pieces at the borders of the middle
/// piece gives the middle piece back.
proof fn lemma_concat3_middle(a: Seq<char>, b: Seq<char>, c: Seq<char>)
    ensures
        (a + b + c).subrange(a.len() as int, a.len() + b.len() as int) == b,
{
    assert((a + b + c).subrange(a.len() as int, a.len() + b.len() as int) =~= b);
}

/// An invocation with the wrong argument count exits with code 1 and
/// writes nothing to standard output, whatever the resolver or the file
/// would have answered.
pub proof fn lemma_wrong_argument_count(
    argv: Seq<Seq<char>>,
    resolution: Resolution,
    read: ReadBack,
)
    requires
        argv.len() != 2,
    ensures
        fixture_termination(argv, resolution, read) == Termination::UsageExit,
        exit_code_of(fixture_termination(argv, resolution, read)) == Some(1int),
        fixture_stdout(argv, resolution, read) == Seq::<char>::empty(),
{
}

/// The usage message names the program itself on both lines, and its
/// second line shows an example path.
pub proof fn lemma_usage_message_text(program: Seq<char>)
    ensures
        usage_line(program).subrange(7, 7 + program.len() as int) == program,
        example_line(program).subrange(9, 9 + program.len() as int) == program,
        example_line(program).subrange(10 + program.len() as int, 36 + program.len() as int)
            == "workspace/path/to/file.txt"@,
{
    reveal_strlit("Usage: ");
    reveal_strlit(" <runfile_path>");
    reveal_strlit("Example: ");
    reveal_strlit(" workspace/path/to/file.txt");
    reveal_strlit("workspace/path/to/file.txt");
    lemma_concat3_middle("Usage: "@, program, " <runfile_path>"@);
    lemma_concat3_middle("Example: "@, program, " workspace/path/to/file.txt"@);
    assert(example_line(program).subrange(
        10 + program.len() as int,
        36 + program.len() as int,
    ) =~= "workspace/path/to/file.txt"@);
}

/// An invocation whose path is mapped and whose file reads back writes
/// the file's contents to standard output byte for byte and exits with
/// code 0.
pub proof fn lemma_successful_invocation(argv: Seq<Seq<char>>, path: Seq<char>, content: Seq<char>)
    requires
        argv.len() == 2,
    ensures
        fixture_stdout(argv, Resolution::Mapped(path), ReadBack::Contents(content)) == content,
        fixture_termination(argv, Resolution::Mapped(path), ReadBack::Contents(content))
            == Termination::Completed,
        exit_code_of(
            fixture_termination(argv, Resolution::Mapped(path), ReadBack::Contents(content)),
        ) == Some(0int),
{
}

/// An invocation with a well-formed command line but an unmapped logical
/// path aborts, writes nothing to standard output, and its diagnostic
/// holds the requested path itself.
pub proof fn lemma_unmapped_path(argv: Seq<Seq<char>>, read: ReadBack)
    requires
        argv.len() == 2,
    ensures
        fixture_termination(argv, Resolution::Unmapped, read) == Termination::Aborted,
        fixture_stdout(argv, Resolution::Unmapped, read) == Seq::<char>::empty(),
        fixture_diagnostic(argv, Resolution::Unmapped, read) == Some(not_found_diag(argv[1])),
        not_found_diag(argv[1]).subrange(26, 26 + argv[1].len() as int) == argv[1],
{
    reveal_strlit("Failed to locate runfile: ");
    assert(not_found_diag(argv[1]).subrange(26, 26 + argv[1].len() as int) =~= argv[1]);
}

/// Repeated invocations with the same command line, the same resolver
/// answer and unchanged file contents write identical standard output.
pub proof fn lemma_repeat_invocation(
    argv1: Seq<Seq<char>>,
    resolution1: Resolution,
    read1: ReadBack,
    argv2: Seq<Seq<char>>,
    resolution2: Resolution,
    read2: ReadBack,
)
    requires
        argv1 == argv2,
        resolution1 == resolution2,
        read1 == read2,
    ensures
        fixture_stdout(argv1, resolution1, read1) == fixture_stdout(argv2, resolution2, read2),
{
}

} // verus!
