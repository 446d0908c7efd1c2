//! The step after the file has been read: the contents become the standard
//! output, or a failed read becomes a diagnostic naming the path and the
//! underlying error.

use vstd::prelude::*;

verus! {

/// What the fixture writes to standard output for the given file
/// contents: the contents themselves, byte for byte, nothing more.
pub open spec fn output_text(content: Seq<char>) -> Seq<char> {
    content
}

/// The diagnostic printed when the resolved path could not be read:
/// the path, then the underlying error on a line of its own.
pub open spec fn read_failure_diag(path: Seq<char>, error: Seq<char>) -> Seq<char> {
    "Failed to read file: "@ + path + "\n"@ + error
}

/// Renders the standard output for the given file contents: the contents
/// byte for byte, with nothing added or taken away.
pub fn render_output(content: &String) -> (out: String)
    ensures
        out@ == output_text(content@),
{
    content.clone()
}

/// Decides what follows the attempt to read the resolved `path`: contents
/// become the exact standard output, and a read error becomes the
/// diagnostic that names the path and the error.
pub fn read_outcome(path: &String, read: Result<String, String>) -> (r: Result<String, String>)
    ensures
        read matches Ok(c) ==> (r matches Ok(out) && out@ == output_text(c@)),
        read matches Err(e) ==> (r matches Err(d) && d@ == read_failure_diag(path@, e@)),
{
    match read {
        Ok(c) => Ok(render_output(&c)),
        Err(e) => {
            let mut d = String::from_str("Failed to read file: ");
            d.append(path.as_str());
            d.append("\n");
            d.append(e.as_str());
            Err(d)
        },
    }
}

} // verus!
