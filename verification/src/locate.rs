//! The step after the resolver has answered: either the on-disk path is
//! passed on, or the fixture aborts with a diagnostic naming the path.

use vstd::prelude::*;

verus! {

/// The diagnostic printed when the resolver could not be initialized.
pub open spec fn init_failure_text() -> Seq<char> {
    "Failed to locate runfiles"@
}

/// The diagnostic printed when a logical path has no runfile mapping.
pub open spec fn not_found_diag(rlocationpath: Seq<char>) -> Seq<char> {
    "Failed to locate runfile: "@ + rlocationpath
}

/// The message of the abort when the resolver could not be initialized.
pub fn init_failure_message() -> (m: String)
    ensures
        m@ == init_failure_text(),
{
    String::from_str("Failed to locate runfiles")
}

/// Decides what follows the resolver's answer for `rlocationpath`: a
/// resolved location is handed on unchanged, and an unmapped path turns
/// into the diagnostic that names it.
pub fn resolution_outcome(rlocationpath: &String, resolved: Option<String>) -> (r: Result<
    String,
    String,
>)
    ensures
        resolved matches Some(p) ==> (r matches Ok(q) && q == p),
        resolved is None ==> (r matches Err(d) && d@ == not_found_diag(rlocationpath@)),
{
    match resolved {
        Some(p) => Ok(p),
        None => {
            let mut d = String::from_str("Failed to locate runfile: ");
            d.append(rlocationpath.as_str());
            Err(d)
        },
    }
}

} // verus!
