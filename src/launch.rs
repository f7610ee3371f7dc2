//! How a launcher entry is opened, and which entries likely need elevation.
use crate::text::{contains_seq, contains_text, ends_with, has_suffix, lower_of, lowercase};
use vstd::prelude::*;

verus! {

/// Whether an entry is started as a process of its own (an `.exe`, `.bat`
/// or `.cmd` file), with its arguments and working directory, rather than
/// handed to the shell.
pub open spec fn launches_directly_spec(path: Seq<char>) -> bool {
    let lower = lower_of(path);
    ends_with(lower, ".exe"@) || ends_with(lower, ".bat"@) || ends_with(lower, ".cmd"@)
}

/// Whether `path` is an executable or script started as a process of its own.
pub fn launches_directly(path: &str) -> (r: bool)
    ensures
        r == launches_directly_spec(path@),
{
    let lower = lowercase(path);
    has_suffix(lower.as_str(), ".exe") || has_suffix(lower.as_str(), ".bat") || has_suffix(
        lower.as_str(),
        ".cmd",
    )
}

/// Name for the final component that `std::path::Path::file_name` yields,
/// or the empty text when there is none or it is not valid Unicode.
pub uninterp spec fn file_name_of(path: Seq<char>) -> Seq<char>;

/// Relies on `std::path::Path::file_name` and `OsStr::to_str`.
#[verifier::external_body]
fn file_name(path: &str) -> (r: String)
    ensures
        r@ == file_name_of(path@),
{
    std::path::Path::new(path).file_name().and_then(|f| f.to_str()).unwrap_or("").to_string()
}

/// Whether an entry likely needs elevation: its lowercased path runs through a
/// system directory, or its lowercased file name looks like an installer.
pub open spec fn requires_admin_spec(path: Seq<char>) -> bool {
    let lower = lower_of(path);
    let name = lower_of(file_name_of(path));
    contains_seq(lower, "\\windows\\"@) || contains_seq(lower, "\\program files\\"@)
        || contains_seq(lower, "\\system32\\"@) || contains_seq(name, "setup"@) || contains_seq(
        name,
        "install"@,
    ) || contains_seq(name, "uninstall"@) || contains_seq(name, "update"@)
}

/// A heuristic for whether launching `path` needs administrator rights.
pub fn requires_admin(path: &str) -> (r: bool)
    ensures
        r == requires_admin_spec(path@),
{
    let lower = lowercase(path);
    if contains_text(lower.as_str(), "\\windows\\") || contains_text(lower.as_str(), "\\program files\\")
        || contains_text(lower.as_str(), "\\system32\\") {
        return true;
    }
    let name = lowercase(file_name(path).as_str());
    contains_text(name.as_str(), "setup") || contains_text(name.as_str(), "install")
        || contains_text(name.as_str(), "uninstall") || contains_text(name.as_str(), "update")
}

} // verus!
