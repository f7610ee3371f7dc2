//! Store (UWP) applications, launched through the shell's apps folder.
use vstd::prelude::*;

verus! {

/// An installed store application.
#[derive(Debug, Clone, PartialEq, Eq)]
pub struct UwpApp {
    /// The display name.
    pub name: String,
    /// The Application User Model ID that launches it.
    pub aumid: String,
}

/// The shell target that launches an application by its AUMID.
pub open spec fn apps_folder_target_of(aumid: Seq<char>) -> Seq<char> {
    "shell:AppsFolder\\"@ + aumid
}

/// The shell target `shell:AppsFolder\{aumid}` handed to the shell to launch
/// the application.
pub fn apps_folder_target(aumid: &str) -> (r: String)
    ensures
        r@ == apps_folder_target_of(aumid@),
{
    String::from_str("shell:AppsFolder\\").concat(aumid)
}

} // verus!
