//! Naming and rotation of settings backups.
use vstd::prelude::*;

verus! {

/// How many backups are kept.
pub const MAX_BACKUPS: usize = 10;

/// The backup file name for a timestamp: `settings_{timestamp}.json`.
pub open spec fn backup_file_name_of(timestamp: Seq<char>) -> Seq<char> {
    "settings_"@ + timestamp + ".json"@
}

/// The file name of a backup taken at `timestamp` (formatted `YYYYMMDD_HHMMSS`,
/// so that name order is time order).
pub fn backup_file_name(timestamp: &str) -> (r: String)
    ensures
        r@ == backup_file_name_of(timestamp@),
{
    String::from_str("settings_").concat(timestamp).concat(".json")
}

/// The backups to delete so that at most `max_keep` remain: the oldest ones,
/// that is the first of `sorted`, which lists backups oldest first.
pub fn backups_to_remove(sorted: &[String], max_keep: usize) -> (r: Vec<String>)
    ensures
        r@.len() == if sorted@.len() > max_keep { sorted@.len() - max_keep } else { 0 },
        forall|i: int| 0 <= i < r@.len() ==> #[trigger] r@[i]@ == sorted@[i]@,
{
    let mut out: Vec<String> = Vec::new();
    if sorted.len() <= max_keep {
        return out;
    }
    let excess = sorted.len() - max_keep;
    let mut i: usize = 0;
    while i < excess
        invariant
            excess <= sorted@.len(),
            i <= excess,
            out@.len() == i,
            forall|j: int| 0 <= j < i ==> #[trigger] out@[j]@ == sorted@[j]@,
        decreases excess - i,
    {
        out.push(sorted[i].clone());
        i = i + 1;
    }
    out
}

} // verus!
