use vstd::prelude::*;

verus! {

/// Whether the bundled database is copied into place: only when the bundled
/// copy exists and no database is in place yet, so that a database in use is
/// never overwritten.
pub fn should_copy_db(source_exists: bool, target_exists: bool) -> (copy: bool)
    ensures
        copy == (source_exists && !target_exists),
{
    source_exists && !target_exists
}

} // verus!
