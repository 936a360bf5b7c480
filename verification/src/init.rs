//! Platform permission handling before any camera is opened.

use vstd::prelude::*;

verus! {

/// Ask for camera permission and report the answer to `on_complete`. Only
/// AVFoundation platforms ask; elsewhere access is granted, so the callback
/// runs at once with `true`.
pub fn nokhwa_initialize<C: Fn(bool) + Send + Sync + 'static>(on_complete: C)
    requires
        on_complete.requires((true,)),
    ensures
        on_complete.ensures((true,), ()),
{
    on_complete(true);
}

/// Whether camera access is granted: always, where no permission is asked.
pub fn nokhwa_check() -> (r: bool)
    ensures
        r,
{
    true
}

} // verus!
