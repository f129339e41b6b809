use vstd::prelude::*;

verus! {

/// Which of the enumerated video capture devices is the default one: the
/// first, or none when nothing was found.
pub fn default_device_index(device_count: usize) -> (r: Option<usize>)
    ensures
        r == (if device_count > 0 { Some(0usize) } else { None::<usize> }),
{
    if device_count > 0 {
        Some(0)
    } else {
        None
    }
}

} // verus!
