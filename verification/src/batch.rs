use vstd::prelude::*;

verus! {

/// Accounting for one step of a batch measurement: after a read of `bytes`
/// bytes has been written to the output sink, returns the new total and
/// whether the batch must keep reading to reach `target` bytes.
pub fn batch_step(written: u64, bytes: usize, target: u64) -> (r: (u64, bool))
    requires
        written + bytes <= u64::MAX,
    ensures
        r.0 == written + bytes,
        r.1 == (r.0 < target),
{
    let total = written + bytes as u64;
    (total, total < target)
}

} // verus!
