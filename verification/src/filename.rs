//! Generated recording file names.
//!
//! When a recording is started without an explicit output path, the file name
//! is generated from the wall-clock time: a fixed prefix, the whole seconds
//! since the Unix epoch in decimal, and a fixed video container extension.

use crate::decimal::{lemma_decimal_injective, spec_decimal, u64_to_decimal};
use vstd::prelude::*;

verus! {

/// The file name generated for a recording started at `timestamp` whole
/// seconds since the Unix epoch.
pub open spec fn spec_recording_filename(timestamp: u64) -> Seq<char> {
    "recording_"@ + spec_decimal(timestamp as nat) + ".mp4"@
}

/// Builds the generated file name for `timestamp`.
pub fn recording_filename(timestamp: u64) -> (r: String)
    ensures
        r@ == spec_recording_filename(timestamp),
{
    let digits = u64_to_decimal(timestamp);
    let r = String::from_str("recording_").concat(digits.as_str()).concat(".mp4");
    proof {
        assert(r@ =~= spec_recording_filename(timestamp));
    }
    r
}

/// Distinct timestamps generate distinct file names.
pub proof fn lemma_recording_filename_injective(t1: u64, t2: u64)
    requires
        t1 != t2,
    ensures
        spec_recording_filename(t1) != spec_recording_filename(t2),
{
    if spec_recording_filename(t1) == spec_recording_filename(t2) {
        let p = "recording_"@;
        let s = ".mp4"@;
        let d1 = spec_decimal(t1 as nat);
        let d2 = spec_decimal(t2 as nat);
        assert((p + d1 + s).len() == p.len() + d1.len() + s.len());
        assert((p + d2 + s).len() == p.len() + d2.len() + s.len());
        assert(p + d1 + s == p + d2 + s);
        assert(d1.len() == d2.len());
        assert(d1 =~= (p + d1 + s).subrange(p.len() as int, (p.len() + d1.len()) as int));
        assert(d2 =~= (p + d2 + s).subrange(p.len() as int, (p.len() + d2.len()) as int));
        lemma_decimal_injective(t1 as nat, t2 as nat);
    }
}

} // verus!
