//! The time of day written in front of each log line.
use vstd::prelude::*;
use crate::text::{zero_padded, zero_padded_string};

verus! {

/// `HH:MM:SS.mmm` (UTC) for a time given as seconds since the Unix epoch and the
/// milliseconds within the second.
pub open spec fn clock_text(secs: u64, millis: u32) -> Seq<char> {
    zero_padded(((secs / 3600) % 24) as nat, 2) + ":"@ + zero_padded(((secs / 60) % 60) as nat, 2) + ":"@
        + zero_padded((secs % 60) as nat, 2) + "."@ + zero_padded(millis as nat, 3)
}

/// Renders a time of day as `HH:MM:SS.mmm`.
pub fn format_clock(secs: u64, millis: u32) -> (r: String)
    ensures
        r@ == clock_text(secs, millis),
{
    let mut r = zero_padded_string((secs / 3600) % 24, 2);
    r.append(":");
    let m = zero_padded_string((secs / 60) % 60, 2);
    r.append(m.as_str());
    r.append(":");
    let s = zero_padded_string(secs % 60, 2);
    r.append(s.as_str());
    r.append(".");
    let ms = zero_padded_string(millis as u64, 3);
    r.append(ms.as_str());
    r
}

/// The current time as seconds since the Unix epoch and milliseconds within the second.
/// Trusted: `SystemTime::now().duration_since(UNIX_EPOCH)`, with a clock set before the
/// epoch read as zero, split by `as_secs` and `subsec_millis`; of the outcome only that the
/// milliseconds are below 1000 is stated, since it depends on the time.
#[verifier::external_body]
fn clock_since_epoch() -> (r: (u64, u32))
    ensures
        r.1 < 1000,
{
    let d = std::time::SystemTime::now().duration_since(std::time::UNIX_EPOCH).unwrap_or_default();
    (d.as_secs(), d.subsec_millis())
}

/// The current time of day as `HH:MM:SS.mmm`.
pub fn timestamp() -> (r: String)
    ensures
        exists|secs: u64, millis: u32| millis < 1000 && r@ == clock_text(secs, millis),
{
    let (secs, millis) = clock_since_epoch();
    format_clock(secs, millis)
}

} // verus!
