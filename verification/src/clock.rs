//! The wall clock, as the millisecond stamps the log events carry.
use vstd::prelude::*;

verus! {

/// A reading of the wall clock.
#[verifier::external_type_specification]
#[verifier::external_body]
pub struct ExSystemTime(std::time::SystemTime);

/// `SystemTime::now`: the wall clock's current reading. Nothing is claimed of
/// which reading; two calls may give anything.
#[verifier::external_body]
fn system_now() -> (t: std::time::SystemTime)
{
    std::time::SystemTime::now()
}

/// `SystemTime::duration_since(UNIX_EPOCH)`: how long after the Unix epoch
/// `t` lies, or `None` when `t` lies before it. The duration is opaque here,
/// so nothing more is claimed of it.
#[verifier::external_body]
fn since_epoch(t: std::time::SystemTime) -> (d: Option<std::time::Duration>)
{
    t.duration_since(std::time::UNIX_EPOCH).ok()
}

/// `Duration::as_millis`: the whole milliseconds in `d`. The duration is
/// opaque here, so nothing is claimed of the count.
#[verifier::external_body]
fn whole_millis(d: std::time::Duration) -> (ms: u128)
{
    d.as_millis()
}

/// The stamp for a clock reading `elapsed_ms` milliseconds after the Unix
/// epoch: that count, cut to its low 64 bits, or `0` for a clock set before
/// the epoch (`None`).
pub fn millis_stamp(elapsed_ms: Option<u128>) -> (r: u64)
    ensures
        r == match elapsed_ms {
            Some(ms) => ms as u64,
            None => 0u64,
        },
{
    match elapsed_ms {
        Some(ms) => ms as u64,
        None => 0,
    }
}

/// Milliseconds since the Unix epoch by the wall clock, `0` when the clock
/// reads earlier than the epoch: see [`millis_stamp`].
pub fn now_ms() -> (r: u64) {
    let elapsed = match since_epoch(system_now()) {
        Some(d) => Some(whole_millis(d)),
        None => None,
    };
    millis_stamp(elapsed)
}

} // verus!
