//! Resident memory of the supervised services and the size of the home.
use vstd::prelude::*;

verus! {

/// Summed resident memory of the supervised services, and how many pids
/// actually produced a figure (not how many services are running).
#[derive(Debug, Clone)]
pub struct ServicesMemoryDto {
    pub bytes: u64,
    pub process_count: u32,
}

/// Total bytes under the home directory.
#[derive(Debug, Clone)]
pub struct HomeUsageDto {
    pub bytes: u64,
}

/// The total of the readings that produced a figure.
pub open spec fn present_total(readings: Seq<Option<u64>>) -> int
    decreases readings.len(),
{
    if readings.len() == 0 {
        0
    } else {
        present_total(readings.drop_last()) + match readings.last() {
            Some(b) => b as int,
            None => 0,
        }
    }
}

/// How many readings produced a figure.
pub open spec fn present_count(readings: Seq<Option<u64>>) -> int
    decreases readings.len(),
{
    if readings.len() == 0 {
        0
    } else {
        present_count(readings.drop_last()) + if readings.last() is Some {
            1int
        } else {
            0
        }
    }
}

/// `n`, or `cap` when `n` is larger.
pub open spec fn capped(n: int, cap: int) -> int {
    if n <= cap {
        n
    } else {
        cap
    }
}

proof fn lemma_present_nonnegative(readings: Seq<Option<u64>>)
    ensures
        present_total(readings) >= 0,
        present_count(readings) >= 0,
    decreases readings.len(),
{
    if readings.len() > 0 {
        lemma_present_nonnegative(readings.drop_last());
    }
}

/// Sums the readings that produced a figure, and counts them. A `None` (a pid
/// that exited between the snapshot and the read) drops out of the sum and
/// the count together, so the figure and its "N processes" label agree. Both
/// saturate rather than wrap.
pub fn sum_readings(readings: &[Option<u64>]) -> (r: (u64, u32))
    ensures
        r.0 == capped(present_total(readings@), u64::MAX as int),
        r.1 == capped(present_count(readings@), u32::MAX as int),
{
    let mut bytes: u64 = 0;
    let mut count: u32 = 0;
    let mut k: usize = 0;
    while k < readings.len()
        invariant
            0 <= k <= readings@.len(),
            bytes == capped(present_total(readings@.take(k as int)), u64::MAX as int),
            count == capped(present_count(readings@.take(k as int)), u32::MAX as int),
        decreases readings.len() - k,
    {
        let ghost prefix = readings@.take(k as int);
        assert(readings@.take(k + 1).drop_last() =~= prefix);
        proof {
            lemma_present_nonnegative(prefix);
        }
        match readings[k] {
            Some(b) => {
                bytes = bytes.saturating_add(b);
                count = count.saturating_add(1);
            },
            None => {},
        }
        k += 1;
    }
    assert(readings@.take(readings@.len() as int) =~= readings@);
    (bytes, count)
}

/// `readings` are the answers `read` gave, in order, for the first
/// `readings.len()` pids: each one a figure or a `None`, none an error.
pub open spec fn read_in_order<E, F: Fn(u32) -> Result<Option<u64>, E>>(
    read: F,
    pids: Seq<u32>,
    readings: Seq<Option<u64>>,
) -> bool {
    &&& readings.len() <= pids.len()
    &&& forall|i: int|
        0 <= i < readings.len() ==> call_ensures(read, (pids[i],), Ok(#[trigger] readings[i]))
}

/// Reads one resident-memory figure per pid, in order, stopping the whole
/// collection at the first failed read: a partial sum is never presented as
/// if it were complete. The error returned is the first failing pid's: every
/// pid before it was read without error.
pub fn collect_readings<E, F: Fn(u32) -> Result<Option<u64>, E>>(pids: &[u32], read: F) -> (r: Result<
    Vec<Option<u64>>,
    E,
>)
    requires
        forall|i: int| 0 <= i < pids@.len() ==> call_requires(read, (pids@[i],)),
    ensures
        match r {
            Ok(v) => v@.len() == pids@.len() && read_in_order(read, pids@, v@),
            Err(e) => exists|before: Seq<Option<u64>>|
                #[trigger] read_in_order(read, pids@, before) && before.len() < pids@.len()
                    && call_ensures(read, (pids@[before.len() as int],), Err(e)),
        },
{
    let mut out: Vec<Option<u64>> = Vec::new();
    let mut k: usize = 0;
    while k < pids.len()
        invariant
            0 <= k <= pids@.len(),
            forall|i: int| 0 <= i < pids@.len() ==> call_requires(read, (pids@[i],)),
            out@.len() == k,
            forall|i: int| 0 <= i < k ==> call_ensures(read, (pids@[i],), Ok(#[trigger] out@[i])),
        decreases pids.len() - k,
    {
        let answer = read(pids[k]);
        assert(call_ensures(read, (pids@[k as int],), answer));
        match answer {
            Ok(reading) => {
                out.push(reading);
            },
            Err(e) => {
                let r: Result<Vec<Option<u64>>, E> = Err(e);
                assert(0 <= k < pids@.len() && call_ensures(read, (pids@[k as int],), Err(e)));
                assert(read_in_order(read, pids@, out@));
                assert(r is Err);
                assert(r->Err_0 == e);
                return r;
            },
        }
        k += 1;
    }
    Ok(out)
}

} // verus!
