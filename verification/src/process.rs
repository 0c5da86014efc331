//! Process start times: which running processes an application's
//! executable names select, the earliest of their start times, and the
//! conversion of a Windows `FILETIME` to Unix time.

use vstd::prelude::*;
use crate::clock::UnixTime;
use crate::text::{ascii_lower_seq, eq_ignore_ascii_case};

verus! {

/// One running process as observed: its executable base name and, when
/// it could be read, its creation time.
#[derive(Debug, Clone)]
pub struct RunningProcess {
    /// Executable base name (e.g. `"fl64.exe"`).
    pub exe_name: String,
    /// Creation time, when readable.
    pub started: Option<UnixTime>,
}

/// Whether `name` equals one of `wanted`, ignoring ASCII case.
pub open spec fn wanted_name(wanted: Seq<&str>, name: Seq<char>) -> bool {
    exists|i: int| 0 <= i < wanted.len() && ascii_lower_seq(#[trigger] wanted[i]@) == ascii_lower_seq(name)
}

/// Whether `a` is earlier than or as early as `b`.
pub open spec fn not_later(a: UnixTime, b: UnixTime) -> bool {
    a.secs < b.secs || (a.secs == b.secs && a.nanos <= b.nanos)
}

/// Whether `r` is the earliest known start among the processes that
/// `wanted` selects (none when no selected process has a known start).
pub open spec fn is_earliest_start(
    wanted: Seq<&str>,
    procs: Seq<RunningProcess>,
    r: Option<UnixTime>,
) -> bool {
    match r {
        Some(t) => (exists|i: int|
            0 <= i < procs.len() && wanted_name(wanted, #[trigger] procs[i].exe_name@)
                && procs[i].started == Some(t)) && (forall|i: int|
            0 <= i < procs.len() && wanted_name(wanted, #[trigger] procs[i].exe_name@) ==> match procs[i].started {
                Some(s) => not_later(t, s),
                None => true,
            }),
        None => forall|i: int|
            0 <= i < procs.len() && wanted_name(wanted, #[trigger] procs[i].exe_name@)
                ==> procs[i].started is None,
    }
}

/// Whether `name` is one of `wanted`, ignoring ASCII case.
pub fn name_is_wanted(wanted: &[&str], name: &str) -> (r: bool)
    ensures
        r == wanted_name(wanted@, name@),
{
    let mut i: usize = 0;
    while i < wanted.len()
        invariant
            i <= wanted@.len(),
            forall|j: int|
                0 <= j < i ==> ascii_lower_seq(#[trigger] wanted@[j]@) != ascii_lower_seq(name@),
        decreases wanted@.len() - i,
    {
        if eq_ignore_ascii_case(name, wanted[i]) {
            return true;
        }
        i = i + 1;
    }
    false
}

/// The earlier of two times.
fn earlier(a: UnixTime, b: UnixTime) -> (r: UnixTime)
    ensures
        r == a || r == b,
        not_later(r, a) && not_later(r, b),
{
    if a.secs < b.secs || (a.secs == b.secs && a.nanos <= b.nanos) {
        a
    } else {
        b
    }
}

/// The earliest start time among the observed processes whose executable
/// name is one of `wanted` (ignoring ASCII case); none when no such
/// process has a known start.
pub fn earliest_start(wanted: &[&str], procs: &[RunningProcess]) -> (r: Option<UnixTime>)
    ensures
        is_earliest_start(wanted@, procs@, r),
{
    let mut best: Option<UnixTime> = None;
    let mut i: usize = 0;
    while i < procs.len()
        invariant
            i <= procs@.len(),
            is_earliest_start(wanted@, procs@.take(i as int), best),
        decreases procs@.len() - i,
    {
        let ghost pre = procs@.take(i as int);
        let ghost post = procs@.take(i + 1);
        assert(post =~= pre.push(procs@[i as int]));
        let p = &procs[i];
        if name_is_wanted(wanted, p.exe_name.as_str()) {
            match p.started {
                Some(s) => {
                    let nb = match best {
                        Some(b) => earlier(b, s),
                        None => s,
                    };
                    assert(is_earliest_start(wanted@, post, Some(nb))) by {
                        if best is Some && nb == best.unwrap() {
                            let k = choose|k: int|
                                0 <= k < pre.len() && wanted_name(wanted@, #[trigger] pre[k].exe_name@)
                                    && pre[k].started == best;
                            assert(post[k] == pre[k]);
                        } else {
                            assert(post[i as int] == procs@[i as int]);
                        }
                        assert forall|j: int|
                            0 <= j < post.len() && wanted_name(wanted@, #[trigger] post[j].exe_name@) implies match post[j].started {
                            Some(x) => not_later(nb, x),
                            None => true,
                        } by {
                            if j < i {
                                assert(post[j] == pre[j]);
                            }
                        }
                    }
                    best = Some(nb);
                },
                None => {
                    assert(is_earliest_start(wanted@, post, best)) by {
                        if best is Some {
                            let k = choose|k: int|
                                0 <= k < pre.len() && wanted_name(wanted@, #[trigger] pre[k].exe_name@)
                                    && pre[k].started == best;
                            assert(post[k] == pre[k]);
                        }
                        assert forall|j: int|
                            0 <= j < post.len() && wanted_name(wanted@, #[trigger] post[j].exe_name@) implies match post[j].started {
                            Some(x) => match best {
                                Some(b) => not_later(b, x),
                                None => true,
                            },
                            None => true,
                        } by {
                            if j < i {
                                assert(post[j] == pre[j]);
                            }
                        }
                    }
                },
            }
        } else {
            assert(is_earliest_start(wanted@, post, best)) by {
                if best is Some {
                    let k = choose|k: int|
                        0 <= k < pre.len() && wanted_name(wanted@, #[trigger] pre[k].exe_name@)
                            && pre[k].started == best;
                    assert(post[k] == pre[k]);
                }
                assert forall|j: int|
                    0 <= j < post.len() && wanted_name(wanted@, #[trigger] post[j].exe_name@) implies match post[j].started {
                    Some(x) => match best {
                        Some(b) => not_later(b, x),
                        None => true,
                    },
                    None => true,
                } by {
                    if j < i {
                        assert(post[j] == pre[j]);
                    }
                }
            }
        }
        i = i + 1;
    }
    assert(procs@.take(procs@.len() as int) =~= procs@);
    best
}

/// The start time of the earliest observed process that `exe_names`
/// selects (ignoring ASCII case); none when no selected process has a
/// known start.
pub fn process_start_time(exe_names: &[&str], procs: &[RunningProcess]) -> (r: Option<UnixTime>)
    ensures
        is_earliest_start(exe_names@, procs@, r),
{
    earliest_start(exe_names, procs)
}

/// The same start time as whole Unix seconds.
pub fn process_start_unix(exe_names: &[&str], procs: &[RunningProcess]) -> (r: Option<i64>)
    ensures
        exists|t: Option<UnixTime>|
            is_earliest_start(exe_names@, procs@, t) && r == match t {
                Some(x) => Some(x.spec_unix_secs()),
                None => None,
            },
{
    match process_start_time(exe_names, procs) {
        Some(t) => Some(t.unix_secs()),
        None => None,
    }
}

/// 100-nanosecond intervals from 1601-01-01 (the `FILETIME` epoch) to the
/// Unix epoch: 11,644,473,600 seconds.
pub const WINDOWS_TO_UNIX_EPOCH_100NS: u64 = 116_444_736_000_000_000;

/// The 100-nanosecond count a `FILETIME` holds.
pub open spec fn filetime_intervals(high: u32, low: u32) -> int {
    high * 0x1_0000_0000 + low
}

/// The Unix time of a `FILETIME`; none before the Unix epoch. Requires the
/// count past the epoch, in nanoseconds, to fit in 64 bits.
pub fn filetime_to_unix(high: u32, low: u32) -> (r: Option<UnixTime>)
    requires
        filetime_intervals(high, low) < WINDOWS_TO_UNIX_EPOCH_100NS || (filetime_intervals(
            high,
            low,
        ) - WINDOWS_TO_UNIX_EPOCH_100NS) * 100 <= u64::MAX,
    ensures
        match r {
            None => filetime_intervals(high, low) < WINDOWS_TO_UNIX_EPOCH_100NS,
            Some(t) => {
                let d = filetime_intervals(high, low) - WINDOWS_TO_UNIX_EPOCH_100NS;
                &&& d >= 0
                &&& t.secs == d / 10_000_000
                &&& t.nanos == (d % 10_000_000) * 100
            },
        },
{
    let intervals: u64 = (high as u64) * 0x1_0000_0000u64 + (low as u64);
    assert(intervals == filetime_intervals(high, low)) by (nonlinear_arith)
        requires
            intervals == (high as u64) * 0x1_0000_0000u64 + (low as u64),
    ;
    if intervals < WINDOWS_TO_UNIX_EPOCH_100NS {
        return None;
    }
    let unix_intervals: u64 = intervals - WINDOWS_TO_UNIX_EPOCH_100NS;
    let secs: u64 = unix_intervals / 10_000_000;
    let rem: u64 = unix_intervals % 10_000_000;
    let nanos: u32 = (rem * 100) as u32;
    Some(UnixTime { secs, nanos })
}

} // verus!
