//! Pure statistics over the recorded solves: average, fastest, slowest,
//! and projected totals. All results are exact integer arithmetic on
//! millisecond durations; averages round down.

use vstd::prelude::*;
use vstd::arithmetic::div_mod::{lemma_div_is_ordered, lemma_div_multiples_vanish};
use crate::session::{App, Solve, MARATHON_SOLVES};

verus! {

/// Sum of the recorded durations, in milliseconds.
pub open spec fn sum_millis(s: Seq<Solve>) -> int
    decreases s.len(),
{
    if s.len() == 0 {
        0
    } else {
        sum_millis(s.drop_last()) + s.last().time_millis
    }
}

/// Shortest recorded duration; meaningful only on a non-empty sequence.
pub open spec fn min_millis(s: Seq<Solve>) -> int
    recommends
        s.len() > 0,
    decreases s.len(),
{
    if s.len() <= 1 {
        s[0].time_millis as int
    } else {
        let m = min_millis(s.drop_last());
        if s.last().time_millis < m {
            s.last().time_millis as int
        } else {
            m
        }
    }
}

/// Longest recorded duration; meaningful only on a non-empty sequence.
pub open spec fn max_millis(s: Seq<Solve>) -> int
    recommends
        s.len() > 0,
    decreases s.len(),
{
    if s.len() <= 1 {
        s[0].time_millis as int
    } else {
        let m = max_millis(s.drop_last());
        if s.last().time_millis > m {
            s.last().time_millis as int
        } else {
            m
        }
    }
}

/// Mean duration, rounded down; meaningful only on a non-empty sequence.
pub open spec fn average_millis(s: Seq<Solve>) -> int
    recommends
        s.len() > 0,
{
    sum_millis(s) / s.len() as int
}

/// Mean solve duration of the session, or `None` before any solve is
/// recorded.
pub fn calculate_average(app: &App) -> (r: Option<u64>)
    requires
        app.wf(),
    ensures
        match r {
            Some(a) => app.counter != 0 && a as int == average_millis(app.solves@),
            None => app.counter == 0,
        },
{
    if app.counter == 0 {
        return None;
    }
    let mut sum: u128 = 0;
    let mut i: usize = 0;
    while i < app.solves.len()
        invariant
            app.wf(),
            i <= app.solves@.len(),
            app.solves@.len() <= 255,
            sum == sum_millis(app.solves@.take(i as int)),
            sum <= i as int * 0xFFFF_FFFF_FFFF_FFFFu64 as int,
        decreases app.solves@.len() - i,
    {
        proof {
            assert(app.solves@.take(i + 1).drop_last() =~= app.solves@.take(i as int));
            assert(app.solves@.take(i + 1).last() == app.solves@[i as int]);
        }
        sum = sum + app.solves[i].time_millis as u128;
        i = i + 1;
    }
    proof {
        assert(app.solves@.take(app.solves@.len() as int) =~= app.solves@);
        let cnt = app.counter as int;
        let m = 0xFFFF_FFFF_FFFF_FFFFu64 as int;
        assert(sum <= cnt * m);
        lemma_div_is_ordered(sum as int, cnt * m, cnt);
        lemma_div_multiples_vanish(m, cnt);
        assert(sum as int / cnt <= m);
    }
    let avg = sum / (app.counter as u128);
    Some(avg as u64)
}

/// Fastest solve of the session, or `None` before any solve is recorded.
pub fn calculate_fastest(app: &App) -> (r: Option<u64>)
    requires
        app.wf(),
    ensures
        match r {
            Some(f) => app.counter != 0 && f as int == min_millis(app.solves@),
            None => app.counter == 0,
        },
{
    if app.solves.len() == 0 {
        return None;
    }
    let mut best: u64 = app.solves[0].time_millis;
    let mut i: usize = 1;
    while i < app.solves.len()
        invariant
            app.wf(),
            1 <= i <= app.solves@.len(),
            best as int == min_millis(app.solves@.take(i as int)),
        decreases app.solves@.len() - i,
    {
        proof {
            assert(app.solves@.take(i + 1).drop_last() =~= app.solves@.take(i as int));
            assert(app.solves@.take(i + 1).last() == app.solves@[i as int]);
        }
        let t = app.solves[i].time_millis;
        if t < best {
            best = t;
        }
        i = i + 1;
    }
    proof {
        assert(app.solves@.take(app.solves@.len() as int) =~= app.solves@);
    }
    Some(best)
}

/// Slowest solve of the session, or `None` before any solve is recorded.
pub fn calculate_slowest(app: &App) -> (r: Option<u64>)
    requires
        app.wf(),
    ensures
        match r {
            Some(sl) => app.counter != 0 && sl as int == max_millis(app.solves@),
            None => app.counter == 0,
        },
{
    if app.solves.len() == 0 {
        return None;
    }
    let mut worst: u64 = app.solves[0].time_millis;
    let mut i: usize = 1;
    while i < app.solves.len()
        invariant
            app.wf(),
            1 <= i <= app.solves@.len(),
            worst as int == max_millis(app.solves@.take(i as int)),
        decreases app.solves@.len() - i,
    {
        proof {
            assert(app.solves@.take(i + 1).drop_last() =~= app.solves@.take(i as int));
            assert(app.solves@.take(i + 1).last() == app.solves@[i as int]);
        }
        let t = app.solves[i].time_millis;
        if t > worst {
            worst = t;
        }
        i = i + 1;
    }
    proof {
        assert(app.solves@.take(app.solves@.len() as int) =~= app.solves@);
    }
    Some(worst)
}

/// Projected duration of the whole session at the current pace: the
/// average so far times the target count. `None` before any solve.
pub fn predict_total_time(app: &App) -> (r: Option<u128>)
    requires
        app.wf(),
    ensures
        match r {
            Some(p) => app.counter != 0 && p == average_millis(app.solves@) * app.target,
            None => app.counter == 0,
        },
{
    let avg = calculate_average(app);
    match avg {
        None => None,
        Some(a) => {
            proof {
                assert(a as int * app.target as int <= 0xFFFF_FFFF_FFFF_FFFFu64 as int * 255)
                    by (nonlinear_arith)
                    requires
                        0 <= a as int <= 0xFFFF_FFFF_FFFF_FFFFu64 as int,
                        0 <= app.target as int <= 255,
                ;
            }
            Some((a as u128) * (app.target as u128))
        },
    }
}

/// Projected duration of a standard marathon (`MARATHON_SOLVES` solves)
/// at the current pace. Only meaningful once a solve exists.
pub fn predict_marathon_time(app: &App) -> (r: u128)
    requires
        app.wf(),
        app.counter != 0,
    ensures
        r == average_millis(app.solves@) * MARATHON_SOLVES,
{
    let avg = calculate_average(app);
    match avg {
        None => {
            proof {
                assert(false);
            }
            0
        },
        Some(a) => {
            proof {
                assert(a as int * MARATHON_SOLVES as int <= 0xFFFF_FFFF_FFFF_FFFFu64 as int * 255)
                    by (nonlinear_arith)
                    requires
                        0 <= a as int <= 0xFFFF_FFFF_FFFF_FFFFu64 as int,
                ;
            }
            (a as u128) * (MARATHON_SOLVES as u128)
        },
    }
}

} // verus!
