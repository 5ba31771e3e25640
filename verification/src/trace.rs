//! Traces: fading markers left at screen cells an entity recently
//! occupied.  A trace set holds at most one trace per cell; a trace's
//! rendered color dims with its age and the trace is dropped once its
//! age exceeds the configured lifetime.

use vstd::arithmetic::div_mod::{lemma_div_is_ordered, lemma_div_pos_is_pos};
use vstd::prelude::*;

verus! {

/// A screen-space coordinate, 1-based like the terminal's own
/// row/column convention.
#[derive(Clone, Copy, Debug, PartialEq, Eq, Structural)]
pub struct Point {
    pub x: i32,
    pub y: i32,
}

/// A fading marker: a screen cell and the instant (in milliseconds on
/// the caller's clock) it was last touched.
#[derive(Clone, Copy, Debug, PartialEq, Eq, Structural)]
pub struct Trace {
    pub p: Point,
    pub when_ms: u64,
}

/// The first index of `ts` holding a trace at `(x, y)`, or `-1`.
pub open spec fn trace_pos_index(ts: Seq<Trace>, x: i32, y: i32) -> int
    decreases ts.len(),
{
    if ts.len() == 0 {
        -1
    } else if ts[0].p.x == x && ts[0].p.y == y {
        0
    } else {
        let r = trace_pos_index(ts.drop_first(), x, y);
        if r < 0 {
            -1
        } else {
            r + 1
        }
    }
}

/// What refreshing cell `(x, y)` at instant `now_ms` does to a trace
/// set: the first trace already at that cell is re-timestamped, or a
/// fresh trace is appended when the cell has none.
pub open spec fn add_trace_spec(ts: Seq<Trace>, now_ms: u64, x: i32, y: i32) -> Seq<Trace> {
    let i = trace_pos_index(ts, x, y);
    if i >= 0 {
        ts.update(i, Trace { p: Point { x, y }, when_ms: now_ms })
    } else {
        ts.push(Trace { p: Point { x, y }, when_ms: now_ms })
    }
}

/// `trace_pos_index` really is the first match: it is a valid index of
/// a trace at `(x, y)` preceded by none, or `-1` when no index matches.
pub proof fn lemma_trace_pos_index(ts: Seq<Trace>, x: i32, y: i32)
    ensures
        trace_pos_index(ts, x, y) >= 0 ==> {
            let i = trace_pos_index(ts, x, y);
            &&& i < ts.len()
            &&& ts[i].p.x == x && ts[i].p.y == y
            &&& forall|j: int| 0 <= j < i ==> !(ts[j].p.x == x && ts[j].p.y == y)
        },
        trace_pos_index(ts, x, y) < 0 ==> forall|j: int|
            0 <= j < ts.len() ==> !(ts[j].p.x == x && ts[j].p.y == y),
    decreases ts.len(),
{
    if ts.len() > 0 {
        let rest = ts.drop_first();
        lemma_trace_pos_index(rest, x, y);
        if !(ts[0].p.x == x && ts[0].p.y == y) {
            let r = trace_pos_index(rest, x, y);
            if r >= 0 {
                assert(ts[r + 1] == rest[r]);
                assert forall|j: int| 0 <= j < r + 1 implies !(ts[j].p.x == x && ts[j].p.y
                    == y) by {
                    if j >= 1 {
                        assert(ts[j] == rest[j - 1]);
                    }
                }
            } else {
                assert forall|j: int| 0 <= j < ts.len() implies !(ts[j].p.x == x && ts[j].p.y
                    == y) by {
                    if j >= 1 {
                        assert(ts[j] == rest[j - 1]);
                    }
                }
            }
        }
    }
}

/// Records or refreshes a trace at `(x, y)`: the first trace already at
/// that cell gets the new timestamp, every other trace is untouched,
/// and a cell with no trace gains exactly one.
pub fn add_trace(traces: &mut Vec<Trace>, now_ms: u64, x: i32, y: i32)
    ensures
        final(traces)@ == add_trace_spec(old(traces)@, now_ms, x, y),
{
    proof {
        lemma_trace_pos_index(traces@, x, y);
    }
    let mut i: usize = 0;
    while i < traces.len()
        invariant
            i <= traces@.len(),
            traces@ == old(traces)@,
            forall|j: int| 0 <= j < i ==> !(traces@[j].p.x == x && traces@[j].p.y == y),
        decreases traces@.len() - i,
    {
        if traces[i].p.x == x && traces[i].p.y == y {
            proof {
                lemma_trace_pos_index(traces@, x, y);
                assert(trace_pos_index(traces@, x, y) == i) by {
                    if trace_pos_index(traces@, x, y) < i {
                        assert(false);
                    }
                    if trace_pos_index(traces@, x, y) > i {
                        assert(false);
                    }
                };
            }
            let refreshed = Trace { p: Point { x, y }, when_ms: now_ms };
            traces.set(i, refreshed);
            return ;
        }
        i = i + 1;
    }
    traces.push(Trace { p: Point { x, y }, when_ms: now_ms });
}

/// Whether a trace is still live at `now_ms`: its age has not strictly
/// exceeded `life_ms`.  A timestamp from the future (a clock that went
/// backwards) counts as live.
pub open spec fn trace_live(t: Trace, now_ms: u64, life_ms: u64) -> bool {
    t.when_ms > now_ms || now_ms - t.when_ms <= life_ms
}

/// The rendered color index for a live trace of age `age` against
/// lifetime `life`: 255 (bright) at age zero, dimming linearly to 232
/// at the lifetime boundary.  The interpolation rounds the rendered
/// index down, toward the dimmer value — the dimming step
/// `(age * 23) / life` is taken with its ceiling.
pub open spec fn fade_index(age: int, life: int) -> int {
    255 - (age * 23 + life - 1) / life
}

/// The rendered color index of a live trace, as an 8-bit color.
pub fn trace_color(age_ms: u64, life_ms: u64) -> (c: u8)
    requires
        life_ms >= 1,
        age_ms <= life_ms,
    ensures
        c as int == fade_index(age_ms as int, life_ms as int),
        232 <= c <= 255,
{
    let dim: u128 = ((age_ms as u128) * 23 + (life_ms as u128) - 1) / (life_ms as u128);
    proof {
        let a = age_ms as int;
        let l = life_ms as int;
        lemma_div_pos_is_pos(a * 23 + l - 1, l);
        lemma_div_is_ordered(a * 23 + l - 1, l * 24 - 1, l);
        assert(a * 23 + l - 1 <= l * 24 - 1) by (nonlinear_arith)
            requires
                a <= l,
        ;
        assert((l * 24 - 1) / l == 23) by (nonlinear_arith)
            requires
                l >= 1,
        ;
    }
    255 - dim as u8
}

/// A trace's rendered color index never brightens as it ages, and
/// strictly dims once the age has advanced by at least `life / 23`
/// more milliseconds (a full color step); smaller advances can round
/// to the same of the 24 available indices.  At ages beyond `life` the
/// trace is no longer rendered at all (`trace_live` is false).
pub proof fn lemma_trace_fade_monotonic(life: int, age1: int, age2: int)
    requires
        life >= 1,
        0 <= age1 <= life,
        0 <= age2 <= life,
        age1 < age2,
    ensures
        fade_index(age2, life) <= fade_index(age1, life),
        (age2 - age1) * 23 >= life ==> fade_index(age2, life) < fade_index(age1, life),
{
    assert(age1 * 23 <= age2 * 23) by (nonlinear_arith)
        requires
            age1 < age2,
    ;
    lemma_div_is_ordered(age1 * 23 + life - 1, age2 * 23 + life - 1, life);
    if (age2 - age1) * 23 >= life {
        assert(age2 * 23 >= age1 * 23 + life) by (nonlinear_arith)
            requires
                (age2 - age1) * 23 >= life,
        ;
        lemma_div_is_ordered(age1 * 23 + life - 1 + life, age2 * 23 + life - 1, life);
        assert((age1 * 23 + life - 1 + life) / life == (age1 * 23 + life - 1) / life + 1) by {
            lemma_div_multiples_vanish_in_sum(age1 * 23 + life - 1, life);
        };
    }
}

/// Adding one multiple of the divisor to a dividend raises the
/// quotient by exactly one.
proof fn lemma_div_multiples_vanish_in_sum(x: int, d: int)
    requires
        d >= 1,
    ensures
        (x + d) / d == x / d + 1,
{
    assert((x + d) / d == x / d + 1) by (nonlinear_arith)
        requires
            d >= 1,
    ;
}

} // verus!
