//! One frame of the rendering loop, over already-computed screen
//! coordinates: erase the previous frame's markers and labels, or draw
//! the frame's chrome, fading traces and entity labels.  The contracts
//! give the exact bytes emitted and the exact new trace set.

use vstd::prelude::*;
use vstd::utf8::encode_utf8;

use crate::canvas::{
    box_seq, fg8_seq, glyph_run, moveto_seq, resolve, sgr_reset_seq, ANSITerm,
};
use crate::trace::{add_trace, add_trace_spec, fade_index, trace_color, trace_live, Point, Trace};
use crate::WinSize;

verus! {

/// An entity mapped into screen space: its cell, its color index and
/// its printed label.
pub struct ScreenObject {
    pub p: Point,
    pub colour: u8,
    pub name: String,
}

/// Whether a cell lies within the canvas's interior bounds.
pub open spec fn in_bounds(p: Point, xmin: i32, xmax: i32, ymin: i32, ymax: i32) -> bool {
    !(p.x < xmin || p.y < ymin || p.x > xmax || p.y > ymax)
}

/// A blank written over one cell: a cursor move and one space.
pub open spec fn blank_seq(p: Point, sz: WinSize) -> Seq<u8> {
    moveto_seq(resolve(p.x as int, sz.cols as int), resolve(p.y as int, sz.rows as int))
        + seq![0x20u8]
}

/// The erase pass over a trace set: each expired trace is blanked, in
/// order; live traces emit nothing.
pub open spec fn clear_traces_seq(ts: Seq<Trace>, now_ms: u64, life_ms: u64, sz: WinSize) -> Seq<
    u8,
>
    decreases ts.len(),
{
    if ts.len() == 0 {
        Seq::empty()
    } else {
        clear_traces_seq(ts.drop_last(), now_ms, life_ms, sz) + if !trace_live(
            ts.last(),
            now_ms,
            life_ms,
        ) {
            blank_seq(ts.last().p, sz)
        } else {
            Seq::<u8>::empty()
        }
    }
}

/// The traces that survive the erase pass: exactly the live ones, in
/// their original order.
pub open spec fn keep_live(ts: Seq<Trace>, now_ms: u64, life_ms: u64) -> Seq<Trace>
    decreases ts.len(),
{
    if ts.len() == 0 {
        Seq::empty()
    } else {
        keep_live(ts.drop_last(), now_ms, life_ms) + if trace_live(ts.last(), now_ms, life_ms) {
            seq![ts.last()]
        } else {
            Seq::<Trace>::empty()
        }
    }
}

/// The fading dot drawn for one trace: a cursor move, the interpolated
/// 256-color foreground, and a middle dot (UTF-8 `0xc2 0xb7`).  An
/// expired trace, or one stamped in the future, draws nothing.
pub open spec fn render_trace_seq(t: Trace, now_ms: u64, life_ms: u64, sz: WinSize) -> Seq<u8> {
    if t.when_ms <= now_ms && now_ms - t.when_ms <= life_ms {
        moveto_seq(resolve(t.p.x as int, sz.cols as int), resolve(t.p.y as int, sz.rows as int))
            + fg8_seq(fade_index((now_ms - t.when_ms) as int, life_ms as int) as u8)
            + seq![0xc2u8, 0xb7u8]
    } else {
        Seq::empty()
    }
}

/// The draw pass over a trace set, in order.
pub open spec fn render_traces_seq(ts: Seq<Trace>, now_ms: u64, life_ms: u64, sz: WinSize) -> Seq<
    u8,
>
    decreases ts.len(),
{
    if ts.len() == 0 {
        Seq::empty()
    } else {
        render_traces_seq(ts.drop_last(), now_ms, life_ms, sz) + render_trace_seq(
            ts.last(),
            now_ms,
            life_ms,
            sz,
        )
    }
}

/// The erase pass over one entity: a cursor move and one space per
/// byte of its label; an entity outside the bounds emits nothing.
pub open spec fn clear_obj_seq(
    o: ScreenObject,
    sz: WinSize,
    xmin: i32,
    xmax: i32,
    ymin: i32,
    ymax: i32,
) -> Seq<u8> {
    if in_bounds(o.p, xmin, xmax, ymin, ymax) {
        moveto_seq(resolve(o.p.x as int, sz.cols as int), resolve(o.p.y as int, sz.rows as int))
            + glyph_run(0x20, encode_utf8(o.name@).len() as int)
    } else {
        Seq::empty()
    }
}

/// The erase pass over all entities, in order.
pub open spec fn clear_objs_seq(
    os: Seq<ScreenObject>,
    sz: WinSize,
    xmin: i32,
    xmax: i32,
    ymin: i32,
    ymax: i32,
) -> Seq<u8>
    decreases os.len(),
{
    if os.len() == 0 {
        Seq::empty()
    } else {
        clear_objs_seq(os.drop_last(), sz, xmin, xmax, ymin, ymax) + clear_obj_seq(
            os.last(),
            sz,
            xmin,
            xmax,
            ymin,
            ymax,
        )
    }
}

/// The draw pass over one entity: a cursor move, its color, and its
/// label's bytes; an entity outside the bounds emits nothing.
pub open spec fn render_obj_seq(
    o: ScreenObject,
    sz: WinSize,
    xmin: i32,
    xmax: i32,
    ymin: i32,
    ymax: i32,
) -> Seq<u8> {
    if in_bounds(o.p, xmin, xmax, ymin, ymax) {
        moveto_seq(resolve(o.p.x as int, sz.cols as int), resolve(o.p.y as int, sz.rows as int))
            + fg8_seq(o.colour) + encode_utf8(o.name@)
    } else {
        Seq::empty()
    }
}

/// The draw pass over all entities, in order.
pub open spec fn render_objs_seq(
    os: Seq<ScreenObject>,
    sz: WinSize,
    xmin: i32,
    xmax: i32,
    ymin: i32,
    ymax: i32,
) -> Seq<u8>
    decreases os.len(),
{
    if os.len() == 0 {
        Seq::empty()
    } else {
        render_objs_seq(os.drop_last(), sz, xmin, xmax, ymin, ymax) + render_obj_seq(
            os.last(),
            sz,
            xmin,
            xmax,
            ymin,
            ymax,
        )
    }
}

/// The trace set after the draw pass has recorded every in-bounds
/// entity's cell, in order.
pub open spec fn add_traces_spec(
    ts: Seq<Trace>,
    os: Seq<ScreenObject>,
    now_ms: u64,
    xmin: i32,
    xmax: i32,
    ymin: i32,
    ymax: i32,
) -> Seq<Trace>
    decreases os.len(),
{
    if os.len() == 0 {
        ts
    } else {
        let prior = add_traces_spec(ts, os.drop_last(), now_ms, xmin, xmax, ymin, ymax);
        if in_bounds(os.last().p, xmin, xmax, ymin, ymax) {
            add_trace_spec(prior, now_ms, os.last().p.x, os.last().p.y)
        } else {
            prior
        }
    }
}

/// Division by a positive divisor that rounds toward zero, as the
/// signed screen-coordinate arithmetic does.
pub open spec fn tdiv(a: int, b: int) -> int {
    if a >= 0 {
        a / b
    } else {
        -((-a) / b)
    }
}

/// The banner written over the top edge of the frame.
pub open spec fn title_seq() -> Seq<u8> {
    seq![
        0x20u8, 0x20u8, 0x53u8, 0x20u8, 0x50u8, 0x20u8, 0x41u8, 0x20u8, 0x43u8, 0x20u8, 0x45u8,
        0x20u8, 0x20u8,
    ]
}

/// The frame's chrome: an attribute reset, the border box one cell
/// outside the interior bounds, and the centred banner on the top edge.
pub open spec fn chrome_seq(
    sz: WinSize,
    c: int,
    xmin: int,
    xmax: int,
    ymin: int,
    ymax: int,
) -> Seq<u8> {
    sgr_reset_seq() + box_seq(xmin - 1, ymin - 1, xmax + 1, ymax + 1, sz, c) + moveto_seq(
        resolve(xmin - 1 + tdiv(xmax - xmin, 2) - 5, sz.cols as int),
        resolve(ymin - 1, sz.rows as int),
    ) + title_seq()
}

/// The erase pass: blanks and drops every expired trace, then blanks
/// every in-bounds entity label, with an attribute reset after each
/// sweep.
fn clear_pass(
    term: &mut ANSITerm,
    traces: &mut Vec<Trace>,
    objs: &Vec<ScreenObject>,
    now_ms: u64,
    life_ms: u64,
    xmin: i32,
    xmax: i32,
    ymin: i32,
    ymax: i32,
)
    ensures
        final(term).emitted() == old(term).emitted() + clear_traces_seq(
            old(traces)@,
            now_ms,
            life_ms,
            old(term).dims(),
        ) + sgr_reset_seq() + clear_objs_seq(objs@, old(term).dims(), xmin, xmax, ymin, ymax)
            + sgr_reset_seq(),
        final(traces)@ == keep_live(old(traces)@, now_ms, life_ms),
        final(term).nesting() == old(term).nesting(),
        final(term).dims() == old(term).dims(),
{
    let ghost pre = term.emitted();
    let ghost sz = term.dims();
    let mut sp: Vec<u8> = Vec::new();
    sp.push(0x20);
    assert(sp@ =~= seq![0x20u8]);

    let mut kept: Vec<Trace> = Vec::new();
    let mut i: usize = 0;
    while i < traces.len()
        invariant
            i <= traces@.len(),
            traces@ == old(traces)@,
            sp@ == seq![0x20u8],
            term.emitted() == pre + clear_traces_seq(
                traces@.take(i as int),
                now_ms,
                life_ms,
                sz,
            ),
            kept@ == keep_live(traces@.take(i as int), now_ms, life_ms),
            term.nesting() == old(term).nesting(),
            term.dims() == sz,
            sz == old(term).dims(),
        decreases traces@.len() - i,
    {
        let t = traces[i];
        assert(traces@.take(i as int + 1).drop_last() =~= traces@.take(i as int));
        assert(traces@.take(i as int + 1).last() == traces@[i as int]);
        if t.when_ms <= now_ms && now_ms - t.when_ms > life_ms {
            term.moveto(t.p.x, t.p.y);
            term.writeb(sp.as_slice());
            assert(term.emitted() =~= pre + clear_traces_seq(
                traces@.take(i as int + 1),
                now_ms,
                life_ms,
                sz,
            ));
            assert(kept@ =~= keep_live(traces@.take(i as int + 1), now_ms, life_ms));
        } else {
            kept.push(t);
            assert(term.emitted() =~= pre + clear_traces_seq(
                traces@.take(i as int + 1),
                now_ms,
                life_ms,
                sz,
            ));
            assert(kept@ =~= keep_live(traces@.take(i as int + 1), now_ms, life_ms));
        }
        i = i + 1;
    }
    assert(traces@.take(traces@.len() as int) =~= traces@);
    core::mem::swap(traces, &mut kept);
    term.reset();

    let ghost mid = pre + clear_traces_seq(old(traces)@, now_ms, life_ms, sz) + sgr_reset_seq();
    assert(term.emitted() == mid);
    let mut k: usize = 0;
    while k < objs.len()
        invariant
            k <= objs@.len(),
            sp@ == seq![0x20u8],
            term.emitted() == mid + clear_objs_seq(objs@.take(k as int), sz, xmin, xmax, ymin,
                ymax),
            term.nesting() == old(term).nesting(),
            term.dims() == sz,
            traces@ == keep_live(old(traces)@, now_ms, life_ms),
        decreases objs@.len() - k,
    {
        let o = &objs[k];
        assert(objs@.take(k as int + 1).drop_last() =~= objs@.take(k as int));
        assert(objs@.take(k as int + 1).last() == objs@[k as int]);
        if !(o.p.x < xmin || o.p.y < ymin || o.p.x > xmax || o.p.y > ymax) {
            term.moveto(o.p.x, o.p.y);
            let ghost at_cell = term.emitted();
            let nb: &[u8] = o.name.as_str().as_bytes();
            let n: usize = nb.len();
            let mut j: usize = 0;
            while j < n
                invariant
                    j <= n,
                    sp@ == seq![0x20u8],
                    term.emitted() == at_cell + glyph_run(0x20, j as int),
                    term.nesting() == old(term).nesting(),
                    term.dims() == sz,
                decreases n - j,
            {
                term.writeb(sp.as_slice());
                assert(term.emitted() =~= at_cell + glyph_run(0x20, j as int + 1));
                j = j + 1;
            }
            assert(n as int == encode_utf8(o.name@).len() as int);
            assert(term.emitted() =~= mid + clear_objs_seq(
                objs@.take(k as int + 1),
                sz,
                xmin,
                xmax,
                ymin,
                ymax,
            ));
        } else {
            assert(term.emitted() =~= mid + clear_objs_seq(
                objs@.take(k as int + 1),
                sz,
                xmin,
                xmax,
                ymin,
                ymax,
            ));
        }
        k = k + 1;
    }
    assert(objs@.take(objs@.len() as int) =~= objs@);
    term.reset();
    assert(term.emitted() =~= pre + clear_traces_seq(old(traces)@, now_ms, life_ms, sz)
        + sgr_reset_seq() + clear_objs_seq(objs@, sz, xmin, xmax, ymin, ymax) + sgr_reset_seq());
}

/// The draw pass: the frame's chrome, a fading dot per live trace, and
/// each in-bounds entity's label, recording its cell as a trace.
#[verifier::rlimit(100)]
fn render_pass(
    term: &mut ANSITerm,
    traces: &mut Vec<Trace>,
    objs: &Vec<ScreenObject>,
    now_ms: u64,
    life_ms: u64,
    xmin: i32,
    xmax: i32,
    ymin: i32,
    ymax: i32,
)
    requires
        life_ms >= 1,
        old(term).nesting() < u32::MAX - 1,
        xmin as int - 6 >= i32::MIN,
        xmax as int - 6 >= i32::MIN,
        ymin as int - 1 >= i32::MIN,
        xmax as int + 1 <= i32::MAX,
        ymax as int + 1 <= i32::MAX,
        i32::MIN <= xmax as int - xmin as int <= i32::MAX,
    ensures
        final(term).emitted() == old(term).emitted() + chrome_seq(
            old(term).dims(),
            old(term).nesting() as int,
            xmin as int,
            xmax as int,
            ymin as int,
            ymax as int,
        ) + render_traces_seq(old(traces)@, now_ms, life_ms, old(term).dims()) + sgr_reset_seq()
            + render_objs_seq(objs@, old(term).dims(), xmin, xmax, ymin, ymax)
            + sgr_reset_seq(),
        final(traces)@ == add_traces_spec(old(traces)@, objs@, now_ms, xmin, xmax, ymin, ymax),
        final(term).nesting() == old(term).nesting(),
        final(term).dims() == old(term).dims(),
{
    let ghost pre = term.emitted();
    let ghost sz = term.dims();
    let ghost c = term.nesting() as int;
    term.reset();
    term.draw_box(xmin - 1, ymin - 1, xmax + 1, ymax + 1);
    let d: i32 = xmax - xmin;
    let half_w: i32 = if d >= 0 {
        proof {
            assert(0 <= d as int / 2 <= d as int) by (nonlinear_arith)
                requires
                    d >= 0,
            ;
        }
        ((d as u32) / 2) as i32
    } else {
        let m: u32 = (-(d as i64)) as u32;
        proof {
            assert(0 <= m as int / 2 <= m as int) by (nonlinear_arith)
                requires
                    m >= 0,
            ;
        }
        0 - ((m / 2) as i32)
    };
    assert(half_w as int == tdiv(xmax as int - xmin as int, 2));
    let tx: i32 = xmin - 1 + half_w - 5;
    term.moveto(tx, ymin - 1);
    let mut tv: Vec<u8> = Vec::new();
    tv.push(0x20);
    tv.push(0x20);
    tv.push(0x53);
    tv.push(0x20);
    tv.push(0x50);
    tv.push(0x20);
    tv.push(0x41);
    tv.push(0x20);
    tv.push(0x43);
    tv.push(0x20);
    tv.push(0x45);
    tv.push(0x20);
    tv.push(0x20);
    assert(tv@ =~= title_seq());
    term.writeb(tv.as_slice());
    let ghost chrome_end = pre + chrome_seq(
        sz,
        c,
        xmin as int,
        xmax as int,
        ymin as int,
        ymax as int,
    );
    proof {
        let rr = sgr_reset_seq();
        let bb = box_seq(
            xmin as int - 1,
            ymin as int - 1,
            xmax as int + 1,
            ymax as int + 1,
            sz,
            c,
        );
        let mm = moveto_seq(
            resolve(xmin as int - 1 + tdiv(xmax as int - xmin as int, 2) - 5, sz.cols as int),
            resolve(ymin as int - 1, sz.rows as int),
        );
        let tt = title_seq();
        crate::seqs::lemma_concat_assoc(pre, rr, bb);
        crate::seqs::lemma_concat_assoc(pre, rr + bb, mm);
        crate::seqs::lemma_concat_assoc(pre, rr + bb + mm, tt);
        assert(term.emitted() == chrome_end);
    }

    let mut dot: Vec<u8> = Vec::new();
    dot.push(0xc2);
    dot.push(0xb7);
    assert(dot@ =~= seq![0xc2u8, 0xb7u8]);
    let mut i: usize = 0;
    while i < traces.len()
        invariant
            i <= traces@.len(),
            traces@ == old(traces)@,
            dot@ == seq![0xc2u8, 0xb7u8],
            life_ms >= 1,
            term.emitted() == chrome_end + render_traces_seq(
                traces@.take(i as int),
                now_ms,
                life_ms,
                sz,
            ),
            term.nesting() == old(term).nesting(),
            term.dims() == sz,
        decreases traces@.len() - i,
    {
        let t = traces[i];
        assert(traces@.take(i as int + 1).drop_last() =~= traces@.take(i as int));
        assert(traces@.take(i as int + 1).last() == traces@[i as int]);
        if t.when_ms <= now_ms {
            let age: u64 = now_ms - t.when_ms;
            if age <= life_ms {
                term.moveto(t.p.x, t.p.y);
                let col = trace_color(age, life_ms);
                term.fg8(col);
                term.writeb(dot.as_slice());
            }
        }
        assert(term.emitted() =~= chrome_end + render_traces_seq(
            traces@.take(i as int + 1),
            now_ms,
            life_ms,
            sz,
        ));
        i = i + 1;
    }
    assert(traces@.take(traces@.len() as int) =~= traces@);
    term.reset();

    let ghost tr_end = chrome_end + render_traces_seq(old(traces)@, now_ms, life_ms, sz)
        + sgr_reset_seq();
    assert(term.emitted() == tr_end);
    let mut k: usize = 0;
    while k < objs.len()
        invariant
            k <= objs@.len(),
            term.emitted() == tr_end + render_objs_seq(objs@.take(k as int), sz, xmin, xmax,
                ymin, ymax),
            traces@ == add_traces_spec(old(traces)@, objs@.take(k as int), now_ms, xmin, xmax,
                ymin, ymax),
            term.nesting() == old(term).nesting(),
            term.dims() == sz,
        decreases objs@.len() - k,
    {
        let o = &objs[k];
        assert(objs@.take(k as int + 1).drop_last() =~= objs@.take(k as int));
        assert(objs@.take(k as int + 1).last() == objs@[k as int]);
        if !(o.p.x < xmin || o.p.y < ymin || o.p.x > xmax || o.p.y > ymax) {
            term.moveto(o.p.x, o.p.y);
            add_trace(traces, now_ms, o.p.x, o.p.y);
            term.fg8(o.colour);
            term.write(o.name.as_str());
        }
        assert(term.emitted() =~= tr_end + render_objs_seq(
            objs@.take(k as int + 1),
            sz,
            xmin,
            xmax,
            ymin,
            ymax,
        ));
        k = k + 1;
    }
    assert(objs@.take(objs@.len() as int) =~= objs@);
    term.reset();
    assert(term.emitted() == pre + chrome_seq(
        sz,
        c,
        xmin as int,
        xmax as int,
        ymin as int,
        ymax as int,
    ) + render_traces_seq(old(traces)@, now_ms, life_ms, sz) + sgr_reset_seq()
        + render_objs_seq(objs@, sz, xmin, xmax, ymin, ymax) + sgr_reset_seq());
}

/// One frame pass.  With `clear` set, the previous frame's marks are
/// erased: every expired trace is blanked and dropped, every in-bounds
/// label overwritten with spaces.  Without it, the frame is drawn: the
/// chrome, a fading dot per live trace, and each in-bounds entity's
/// label, whose cell is recorded as a trace.
pub fn draw_space(
    term: &mut ANSITerm,
    traces: &mut Vec<Trace>,
    objs: &Vec<ScreenObject>,
    now_ms: u64,
    life_ms: u64,
    xmin: i32,
    xmax: i32,
    ymin: i32,
    ymax: i32,
    clear: bool,
)
    requires
        !clear ==> life_ms >= 1 && old(term).nesting() < u32::MAX - 1 && xmin as int - 6
            >= i32::MIN && xmax as int - 6 >= i32::MIN && ymin as int - 1 >= i32::MIN
            && xmax as int + 1 <= i32::MAX && ymax as int + 1 <= i32::MAX && i32::MIN
            <= xmax as int - xmin as int <= i32::MAX,
    ensures
        final(term).nesting() == old(term).nesting(),
        final(term).dims() == old(term).dims(),
        clear ==> final(term).emitted() == old(term).emitted() + clear_traces_seq(
            old(traces)@,
            now_ms,
            life_ms,
            old(term).dims(),
        ) + sgr_reset_seq() + clear_objs_seq(objs@, old(term).dims(), xmin, xmax, ymin, ymax)
            + sgr_reset_seq(),
        clear ==> final(traces)@ == keep_live(old(traces)@, now_ms, life_ms),
        !clear ==> final(term).emitted() == old(term).emitted() + chrome_seq(
            old(term).dims(),
            old(term).nesting() as int,
            xmin as int,
            xmax as int,
            ymin as int,
            ymax as int,
        ) + render_traces_seq(old(traces)@, now_ms, life_ms, old(term).dims()) + sgr_reset_seq()
            + render_objs_seq(objs@, old(term).dims(), xmin, xmax, ymin, ymax)
            + sgr_reset_seq(),
        !clear ==> final(traces)@ == add_traces_spec(old(traces)@, objs@, now_ms, xmin, xmax,
            ymin, ymax),
{
    if clear {
        clear_pass(term, traces, objs, now_ms, life_ms, xmin, xmax, ymin, ymax);
    } else {
        render_pass(term, traces, objs, now_ms, life_ms, xmin, xmax, ymin, ymax);
    }
}

} // verus!
