//! The canvas's drawing laws: exact glyph counts for the line and box
//! operations, idempotence of balanced line-draw nesting, and
//! edge-relative cursor addressing.

use vstd::prelude::*;

use crate::canvas::{
    box_seq, csi, glyph_run, hline_seq, ld_close, ld_off_seq, ld_on_seq, ld_open, moveto_seq,
    resolve, vline_seq, vrow_seq, vrun, LD_BOTTOMLEFT, LD_BOTTOMRIGHT, LD_HORIZ, LD_TOPLEFT,
    LD_TOPRIGHT, LD_VERTI,
};
use crate::seqs::{
    count_byte, dec_int, lemma_count_byte_absent, lemma_count_byte_singleton,
    lemma_dec_int_digits,
};
use crate::WinSize;

verus! {

broadcast use crate::seqs::lemma_count_byte_concat;

/// Whether `b` is one of the six line-drawing glyphs.
pub open spec fn is_glyph(b: u8) -> bool {
    b == LD_HORIZ || b == LD_VERTI || b == LD_TOPLEFT || b == LD_TOPRIGHT || b == LD_BOTTOMRIGHT
        || b == LD_BOTTOMLEFT
}

/// A cursor-position sequence contains no line-drawing glyph.
pub proof fn lemma_moveto_no_glyph(x: int, y: int, b: u8)
    requires
        is_glyph(b),
    ensures
        count_byte(moveto_seq(x, y), b) == 0,
{
    lemma_dec_int_digits(x);
    lemma_dec_int_digits(y);
    lemma_count_byte_absent(csi(), b);
    lemma_count_byte_absent(dec_int(y), b);
    lemma_count_byte_absent(seq![0x3bu8], b);
    lemma_count_byte_absent(dec_int(x), b);
    lemma_count_byte_absent(seq![0x66u8], b);
}

/// Neither character-set switch contains a line-drawing glyph, whatever
/// the nesting depth.
pub proof fn lemma_ld_pair_no_glyph(c: int, b: u8)
    requires
        is_glyph(b),
    ensures
        count_byte(ld_open(c), b) == 0,
        count_byte(ld_close(c), b) == 0,
{
    lemma_count_byte_absent(ld_open(c), b);
    lemma_count_byte_absent(ld_close(c), b);
}

/// A run of `n` copies of `g` holds `g` exactly `n` times and any other
/// byte not at all.
pub proof fn lemma_glyph_run_count(g: u8, n: int, b: u8)
    ensures
        count_byte(glyph_run(g, n), b) == if b == g && n > 0 {
            n
        } else {
            0int
        },
    decreases n,
{
    if n > 0 {
        lemma_glyph_run_count(g, n - 1, b);
        assert(glyph_run(g, n).drop_last() =~= glyph_run(g, n - 1));
        assert(glyph_run(g, n).last() == g);
    }
}

/// One vertical-line row holds exactly one vertical glyph and no other
/// line-drawing glyph.
pub proof fn lemma_vrow_count(x: int, b: u8)
    requires
        is_glyph(b),
    ensures
        count_byte(vrow_seq(x), b) == if b == LD_VERTI {
            1int
        } else {
            0int
        },
{
    lemma_count_byte_singleton(LD_VERTI, b);
    lemma_count_byte_absent(csi(), b);
    lemma_count_byte_singleton(0x42, b);
    lemma_dec_int_digits(x);
    lemma_count_byte_absent(dec_int(x), b);
    lemma_count_byte_singleton(0x47, b);
}

/// `n` vertical-line rows hold exactly `n` vertical glyphs.
pub proof fn lemma_vrun_count(x: int, n: int, b: u8)
    requires
        is_glyph(b),
    ensures
        count_byte(vrun(x, n), b) == if b == LD_VERTI && n > 0 {
            n
        } else {
            0int
        },
    decreases n,
{
    if n > 0 {
        lemma_vrun_count(x, n - 1, b);
        lemma_vrow_count(x, b);
    }
}

/// Glyph census of a horizontal line's whole emission.
pub proof fn lemma_hline_counts(y: int, xfrom: int, xto: int, sz: WinSize, c: int, b: u8)
    requires
        is_glyph(b),
    ensures
        count_byte(hline_seq(y, xfrom, xto, sz, c), b) == if b == LD_HORIZ && xfrom <= xto {
            xto - xfrom + 1
        } else {
            0int
        },
{
    lemma_moveto_no_glyph(resolve(xfrom, sz.cols as int), resolve(y, sz.rows as int), b);
    lemma_ld_pair_no_glyph(c, b);
    lemma_glyph_run_count(LD_HORIZ, xto - xfrom + 1, b);
}

/// Glyph census of a vertical line's whole emission.
pub proof fn lemma_vline_counts(x: int, yfrom: int, yto: int, sz: WinSize, c: int, b: u8)
    requires
        is_glyph(b),
    ensures
        count_byte(vline_seq(x, yfrom, yto, sz, c), b) == if b == LD_VERTI && yfrom <= yto {
            yto - yfrom + 1
        } else {
            0int
        },
{
    lemma_moveto_no_glyph(resolve(x, sz.cols as int), resolve(yfrom, sz.rows as int), b);
    lemma_ld_pair_no_glyph(c, b);
    lemma_vrun_count(x, yto - yfrom + 1, b);
}

/// For `x_from <= x_to`, `draw_horiz_line` emits exactly
/// `x_to - x_from + 1` horizontal glyphs; for an inverted range, none.
pub proof fn lemma_horiz_line_glyph_count(y: int, xfrom: int, xto: int, sz: WinSize, c: int)
    ensures
        xfrom <= xto ==> count_byte(hline_seq(y, xfrom, xto, sz, c), LD_HORIZ) == xto - xfrom
            + 1,
        xto < xfrom ==> count_byte(hline_seq(y, xfrom, xto, sz, c), LD_HORIZ) == 0,
{
    lemma_hline_counts(y, xfrom, xto, sz, c, LD_HORIZ);
}

/// For `y_from <= y_to`, `draw_verti_line` emits exactly
/// `y_to - y_from + 1` vertical glyphs, each followed by a cursor-down
/// and a re-home to the original column (that shape is `vrow_seq`
/// itself); for an inverted range, none.
pub proof fn lemma_verti_line_glyph_count(x: int, yfrom: int, yto: int, sz: WinSize, c: int)
    ensures
        yfrom <= yto ==> count_byte(vline_seq(x, yfrom, yto, sz, c), LD_VERTI) == yto - yfrom
            + 1,
        yto < yfrom ==> count_byte(vline_seq(x, yfrom, yto, sz, c), LD_VERTI) == 0,
{
    lemma_vline_counts(x, yfrom, yto, sz, c, LD_VERTI);
}

/// Glyph census of a box's whole emission, for any one glyph byte.
pub proof fn lemma_box_counts(x1: int, y1: int, x2: int, y2: int, sz: WinSize, c: int, b: u8)
    requires
        is_glyph(b),
        c >= 0,
    ensures
        count_byte(box_seq(x1, y1, x2, y2, sz, c), b) == if b == LD_HORIZ {
            if x2 - x1 - 1 > 0 {
                2 * (x2 - x1 - 1)
            } else {
                0int
            }
        } else if b == LD_VERTI {
            if y2 - y1 - 1 > 0 {
                2 * (y2 - y1 - 1)
            } else {
                0int
            }
        } else {
            1int
        },
{
    let rx1 = resolve(x1, sz.cols as int);
    let rx2 = resolve(x2, sz.cols as int);
    let ry1 = resolve(y1, sz.rows as int);
    let ry2 = resolve(y2, sz.rows as int);
    lemma_ld_pair_no_glyph(c, b);
    lemma_moveto_no_glyph(rx1, ry1, b);
    lemma_count_byte_singleton(LD_TOPLEFT, b);
    lemma_moveto_no_glyph(rx2, ry1, b);
    lemma_count_byte_singleton(LD_TOPRIGHT, b);
    lemma_moveto_no_glyph(rx1, ry2, b);
    lemma_count_byte_singleton(LD_BOTTOMLEFT, b);
    lemma_moveto_no_glyph(rx2, ry2, b);
    lemma_count_byte_singleton(LD_BOTTOMRIGHT, b);
    lemma_hline_counts(y1, x1 + 1, x2 - 1, sz, c + 1, b);
    lemma_hline_counts(y2, x1 + 1, x2 - 1, sz, c + 1, b);
    lemma_vline_counts(x1, y1 + 1, y2 - 1, sz, c + 1, b);
    lemma_vline_counts(x2, y1 + 1, y2 - 1, sz, c + 1, b);
}

/// `draw_box(x1, y1, x2, y2)` with `x2 > x1 + 1` and `y2 > y1 + 1`
/// emits exactly four corner glyphs (one of each), `2 * (x2 - x1 - 1)`
/// horizontal glyphs and `2 * (y2 - y1 - 1)` vertical glyphs.
pub proof fn lemma_box_glyph_count(x1: int, y1: int, x2: int, y2: int, sz: WinSize, c: int)
    requires
        c >= 0,
        x2 > x1 + 1,
        y2 > y1 + 1,
    ensures
        count_byte(box_seq(x1, y1, x2, y2, sz, c), LD_HORIZ) == 2 * (x2 - x1 - 1),
        count_byte(box_seq(x1, y1, x2, y2, sz, c), LD_VERTI) == 2 * (y2 - y1 - 1),
        count_byte(box_seq(x1, y1, x2, y2, sz, c), LD_TOPLEFT) == 1,
        count_byte(box_seq(x1, y1, x2, y2, sz, c), LD_TOPRIGHT) == 1,
        count_byte(box_seq(x1, y1, x2, y2, sz, c), LD_BOTTOMLEFT) == 1,
        count_byte(box_seq(x1, y1, x2, y2, sz, c), LD_BOTTOMRIGHT) == 1,
{
    lemma_box_counts(x1, y1, x2, y2, sz, c, LD_HORIZ);
    lemma_box_counts(x1, y1, x2, y2, sz, c, LD_VERTI);
    lemma_box_counts(x1, y1, x2, y2, sz, c, LD_TOPLEFT);
    lemma_box_counts(x1, y1, x2, y2, sz, c, LD_TOPRIGHT);
    lemma_box_counts(x1, y1, x2, y2, sz, c, LD_BOTTOMLEFT);
    lemma_box_counts(x1, y1, x2, y2, sz, c, LD_BOTTOMRIGHT);
}

/// The bytes emitted by `n` successive `linedraw_enable` calls starting
/// at nesting depth `c`, per `linedraw_enable`'s contract.
pub open spec fn enables_seq(c: int, n: nat) -> Seq<u8>
    decreases n,
{
    if n == 0 {
        Seq::empty()
    } else {
        ld_open(c) + enables_seq(c + 1, (n - 1) as nat)
    }
}

/// The bytes emitted by `n` successive `linedraw_disable` calls
/// starting at nesting depth `c`, per `linedraw_disable`'s contract.
pub open spec fn disables_seq(c: int, n: nat) -> Seq<u8>
    decreases n,
{
    if n == 0 {
        Seq::empty()
    } else {
        ld_close(c - 1) + disables_seq(c - 1, (n - 1) as nat)
    }
}

/// Enables issued strictly inside an enabled region emit nothing.
pub proof fn lemma_enables_nested_silent(c: int, n: nat)
    requires
        c >= 1,
    ensures
        enables_seq(c, n) == Seq::<u8>::empty(),
    decreases n,
{
    if n > 0 {
        lemma_enables_nested_silent(c + 1, (n - 1) as nat);
        assert(ld_open(c) + enables_seq(c + 1, (n - 1) as nat) =~= Seq::<u8>::empty());
    }
}

/// `n` disables that balance `n` enables emit exactly one switch-out.
pub proof fn lemma_disables_balanced(n: nat)
    requires
        n >= 1,
    ensures
        disables_seq(n as int, n) == ld_off_seq(),
    decreases n,
{
    if n == 1 {
        assert(ld_close(0) + disables_seq(0, 0) =~= ld_off_seq());
    } else {
        lemma_disables_balanced((n - 1) as nat);
        assert(ld_close(n - 1) + disables_seq(n as int - 1, (n - 1) as nat) =~= ld_off_seq());
    }
}

/// Balanced nesting is idempotent: `n` enables from a balanced canvas
/// followed by `n` disables emit exactly one character-set switch-in
/// and one switch-out, regardless of `n`.
pub proof fn lemma_linedraw_nesting_balanced(n: nat)
    requires
        n >= 1,
    ensures
        enables_seq(0, n) + disables_seq(n as int, n) == ld_on_seq() + ld_off_seq(),
{
    lemma_enables_nested_silent(1, (n - 1) as nat);
    assert(enables_seq(0, n) =~= ld_on_seq());
    lemma_disables_balanced(n);
}

/// Edge-relative addressing: `-1` resolves to the far edge, so
/// `moveto(-1, -1)` on a canvas of size `(rows, cols)` emits the cursor
/// position for the absolute cell `(cols, rows)`.
pub proof fn lemma_moveto_edge_relative(sz: WinSize)
    ensures
        resolve(-1, sz.cols as int) == sz.cols as int,
        resolve(-1, sz.rows as int) == sz.rows as int,
        moveto_seq(resolve(-1, sz.cols as int), resolve(-1, sz.rows as int)) == moveto_seq(
            sz.cols as int,
            sz.rows as int,
        ),
{
}

} // verus!
