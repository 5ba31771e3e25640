//! The ANSI canvas: a drawing surface whose operations append VT100
//! control sequences to an owned byte sink.  Every operation's contract
//! states, byte for byte, what it appends; `flush` hands the buffered
//! bytes out for the caller to deliver to the real terminal.

use vstd::prelude::*;

use vstd::string::StringSliceAdditionalSpecFns;

use crate::seqs::{dec_int, dec_nat};
use crate::WinSize;

verus! {

/// Horizontal bar in the VT100 line-drawing glyph table.
pub const LD_HORIZ: u8 = 0x71;

/// Vertical bar in the VT100 line-drawing glyph table.
pub const LD_VERTI: u8 = 0x78;

/// Top-left corner glyph.
pub const LD_TOPLEFT: u8 = 0x6c;

/// Top-right corner glyph.
pub const LD_TOPRIGHT: u8 = 0x6b;

/// Bottom-right corner glyph.
pub const LD_BOTTOMRIGHT: u8 = 0x6a;

/// Bottom-left corner glyph.
pub const LD_BOTTOMLEFT: u8 = 0x6d;

/// The Control Sequence Introducer: `ESC [`.
pub open spec fn csi() -> Seq<u8> {
    seq![0x1bu8, 0x5bu8]
}

/// `ESC ( 0`: switch the active character set to line-drawing glyphs.
pub open spec fn ld_on_seq() -> Seq<u8> {
    seq![0x1bu8, 0x28u8, 0x30u8]
}

/// `ESC ( B`: restore the standard character set.
pub open spec fn ld_off_seq() -> Seq<u8> {
    seq![0x1bu8, 0x28u8, 0x42u8]
}

/// What an enable emits at nesting depth `c`: the switch-in sequence on
/// the outermost enable only.
pub open spec fn ld_open(c: int) -> Seq<u8> {
    if c == 0 {
        ld_on_seq()
    } else {
        Seq::empty()
    }
}

/// What the disable matching an enable at depth `c` emits: the
/// switch-out sequence on the outermost disable only.
pub open spec fn ld_close(c: int) -> Seq<u8> {
    if c == 0 {
        ld_off_seq()
    } else {
        Seq::empty()
    }
}

/// Edge-relative resolution: a negative coordinate indexes from the far
/// edge of a dimension of `dim` cells, so `-1` resolves to `dim`.
pub open spec fn resolve(v: int, dim: int) -> int {
    if v < 0 {
        dim + v + 1
    } else {
        v
    }
}

/// `ESC [ {row} ; {col} f`: the cursor-position sequence for resolved
/// coordinates `x` (column) and `y` (row).
pub open spec fn moveto_seq(x: int, y: int) -> Seq<u8> {
    csi() + dec_int(y) + seq![0x3bu8] + dec_int(x) + seq![0x66u8]
}

/// `n` copies of the glyph `g` (none when `n` is not positive).
pub open spec fn glyph_run(g: u8, n: int) -> Seq<u8> {
    if n <= 0 {
        Seq::empty()
    } else {
        Seq::new(n as nat, |i| g)
    }
}

/// One row of a vertical line at column `x`: the vertical glyph, a
/// cursor-down (`ESC [ B`), and a re-home to column `x` (`ESC [ {x} G`).
pub open spec fn vrow_seq(x: int) -> Seq<u8> {
    seq![LD_VERTI] + csi() + seq![0x42u8] + csi() + dec_int(x) + seq![0x47u8]
}

/// `n` rows of a vertical line at column `x`.
pub open spec fn vrun(x: int, n: int) -> Seq<u8>
    decreases n,
{
    if n <= 0 {
        Seq::empty()
    } else {
        vrun(x, n - 1) + vrow_seq(x)
    }
}

/// Everything `draw_horiz_line(y, xfrom, xto)` appends on a canvas of
/// size `sz` at line-draw nesting depth `c`.
pub open spec fn hline_seq(y: int, xfrom: int, xto: int, sz: WinSize, c: int) -> Seq<u8> {
    moveto_seq(resolve(xfrom, sz.cols as int), resolve(y, sz.rows as int)) + ld_open(c)
        + glyph_run(LD_HORIZ, xto - xfrom + 1) + ld_close(c)
}

/// Everything `draw_verti_line(x, yfrom, yto)` appends on a canvas of
/// size `sz` at line-draw nesting depth `c`.
pub open spec fn vline_seq(x: int, yfrom: int, yto: int, sz: WinSize, c: int) -> Seq<u8> {
    moveto_seq(resolve(x, sz.cols as int), resolve(yfrom, sz.rows as int)) + ld_open(c)
        + vrun(x, yto - yfrom + 1) + ld_close(c)
}

/// Everything `draw_box(x1, y1, x2, y2)` appends: the four corners,
/// then the two horizontal edges and the two vertical edges, all inside
/// a single enable/disable pair.
pub open spec fn box_seq(x1: int, y1: int, x2: int, y2: int, sz: WinSize, c: int) -> Seq<u8> {
    let rx1 = resolve(x1, sz.cols as int);
    let rx2 = resolve(x2, sz.cols as int);
    let ry1 = resolve(y1, sz.rows as int);
    let ry2 = resolve(y2, sz.rows as int);
    ld_open(c) + moveto_seq(rx1, ry1) + seq![LD_TOPLEFT] + moveto_seq(rx2, ry1)
        + seq![LD_TOPRIGHT] + moveto_seq(rx1, ry2) + seq![LD_BOTTOMLEFT] + moveto_seq(rx2, ry2)
        + seq![LD_BOTTOMRIGHT] + hline_seq(y1, x1 + 1, x2 - 1, sz, c + 1)
        + hline_seq(y2, x1 + 1, x2 - 1, sz, c + 1) + vline_seq(x1, y1 + 1, y2 - 1, sz, c + 1)
        + vline_seq(x2, y1 + 1, y2 - 1, sz, c + 1) + ld_close(c)
}

/// `ESC [ 1 m`: SGR bold on.
pub open spec fn bold_seq() -> Seq<u8> {
    csi() + seq![0x31u8, 0x6du8]
}

/// `ESC [ 38 ; 5 ; {n} m`: indexed 256-color foreground selection.
pub open spec fn fg8_seq(fg: u8) -> Seq<u8> {
    csi() + seq![0x33u8, 0x38u8, 0x3bu8, 0x35u8, 0x3bu8] + dec_nat(fg as nat) + seq![0x6du8]
}

/// `ESC [ m`: SGR full attribute reset.
pub open spec fn sgr_reset_seq() -> Seq<u8> {
    csi() + seq![0x6du8]
}

/// `ESC [ 2 J`: erase the whole display.
pub open spec fn clear_seq() -> Seq<u8> {
    csi() + seq![0x32u8, 0x4au8]
}

/// `ESC [ ? 25 h` or `ESC [ ? 25 l`: show or hide the cursor.
pub open spec fn cursor_seq(enable: bool) -> Seq<u8> {
    csi() + seq![0x3fu8, 0x32u8, 0x35u8] + seq![if enable { 0x68u8 } else { 0x6cu8 }]
}

/// `ESC [ 4 l`: overwrite (replace) character mode.
pub open spec fn replace_seq() -> Seq<u8> {
    csi() + seq![0x34u8, 0x6cu8]
}

/// `ESC [ 4 h`: insert character mode.
pub open spec fn insert_seq() -> Seq<u8> {
    csi() + seq![0x34u8, 0x68u8]
}

/// `ESC [ ? 47 h`: enter the alternate screen buffer.
pub open spec fn alternate_seq() -> Seq<u8> {
    csi() + seq![0x3fu8, 0x34u8, 0x37u8, 0x68u8]
}

/// `ESC [ ? 47 l`: return to the normal screen buffer.
pub open spec fn normal_seq() -> Seq<u8> {
    csi() + seq![0x3fu8, 0x34u8, 0x37u8, 0x6cu8]
}

/// The canonical leave-the-terminal-sane sequence: normal screen,
/// cursor shown, replace mode, attributes reset — each exactly once.
pub open spec fn soft_reset_seq() -> Seq<u8> {
    normal_seq() + cursor_seq(true) + replace_seq() + sgr_reset_seq()
}

/// The canvas state proper: the buffered output sink, the line-draw
/// nesting counter, and the cached geometry.
pub struct ATInner {
    pub out: Vec<u8>,
    pub linedraw_count: u32,
    pub size: WinSize,
}

/// The ANSI canvas.  All drawing operations append control sequences to
/// the owned sink; nothing is delivered until `flush`.
pub struct ANSITerm {
    pub inner: ATInner,
}

impl ANSITerm {
    /// The bytes buffered since construction or the last `flush`.
    pub open spec fn emitted(&self) -> Seq<u8> {
        self.inner.out@
    }

    /// The line-draw nesting depth: zero exactly when as many disables
    /// as enables have been issued.
    pub open spec fn nesting(&self) -> u32 {
        self.inner.linedraw_count
    }

    /// The cached terminal geometry.
    pub open spec fn dims(&self) -> WinSize {
        self.inner.size
    }

    /// A canvas over a terminal of the given geometry, with an empty
    /// sink and balanced line-draw nesting.  A successful geometry
    /// query reports at least one row and one column, and every
    /// operation leaves the cached geometry unchanged, so the
    /// invariant carries through the canvas's whole life.
    pub fn new(size: WinSize) -> (t: ANSITerm)
        requires
            size.rows >= 1,
            size.cols >= 1,
        ensures
            t.dims() == size,
            t.nesting() == 0,
            t.emitted() == Seq::<u8>::empty(),
    {
        ANSITerm { inner: ATInner { out: Vec::new(), linedraw_count: 0, size } }
    }

    /// The cached geometry snapshot; the terminal is not re-queried.
    pub fn size(&self) -> (s: WinSize)
        ensures
            s == self.dims(),
    {
        self.inner.size
    }

    /// The current line-draw nesting depth.
    pub fn nesting_depth(&self) -> (c: u32)
        ensures
            c == self.nesting(),
    {
        self.inner.linedraw_count
    }

    /// Appends raw bytes to the sink.
    pub fn writeb(&mut self, b: &[u8])
        ensures
            final(self).emitted() == old(self).emitted() + b@,
            final(self).nesting() == old(self).nesting(),
            final(self).dims() == old(self).dims(),
    {
        let ghost pre = self.inner.out@;
        let mut i: usize = 0;
        while i < b.len()
            invariant
                i <= b.len(),
                self.inner.out@ == pre + b@.take(i as int),
                self.inner.linedraw_count == old(self).inner.linedraw_count,
                self.inner.size == old(self).inner.size,
            decreases b.len() - i,
        {
            self.inner.out.push(b[i]);
            assert(self.inner.out@ =~= pre + b@.take(i + 1));
            i = i + 1;
        }
        assert(b@.take(b@.len() as int) =~= b@);
    }

    /// Takes the buffered bytes out, leaving the sink empty.  The
    /// caller is responsible for delivering them to the terminal.
    pub fn flush(&mut self) -> (out: Vec<u8>)
        ensures
            out@ == old(self).emitted(),
            final(self).emitted() == Seq::<u8>::empty(),
            final(self).nesting() == old(self).nesting(),
            final(self).dims() == old(self).dims(),
    {
        let mut taken: Vec<u8> = Vec::new();
        core::mem::swap(&mut taken, &mut self.inner.out);
        taken
    }

    /// Positions the cursor: negative coordinates resolve from the far
    /// edge, and the resolved pair is emitted as `ESC [ row ; col f`
    /// with no bounds clamping.
    pub fn moveto(&mut self, x: i32, y: i32)
        ensures
            final(self).emitted() == old(self).emitted() + moveto_seq(
                resolve(x as int, old(self).dims().cols as int),
                resolve(y as int, old(self).dims().rows as int),
            ),
            final(self).nesting() == old(self).nesting(),
            final(self).dims() == old(self).dims(),
    {
        let ghost pre = self.inner.out@;
        let s = self.size();
        let xr: i32 = if x < 0 {
            s.cols as i32 + x + 1
        } else {
            x
        };
        let yr: i32 = if y < 0 {
            s.rows as i32 + y + 1
        } else {
            y
        };
        self.inner.out.push(0x1b);
        self.inner.out.push(0x5b);
        crate::seqs::push_dec_i32(&mut self.inner.out, yr);
        self.inner.out.push(0x3b);
        crate::seqs::push_dec_i32(&mut self.inner.out, xr);
        self.inner.out.push(0x66);
        assert(self.inner.out@ =~= pre + moveto_seq(xr as int, yr as int));
    }

    /// Raises the line-draw nesting depth; only the outermost enable
    /// switches the character set to the line-drawing glyph table.
    pub fn linedraw_enable(&mut self)
        requires
            old(self).nesting() < u32::MAX,
        ensures
            final(self).nesting() == old(self).nesting() + 1,
            final(self).emitted() == old(self).emitted() + ld_open(old(self).nesting() as int),
            final(self).dims() == old(self).dims(),
    {
        let ghost pre = self.inner.out@;
        self.inner.linedraw_count = self.inner.linedraw_count + 1;
        if self.inner.linedraw_count == 1 {
            self.inner.out.push(0x1b);
            self.inner.out.push(0x28);
            self.inner.out.push(0x30);
            assert(self.inner.out@ =~= pre + ld_on_seq());
        } else {
            assert(self.inner.out@ =~= pre + Seq::<u8>::empty());
        }
    }

    /// Lowers the line-draw nesting depth; only the disable that
    /// balances the outermost enable restores the standard character
    /// set.  Calling it with the counter at zero is a contract
    /// violation, so the depth is required to be positive.
    pub fn linedraw_disable(&mut self)
        requires
            old(self).nesting() > 0,
        ensures
            final(self).nesting() == old(self).nesting() - 1,
            final(self).emitted() == old(self).emitted() + ld_close(old(self).nesting() - 1),
            final(self).dims() == old(self).dims(),
    {
        let ghost pre = self.inner.out@;
        self.inner.linedraw_count = self.inner.linedraw_count - 1;
        if self.inner.linedraw_count == 0 {
            self.inner.out.push(0x1b);
            self.inner.out.push(0x28);
            self.inner.out.push(0x42);
            assert(self.inner.out@ =~= pre + ld_off_seq());
        } else {
            assert(self.inner.out@ =~= pre + Seq::<u8>::empty());
        }
    }

    /// SGR bold on.
    pub fn bold(&mut self)
        ensures
            final(self).emitted() == old(self).emitted() + bold_seq(),
            final(self).nesting() == old(self).nesting(),
            final(self).dims() == old(self).dims(),
    {
        let ghost pre = self.inner.out@;
        self.inner.out.push(0x1b);
        self.inner.out.push(0x5b);
        self.inner.out.push(0x31);
        self.inner.out.push(0x6d);
        assert(self.inner.out@ =~= pre + bold_seq());
    }

    /// Selects the indexed 256-color foreground `fg`.
    pub fn fg8(&mut self, fg: u8)
        ensures
            final(self).emitted() == old(self).emitted() + fg8_seq(fg),
            final(self).nesting() == old(self).nesting(),
            final(self).dims() == old(self).dims(),
    {
        let ghost pre = self.inner.out@;
        self.inner.out.push(0x1b);
        self.inner.out.push(0x5b);
        self.inner.out.push(0x33);
        self.inner.out.push(0x38);
        self.inner.out.push(0x3b);
        self.inner.out.push(0x35);
        self.inner.out.push(0x3b);
        crate::seqs::push_dec_u64(&mut self.inner.out, fg as u64);
        self.inner.out.push(0x6d);
        assert(self.inner.out@ =~= pre + fg8_seq(fg));
    }

    /// SGR full attribute reset.
    pub fn reset(&mut self)
        ensures
            final(self).emitted() == old(self).emitted() + sgr_reset_seq(),
            final(self).nesting() == old(self).nesting(),
            final(self).dims() == old(self).dims(),
    {
        let ghost pre = self.inner.out@;
        self.inner.out.push(0x1b);
        self.inner.out.push(0x5b);
        self.inner.out.push(0x6d);
        assert(self.inner.out@ =~= pre + sgr_reset_seq());
    }

    /// Erases the whole display.
    pub fn clear(&mut self)
        ensures
            final(self).emitted() == old(self).emitted() + clear_seq(),
            final(self).nesting() == old(self).nesting(),
            final(self).dims() == old(self).dims(),
    {
        let ghost pre = self.inner.out@;
        self.inner.out.push(0x1b);
        self.inner.out.push(0x5b);
        self.inner.out.push(0x32);
        self.inner.out.push(0x4a);
        assert(self.inner.out@ =~= pre + clear_seq());
    }

    /// Shows or hides the cursor.
    pub fn cursor(&mut self, enable: bool)
        ensures
            final(self).emitted() == old(self).emitted() + cursor_seq(enable),
            final(self).nesting() == old(self).nesting(),
            final(self).dims() == old(self).dims(),
    {
        let ghost pre = self.inner.out@;
        self.inner.out.push(0x1b);
        self.inner.out.push(0x5b);
        self.inner.out.push(0x3f);
        self.inner.out.push(0x32);
        self.inner.out.push(0x35);
        if enable {
            self.inner.out.push(0x68);
        } else {
            self.inner.out.push(0x6c);
        }
        assert(self.inner.out@ =~= pre + cursor_seq(enable));
    }

    /// Overwrite (replace) character mode.
    pub fn replace_mode(&mut self)
        ensures
            final(self).emitted() == old(self).emitted() + replace_seq(),
            final(self).nesting() == old(self).nesting(),
            final(self).dims() == old(self).dims(),
    {
        let ghost pre = self.inner.out@;
        self.inner.out.push(0x1b);
        self.inner.out.push(0x5b);
        self.inner.out.push(0x34);
        self.inner.out.push(0x6c);
        assert(self.inner.out@ =~= pre + replace_seq());
    }

    /// Insert character mode.
    pub fn insert_mode(&mut self)
        ensures
            final(self).emitted() == old(self).emitted() + insert_seq(),
            final(self).nesting() == old(self).nesting(),
            final(self).dims() == old(self).dims(),
    {
        let ghost pre = self.inner.out@;
        self.inner.out.push(0x1b);
        self.inner.out.push(0x5b);
        self.inner.out.push(0x34);
        self.inner.out.push(0x68);
        assert(self.inner.out@ =~= pre + insert_seq());
    }

    /// Enters the alternate screen buffer.
    pub fn alternate(&mut self)
        ensures
            final(self).emitted() == old(self).emitted() + alternate_seq(),
            final(self).nesting() == old(self).nesting(),
            final(self).dims() == old(self).dims(),
    {
        let ghost pre = self.inner.out@;
        self.inner.out.push(0x1b);
        self.inner.out.push(0x5b);
        self.inner.out.push(0x3f);
        self.inner.out.push(0x34);
        self.inner.out.push(0x37);
        self.inner.out.push(0x68);
        assert(self.inner.out@ =~= pre + alternate_seq());
    }

    /// Returns to the normal screen buffer.
    pub fn normal(&mut self)
        ensures
            final(self).emitted() == old(self).emitted() + normal_seq(),
            final(self).nesting() == old(self).nesting(),
            final(self).dims() == old(self).dims(),
    {
        let ghost pre = self.inner.out@;
        self.inner.out.push(0x1b);
        self.inner.out.push(0x5b);
        self.inner.out.push(0x3f);
        self.inner.out.push(0x34);
        self.inner.out.push(0x37);
        self.inner.out.push(0x6c);
        assert(self.inner.out@ =~= pre + normal_seq());
    }

    /// Emits the text's bytes verbatim at the current cursor position;
    /// nothing is escaped.
    pub fn write(&mut self, s: &str)
        ensures
            final(self).emitted() == old(self).emitted() + s.spec_bytes(),
            final(self).nesting() == old(self).nesting(),
            final(self).dims() == old(self).dims(),
    {
        let b = s.as_bytes();
        self.writeb(b);
    }

    /// Draws a horizontal line on row `y` across the inclusive column
    /// range `[xfrom, xto]`: one cursor move, then one horizontal glyph
    /// per column, inside an enable/disable pair.  An inverted range
    /// emits zero glyphs.
    pub fn draw_horiz_line(&mut self, y: i32, xfrom: i32, xto: i32)
        requires
            old(self).nesting() < u32::MAX,
            i32::MIN <= xto as int - xfrom as int <= i32::MAX,
        ensures
            final(self).emitted() == old(self).emitted() + hline_seq(
                y as int,
                xfrom as int,
                xto as int,
                old(self).dims(),
                old(self).nesting() as int,
            ),
            final(self).nesting() == old(self).nesting(),
            final(self).dims() == old(self).dims(),
    {
        let ghost pre = self.inner.out@;
        let ghost c = self.inner.linedraw_count as int;
        self.moveto(xfrom, y);
        self.linedraw_enable();
        let ghost mid = self.inner.out@;
        let n: i32 = xto - xfrom;
        let mut i: i64 = 0;
        while i <= n as i64
            invariant
                0 <= i,
                n < 0 ==> i == 0,
                n >= 0 ==> i <= n as i64 + 1,
                self.inner.out@ == mid + glyph_run(LD_HORIZ, i as int),
                self.inner.linedraw_count == old(self).inner.linedraw_count + 1,
                self.inner.size == old(self).inner.size,
            decreases n as int + 1 - i,
        {
            self.inner.out.push(LD_HORIZ);
            assert(self.inner.out@ =~= mid + glyph_run(LD_HORIZ, i as int + 1));
            i = i + 1;
        }
        self.linedraw_disable();
        assert(self.inner.out@ =~= pre + hline_seq(
            y as int,
            xfrom as int,
            xto as int,
            old(self).dims(),
            c,
        ));
    }

    /// Draws a vertical line in column `x` across the inclusive row
    /// range `[yfrom, yto]`: one cursor move, then for each row the
    /// vertical glyph, a cursor-down, and a re-home to column `x`, all
    /// inside a single enable/disable pair.  An inverted range emits
    /// zero glyphs.
    pub fn draw_verti_line(&mut self, x: i32, yfrom: i32, yto: i32)
        requires
            old(self).nesting() < u32::MAX,
        ensures
            final(self).emitted() == old(self).emitted() + vline_seq(
                x as int,
                yfrom as int,
                yto as int,
                old(self).dims(),
                old(self).nesting() as int,
            ),
            final(self).nesting() == old(self).nesting(),
            final(self).dims() == old(self).dims(),
    {
        let ghost pre = self.inner.out@;
        let ghost c = self.inner.linedraw_count as int;
        self.moveto(x, yfrom);
        self.linedraw_enable();
        let ghost mid = self.inner.out@;
        let n: i64 = yto as i64 - yfrom as i64 + 1;
        let mut i: i64 = 0;
        while i < n
            invariant
                0 <= i,
                n <= 0 ==> i == 0,
                n > 0 ==> i <= n,
                self.inner.out@ == mid + vrun(x as int, i as int),
                self.inner.linedraw_count == old(self).inner.linedraw_count + 1,
                self.inner.size == old(self).inner.size,
            decreases n - i,
        {
            let ghost row_pre = self.inner.out@;
            self.inner.out.push(LD_VERTI);
            self.inner.out.push(0x1b);
            self.inner.out.push(0x5b);
            self.inner.out.push(0x42);
            self.inner.out.push(0x1b);
            self.inner.out.push(0x5b);
            crate::seqs::push_dec_i32(&mut self.inner.out, x);
            self.inner.out.push(0x47);
            assert(self.inner.out@ =~= row_pre + vrow_seq(x as int));
            assert(self.inner.out@ =~= mid + vrun(x as int, i as int + 1));
            i = i + 1;
        }
        self.linedraw_disable();
        assert(self.inner.out@ =~= pre + vline_seq(
            x as int,
            yfrom as int,
            yto as int,
            old(self).dims(),
            c,
        ));
    }

    /// Draws a box with corners `(x1, y1)` and `(x2, y2)`: the four
    /// corner glyphs, the top and bottom edges over the open column
    /// interval, and the left and right edges over the open row
    /// interval, all inside a single enable/disable pair.  A sensible
    /// box needs `x2 > x1` and `y2 > y1`; degenerate ranges produce
    /// only the corner glyphs.
    #[verifier::rlimit(100)]
    pub fn draw_box(&mut self, x1: i32, y1: i32, x2: i32, y2: i32)
        requires
            old(self).nesting() < u32::MAX - 1,
            x1 as int + 1 <= i32::MAX,
            x2 as int - 1 >= i32::MIN,
            y1 as int + 1 <= i32::MAX,
            y2 as int - 1 >= i32::MIN,
            i32::MIN <= x2 as int - x1 as int - 2 <= i32::MAX,
        ensures
            final(self).emitted() == old(self).emitted() + box_seq(
                x1 as int,
                y1 as int,
                x2 as int,
                y2 as int,
                old(self).dims(),
                old(self).nesting() as int,
            ),
            final(self).nesting() == old(self).nesting(),
            final(self).dims() == old(self).dims(),
    {
        let ghost pre = self.inner.out@;
        let ghost c = self.inner.linedraw_count as int;
        let ghost sz = self.inner.size;
        let ghost rx1 = resolve(x1 as int, sz.cols as int);
        let ghost rx2 = resolve(x2 as int, sz.cols as int);
        let ghost ry1 = resolve(y1 as int, sz.rows as int);
        let ghost ry2 = resolve(y2 as int, sz.rows as int);
        self.linedraw_enable();
        self.moveto(x1, y1);
        let ghost m1 = pre + ld_open(c) + moveto_seq(rx1, ry1);
        self.inner.out.push(LD_TOPLEFT);
        let ghost e1 = m1 + seq![LD_TOPLEFT];
        assert(m1.push(LD_TOPLEFT) =~= e1);
        self.moveto(x2, y1);
        let ghost m2 = e1 + moveto_seq(rx2, ry1);
        self.inner.out.push(LD_TOPRIGHT);
        let ghost e2 = m2 + seq![LD_TOPRIGHT];
        assert(m2.push(LD_TOPRIGHT) =~= e2);
        self.moveto(x1, y2);
        let ghost m3 = e2 + moveto_seq(rx1, ry2);
        self.inner.out.push(LD_BOTTOMLEFT);
        let ghost e3 = m3 + seq![LD_BOTTOMLEFT];
        assert(m3.push(LD_BOTTOMLEFT) =~= e3);
        self.moveto(x2, y2);
        let ghost m4 = e3 + moveto_seq(rx2, ry2);
        self.inner.out.push(LD_BOTTOMRIGHT);
        let ghost e4 = m4 + seq![LD_BOTTOMRIGHT];
        assert(m4.push(LD_BOTTOMRIGHT) =~= e4);
        self.draw_horiz_line(y1, x1 + 1, x2 - 1);
        let ghost e5 = e4 + hline_seq(y1 as int, x1 as int + 1, x2 as int - 1, sz, c + 1);
        assert(self.inner.out@ == e5);
        self.draw_horiz_line(y2, x1 + 1, x2 - 1);
        let ghost e6 = e5 + hline_seq(y2 as int, x1 as int + 1, x2 as int - 1, sz, c + 1);
        assert(self.inner.out@ == e6);
        self.draw_verti_line(x1, y1 + 1, y2 - 1);
        let ghost e7 = e6 + vline_seq(x1 as int, y1 as int + 1, y2 as int - 1, sz, c + 1);
        assert(self.inner.out@ == e7);
        self.draw_verti_line(x2, y1 + 1, y2 - 1);
        let ghost e8 = e7 + vline_seq(x2 as int, y1 as int + 1, y2 as int - 1, sz, c + 1);
        assert(self.inner.out@ == e8);
        self.linedraw_disable();
        assert(self.inner.out@ == e8 + ld_close(c));
        proof {
            let q1 = ld_open(c);
            let q2 = moveto_seq(rx1, ry1);
            let q3 = seq![LD_TOPLEFT];
            let q4 = moveto_seq(rx2, ry1);
            let q5 = seq![LD_TOPRIGHT];
            let q6 = moveto_seq(rx1, ry2);
            let q7 = seq![LD_BOTTOMLEFT];
            let q8 = moveto_seq(rx2, ry2);
            let q9 = seq![LD_BOTTOMRIGHT];
            let q10 = hline_seq(y1 as int, x1 as int + 1, x2 as int - 1, sz, c + 1);
            let q11 = hline_seq(y2 as int, x1 as int + 1, x2 as int - 1, sz, c + 1);
            let q12 = vline_seq(x1 as int, y1 as int + 1, y2 as int - 1, sz, c + 1);
            let q13 = vline_seq(x2 as int, y1 as int + 1, y2 as int - 1, sz, c + 1);
            let q14 = ld_close(c);
            let b2 = q1 + q2;
            let b3 = b2 + q3;
            let b4 = b3 + q4;
            let b5 = b4 + q5;
            let b6 = b5 + q6;
            let b7 = b6 + q7;
            let b8 = b7 + q8;
            let b9 = b8 + q9;
            let b10 = b9 + q10;
            let b11 = b10 + q11;
            let b12 = b11 + q12;
            let b13 = b12 + q13;
            let b14 = b13 + q14;
            crate::seqs::lemma_concat_assoc(pre, q1, q2);
            crate::seqs::lemma_concat_assoc(pre, b2, q3);
            crate::seqs::lemma_concat_assoc(pre, b3, q4);
            crate::seqs::lemma_concat_assoc(pre, b4, q5);
            crate::seqs::lemma_concat_assoc(pre, b5, q6);
            crate::seqs::lemma_concat_assoc(pre, b6, q7);
            crate::seqs::lemma_concat_assoc(pre, b7, q8);
            crate::seqs::lemma_concat_assoc(pre, b8, q9);
            crate::seqs::lemma_concat_assoc(pre, b9, q10);
            crate::seqs::lemma_concat_assoc(pre, b10, q11);
            crate::seqs::lemma_concat_assoc(pre, b11, q12);
            crate::seqs::lemma_concat_assoc(pre, b12, q13);
            crate::seqs::lemma_concat_assoc(pre, b13, q14);
            assert(e8 + ld_close(c) == pre + b14);
            assert(b14 == box_seq(x1 as int, y1 as int, x2 as int, y2 as int, sz, c));
        }
    }

    /// The canonical leave-the-terminal-sane composite: normal screen,
    /// cursor shown, replace mode, attributes reset, each exactly once.
    pub fn soft_reset(&mut self)
        ensures
            final(self).emitted() == old(self).emitted() + soft_reset_seq(),
            final(self).nesting() == old(self).nesting(),
            final(self).dims() == old(self).dims(),
    {
        let ghost pre = self.inner.out@;
        self.normal();
        self.cursor(true);
        self.replace_mode();
        self.reset();
        assert(self.inner.out@ =~= pre + soft_reset_seq());
    }
}

} // verus!
