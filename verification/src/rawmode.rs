//! The pure half of raw-mode acquisition: deriving, from a captured
//! terminal attribute block, the block that raw mode applies.  The
//! syscalls that read and apply attribute blocks live outside the
//! library and exchange these plain words with it.

use vstd::prelude::*;

verus! {

/// A terminal attribute block, reduced to the flag words and the two
/// control characters the raw-mode derivation touches.
#[derive(Clone, Copy, Debug, PartialEq, Eq, Structural)]
pub struct TermAttrs {
    pub iflag: u64,
    pub oflag: u64,
    pub lflag: u64,
    pub cflag: u64,
    pub vmin: u8,
    pub vtime: u8,
}

/// Derives the raw-mode attribute block from the captured one: clears
/// the given input, output, local and control flags, sets the given
/// control flags (forcing 8-bit characters), and asks for a minimum
/// read of one byte with a short inter-byte timeout.  The caller
/// supplies the platform's own flag masks.
pub fn make_raw(
    orig: TermAttrs,
    clr_iflag: u64,
    clr_oflag: u64,
    clr_lflag: u64,
    clr_cflag: u64,
    set_cflag: u64,
) -> (r: TermAttrs)
    ensures
        r.iflag == orig.iflag & !clr_iflag,
        r.oflag == orig.oflag & !clr_oflag,
        r.lflag == orig.lflag & !clr_lflag,
        r.cflag == orig.cflag & !clr_cflag | set_cflag,
        r.vmin == 1,
        r.vtime == 1,
{
    TermAttrs {
        iflag: orig.iflag & !clr_iflag,
        oflag: orig.oflag & !clr_oflag,
        lflag: orig.lflag & !clr_lflag,
        cflag: orig.cflag & !clr_cflag | set_cflag,
        vmin: 1,
        vtime: 1,
    }
}

} // verus!
