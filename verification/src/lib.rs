//! A verified ANSI/VT100 terminal canvas.
//!
//! The canvas buffers every control sequence it emits in an owned byte
//! sink; the contracts pin down, byte for byte, what each drawing
//! operation appends.  The process-facing pieces (placing the terminal
//! in raw mode, writing the buffered bytes to the real terminal) live
//! outside the library and only hand plain values in and out.

pub mod canvas;
pub mod frame;
pub mod laws;
pub mod rawmode;
pub mod seqs;
pub mod trace;

use vstd::prelude::*;

verus! {

/// The terminal's visible geometry in character cells.
#[derive(Clone, Copy, Debug, PartialEq, Eq, Structural)]
pub struct WinSize {
    pub rows: u16,
    pub cols: u16,
}

} // verus!
