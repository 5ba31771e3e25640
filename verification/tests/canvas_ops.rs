use ansicanvas::canvas::ANSITerm;
use ansicanvas::WinSize;

fn canvas(rows: u16, cols: u16) -> ANSITerm {
    ANSITerm::new(WinSize { rows, cols })
}

#[test]
fn new_canvas_is_empty_and_balanced() {
    let mut t = canvas(24, 80);
    let s = t.size();
    assert_eq!(s.rows, 24);
    assert_eq!(s.cols, 80);
    assert_eq!(t.flush(), Vec::<u8>::new());
}

#[test]
fn flush_drains_the_sink() {
    let mut t = canvas(24, 80);
    t.bold();
    let first = t.flush();
    assert_eq!(first, b"\x1b[1m".to_vec());
    assert_eq!(t.flush(), Vec::<u8>::new());
}

#[test]
fn moveto_emits_row_col_order() {
    let mut t = canvas(24, 80);
    t.moveto(5, 7);
    assert_eq!(t.flush(), b"\x1b[7;5f".to_vec());
}

#[test]
fn moveto_minus_one_addresses_far_edge() {
    let mut t = canvas(24, 80);
    t.moveto(-1, -1);
    assert_eq!(t.flush(), b"\x1b[24;80f".to_vec());
}

#[test]
fn moveto_other_negative_offsets() {
    let mut t = canvas(24, 80);
    t.moveto(-3, -2);
    assert_eq!(t.flush(), b"\x1b[23;78f".to_vec());
}

#[test]
fn moveto_passes_out_of_range_through() {
    let mut t = canvas(5, 5);
    t.moveto(-10, 2);
    assert_eq!(t.flush(), b"\x1b[2;-4f".to_vec());
}

#[test]
fn sgr_and_mode_sequences() {
    let mut t = canvas(24, 80);
    t.bold();
    assert_eq!(t.flush(), b"\x1b[1m".to_vec());
    t.reset();
    assert_eq!(t.flush(), b"\x1b[m".to_vec());
    t.clear();
    assert_eq!(t.flush(), b"\x1b[2J".to_vec());
    t.cursor(true);
    assert_eq!(t.flush(), b"\x1b[?25h".to_vec());
    t.cursor(false);
    assert_eq!(t.flush(), b"\x1b[?25l".to_vec());
    t.replace_mode();
    assert_eq!(t.flush(), b"\x1b[4l".to_vec());
    t.insert_mode();
    assert_eq!(t.flush(), b"\x1b[4h".to_vec());
    t.alternate();
    assert_eq!(t.flush(), b"\x1b[?47h".to_vec());
    t.normal();
    assert_eq!(t.flush(), b"\x1b[?47l".to_vec());
}

#[test]
fn fg8_formats_the_color_index() {
    let mut t = canvas(24, 80);
    t.fg8(196);
    assert_eq!(t.flush(), b"\x1b[38;5;196m".to_vec());
    t.fg8(0);
    assert_eq!(t.flush(), b"\x1b[38;5;0m".to_vec());
    t.fg8(255);
    assert_eq!(t.flush(), b"\x1b[38;5;255m".to_vec());
}

#[test]
fn write_emits_utf8_bytes_verbatim() {
    let mut t = canvas(24, 80);
    t.write("hi · there");
    assert_eq!(t.flush(), "hi · there".as_bytes().to_vec());
}

#[test]
fn writeb_emits_raw_bytes() {
    let mut t = canvas(24, 80);
    t.writeb(&[0x41, 0x42, 0x00, 0xff]);
    assert_eq!(t.flush(), vec![0x41, 0x42, 0x00, 0xff]);
}

#[test]
fn soft_reset_emits_the_four_sequences_once() {
    let mut t = canvas(24, 80);
    t.soft_reset();
    assert_eq!(t.flush(), b"\x1b[?47l\x1b[?25h\x1b[4l\x1b[m".to_vec());
}

#[test]
fn linedraw_enable_disable_single_pair() {
    let mut t = canvas(24, 80);
    t.linedraw_enable();
    assert_eq!(t.flush(), b"\x1b(0".to_vec());
    t.linedraw_disable();
    assert_eq!(t.flush(), b"\x1b(B".to_vec());
}

#[test]
fn linedraw_nesting_is_idempotent() {
    let mut t = canvas(24, 80);
    for _ in 0..5 {
        t.linedraw_enable();
    }
    for _ in 0..5 {
        t.linedraw_disable();
    }
    assert_eq!(t.flush(), b"\x1b(0\x1b(B".to_vec());
}
