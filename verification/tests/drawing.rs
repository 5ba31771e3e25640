use ansicanvas::canvas::ANSITerm;
use ansicanvas::WinSize;

fn canvas(rows: u16, cols: u16) -> ANSITerm {
    ANSITerm::new(WinSize { rows, cols })
}

fn moveto_b(x: i32, y: i32) -> Vec<u8> {
    format!("\x1b[{};{}f", y, x).into_bytes()
}

fn count(bytes: &[u8], b: u8) -> usize {
    bytes.iter().filter(|&&x| x == b).count()
}

/// The bytes the box drawn at `(x1, y1)-(x2, y2)` emits, built
/// independently of the library.
fn box_b(x1: i32, y1: i32, x2: i32, y2: i32) -> Vec<u8> {
    let mut e: Vec<u8> = Vec::new();
    e.extend_from_slice(b"\x1b(0");
    e.extend_from_slice(&moveto_b(x1, y1));
    e.push(b'l');
    e.extend_from_slice(&moveto_b(x2, y1));
    e.push(b'k');
    e.extend_from_slice(&moveto_b(x1, y2));
    e.push(b'm');
    e.extend_from_slice(&moveto_b(x2, y2));
    e.push(b'j');
    for y in [y1, y2] {
        e.extend_from_slice(&moveto_b(x1 + 1, y));
        for _ in 0..(x2 - 1 - (x1 + 1) + 1) {
            e.push(b'q');
        }
    }
    for x in [x1, x2] {
        e.extend_from_slice(&moveto_b(x, y1 + 1));
        for _ in 0..(y2 - 1 - (y1 + 1) + 1) {
            e.push(b'x');
            e.extend_from_slice(format!("\x1b[B\x1b[{}G", x).as_bytes());
        }
    }
    e.extend_from_slice(b"\x1b(B");
    e
}

#[test]
fn horiz_line_emits_inclusive_range() {
    let mut t = canvas(24, 80);
    t.draw_horiz_line(4, 3, 7);
    let mut e: Vec<u8> = moveto_b(3, 4);
    e.extend_from_slice(b"\x1b(0qqqqq\x1b(B");
    assert_eq!(t.flush(), e);
}

#[test]
fn horiz_line_inverted_range_emits_no_glyph() {
    let mut t = canvas(24, 80);
    t.draw_horiz_line(4, 7, 3);
    let mut e: Vec<u8> = moveto_b(7, 4);
    e.extend_from_slice(b"\x1b(0\x1b(B");
    assert_eq!(t.flush(), e);
}

#[test]
fn horiz_line_single_cell() {
    let mut t = canvas(24, 80);
    t.draw_horiz_line(1, 9, 9);
    let mut e: Vec<u8> = moveto_b(9, 1);
    e.extend_from_slice(b"\x1b(0q\x1b(B");
    assert_eq!(t.flush(), e);
}

#[test]
fn verti_line_rehomes_each_row() {
    let mut t = canvas(24, 80);
    t.draw_verti_line(2, 3, 5);
    let mut e: Vec<u8> = moveto_b(2, 3);
    e.extend_from_slice(b"\x1b(0");
    for _ in 0..3 {
        e.push(b'x');
        e.extend_from_slice(b"\x1b[B\x1b[2G");
    }
    e.extend_from_slice(b"\x1b(B");
    assert_eq!(t.flush(), e);
}

#[test]
fn verti_line_inverted_range_emits_no_glyph() {
    let mut t = canvas(24, 80);
    t.draw_verti_line(2, 5, 3);
    let mut e: Vec<u8> = moveto_b(2, 5);
    e.extend_from_slice(b"\x1b(0\x1b(B");
    assert_eq!(t.flush(), e);
}

#[test]
fn box_emits_corners_then_edges() {
    let mut t = canvas(24, 80);
    t.draw_box(2, 2, 6, 5);
    let got = t.flush();
    assert_eq!(got, box_b(2, 2, 6, 5));
    assert_eq!(count(&got, b'q'), 2 * (6 - 2 - 1));
    assert_eq!(count(&got, b'x'), 2 * (5 - 2 - 1));
    assert_eq!(count(&got, b'l'), 1);
    assert_eq!(count(&got, b'k'), 1);
    assert_eq!(count(&got, b'j'), 1);
    assert_eq!(count(&got, b'm'), 1);
}

#[test]
fn box_switches_character_set_once() {
    let mut t = canvas(24, 80);
    t.draw_box(1, 1, 10, 10);
    let got = t.flush();
    let switches_in = got.windows(3).filter(|w| w == b"\x1b(0").count();
    let switches_out = got.windows(3).filter(|w| w == b"\x1b(B").count();
    assert_eq!(switches_in, 1);
    assert_eq!(switches_out, 1);
}

#[test]
fn scenario_eighty_by_twentyfour_box() {
    let mut t = canvas(24, 80);
    t.draw_box(2, 2, 78, 22);
    let got = t.flush();
    assert_eq!(got, box_b(2, 2, 78, 22));

    // Top-left corner glyph lands at (2, 2).
    let mut head: Vec<u8> = b"\x1b(0".to_vec();
    head.extend_from_slice(&moveto_b(2, 2));
    head.push(b'l');
    assert_eq!(&got[..head.len()], head.as_slice());

    // Each horizontal edge spans (3,·)-(77,·): 75 glyphs, at rows 2 and 22.
    assert_eq!(count(&got, b'q'), 2 * 75);
    let top_edge_at = got
        .windows(moveto_b(3, 2).len())
        .position(|w| w == moveto_b(3, 2).as_slice())
        .unwrap();
    let after = &got[top_edge_at + moveto_b(3, 2).len()..];
    assert!(after[..75].iter().all(|&b| b == b'q'));
    assert_ne!(after[75], b'q');

    // Each vertical edge spans rows 3-21: 19 glyphs.
    assert_eq!(count(&got, b'x'), 2 * 19);

    // One of each corner glyph.
    assert_eq!(count(&got, b'l'), 1);
    assert_eq!(count(&got, b'k'), 1);
    assert_eq!(count(&got, b'j'), 1);
    assert_eq!(count(&got, b'm'), 1);
}
