use ansicanvas::canvas::ANSITerm;
use ansicanvas::frame::{draw_space, ScreenObject};
use ansicanvas::trace::{Point, Trace};
use ansicanvas::WinSize;

fn canvas(rows: u16, cols: u16) -> ANSITerm {
    ANSITerm::new(WinSize { rows, cols })
}

fn moveto_b(x: i32, y: i32) -> Vec<u8> {
    format!("\x1b[{};{}f", y, x).into_bytes()
}

fn box_b(x1: i32, y1: i32, x2: i32, y2: i32) -> Vec<u8> {
    let mut e: Vec<u8> = Vec::new();
    e.extend_from_slice(b"\x1b(0");
    e.extend_from_slice(&moveto_b(x1, y1));
    e.push(b'l');
    e.extend_from_slice(&moveto_b(x2, y1));
    e.push(b'k');
    e.extend_from_slice(&moveto_b(x1, y2));
    e.push(b'm');
    e.extend_from_slice(&moveto_b(x2, y2));
    e.push(b'j');
    for y in [y1, y2] {
        e.extend_from_slice(&moveto_b(x1 + 1, y));
        for _ in 0..(x2 - x1 - 1) {
            e.push(b'q');
        }
    }
    for x in [x1, x2] {
        e.extend_from_slice(&moveto_b(x, y1 + 1));
        for _ in 0..(y2 - y1 - 1) {
            e.push(b'x');
            e.extend_from_slice(format!("\x1b[B\x1b[{}G", x).as_bytes());
        }
    }
    e.extend_from_slice(b"\x1b(B");
    e
}

fn obj(x: i32, y: i32, colour: u8, name: &str) -> ScreenObject {
    ScreenObject { p: Point { x, y }, colour, name: name.to_string() }
}

fn tr(x: i32, y: i32, when_ms: u64) -> Trace {
    Trace { p: Point { x, y }, when_ms }
}

#[test]
fn clear_pass_blanks_expired_traces_and_labels() {
    let mut t = canvas(24, 80);
    // Expired at age 10000 > 5000; live at age 4000.
    let mut traces = vec![tr(5, 6, 0), tr(7, 8, 6000)];
    let objs = vec![obj(10, 10, 5, "AB"), obj(200, 10, 5, "ZZ")];
    draw_space(&mut t, &mut traces, &objs, 10000, 5000, 2, 79, 2, 23, true);

    let mut e: Vec<u8> = Vec::new();
    e.extend_from_slice(&moveto_b(5, 6));
    e.push(b' ');
    e.extend_from_slice(b"\x1b[m");
    e.extend_from_slice(&moveto_b(10, 10));
    e.extend_from_slice(b"  ");
    e.extend_from_slice(b"\x1b[m");
    assert_eq!(t.flush(), e);
    assert_eq!(traces, vec![tr(7, 8, 6000)]);
}

#[test]
fn clear_pass_keeps_future_stamped_traces() {
    let mut t = canvas(24, 80);
    let mut traces = vec![tr(3, 3, 9999)];
    let objs: Vec<ScreenObject> = Vec::new();
    draw_space(&mut t, &mut traces, &objs, 100, 10, 2, 79, 2, 23, true);
    assert_eq!(t.flush(), b"\x1b[m\x1b[m".to_vec());
    assert_eq!(traces, vec![tr(3, 3, 9999)]);
}

#[test]
fn render_pass_draws_chrome_traces_and_labels() {
    let mut t = canvas(24, 80);
    let mut traces = vec![tr(4, 4, 9000), tr(6, 6, 0)];
    let objs = vec![obj(10, 10, 5, "X"), obj(0, 0, 9, "OUT")];
    // Ages: 1000 (live) and 10000 (expired, skipped).
    draw_space(&mut t, &mut traces, &objs, 10000, 5000, 2, 79, 2, 23, false);

    let mut e: Vec<u8> = Vec::new();
    // Chrome: reset, border box, centred banner.
    e.extend_from_slice(b"\x1b[m");
    e.extend_from_slice(&box_b(1, 1, 80, 24));
    e.extend_from_slice(&moveto_b(2 - 1 + (79 - 2) / 2 - 5, 1));
    e.extend_from_slice(b"  S P A C E  ");
    // The live trace: 255 - ceil((1000 * 23) / 5000) = 250.
    e.extend_from_slice(&moveto_b(4, 4));
    e.extend_from_slice(b"\x1b[38;5;250m");
    e.extend_from_slice("·".as_bytes());
    e.extend_from_slice(b"\x1b[m");
    // The in-bounds object; the out-of-bounds one emits nothing.
    e.extend_from_slice(&moveto_b(10, 10));
    e.extend_from_slice(b"\x1b[38;5;5m");
    e.extend_from_slice(b"X");
    e.extend_from_slice(b"\x1b[m");
    assert_eq!(t.flush(), e);

    // The in-bounds object's cell was recorded as a trace.
    assert_eq!(traces, vec![tr(4, 4, 9000), tr(6, 6, 0), tr(10, 10, 10000)]);
}

#[test]
fn render_pass_refreshes_a_trace_at_the_entity_cell() {
    let mut t = canvas(24, 80);
    let mut traces = vec![tr(10, 10, 1)];
    let objs = vec![obj(10, 10, 3, "E")];
    draw_space(&mut t, &mut traces, &objs, 50, 100, 2, 79, 2, 23, false);
    assert_eq!(traces, vec![tr(10, 10, 50)]);
    t.flush();
}

#[test]
fn render_pass_handles_inverted_interior() {
    let mut t = canvas(24, 80);
    let mut traces: Vec<Trace> = Vec::new();
    let objs: Vec<ScreenObject> = Vec::new();
    draw_space(&mut t, &mut traces, &objs, 100, 100, 5, 3, 5, 3, false);

    let mut e: Vec<u8> = Vec::new();
    e.extend_from_slice(b"\x1b[m");
    // Border box with coincident corners and empty edges.
    e.extend_from_slice(b"\x1b(0");
    e.extend_from_slice(&moveto_b(4, 4));
    e.push(b'l');
    e.extend_from_slice(&moveto_b(4, 4));
    e.push(b'k');
    e.extend_from_slice(&moveto_b(4, 4));
    e.push(b'm');
    e.extend_from_slice(&moveto_b(4, 4));
    e.push(b'j');
    e.extend_from_slice(&moveto_b(5, 4));
    e.extend_from_slice(&moveto_b(5, 4));
    e.extend_from_slice(&moveto_b(4, 5));
    e.extend_from_slice(&moveto_b(4, 5));
    e.extend_from_slice(b"\x1b(B");
    // Banner cursor move: x = 5 - 1 + trunc(-2 / 2) - 5 = -2, which
    // resolves edge-relative to column 79.
    e.extend_from_slice(&moveto_b(79, 4));
    e.extend_from_slice(b"  S P A C E  ");
    e.extend_from_slice(b"\x1b[m");
    e.extend_from_slice(b"\x1b[m");
    assert_eq!(t.flush(), e);
    assert_eq!(traces, Vec::<Trace>::new());
}

#[test]
fn full_frame_cycle_erases_what_it_drew() {
    let mut t = canvas(24, 80);
    let mut traces: Vec<Trace> = Vec::new();
    let objs = vec![obj(20, 12, 7, "Moon")];
    draw_space(&mut t, &mut traces, &objs, 1000, 500, 2, 79, 2, 23, false);
    assert_eq!(traces.len(), 1);
    t.flush();

    // Much later, the clear pass blanks the stale trace and the label.
    draw_space(&mut t, &mut traces, &objs, 9000, 500, 2, 79, 2, 23, true);
    let mut e: Vec<u8> = Vec::new();
    e.extend_from_slice(&moveto_b(20, 12));
    e.push(b' ');
    e.extend_from_slice(b"\x1b[m");
    e.extend_from_slice(&moveto_b(20, 12));
    e.extend_from_slice(b"    ");
    e.extend_from_slice(b"\x1b[m");
    assert_eq!(t.flush(), e);
    assert_eq!(traces, Vec::<Trace>::new());
}
