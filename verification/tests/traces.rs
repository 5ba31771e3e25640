use ansicanvas::trace::{add_trace, trace_color, Point, Trace};

fn tr(x: i32, y: i32, when_ms: u64) -> Trace {
    Trace { p: Point { x, y }, when_ms }
}

#[test]
fn add_trace_appends_a_new_cell() {
    let mut ts = vec![tr(1, 1, 100)];
    add_trace(&mut ts, 200, 2, 3);
    assert_eq!(ts.len(), 2);
    assert_eq!(ts[0], tr(1, 1, 100));
    assert_eq!(ts[1], tr(2, 3, 200));
}

#[test]
fn add_trace_refreshes_an_existing_cell() {
    let mut ts = vec![tr(1, 1, 100), tr(2, 3, 150), tr(4, 4, 120)];
    add_trace(&mut ts, 500, 2, 3);
    assert_eq!(ts.len(), 3);
    assert_eq!(ts[0], tr(1, 1, 100));
    assert_eq!(ts[1], tr(2, 3, 500));
    assert_eq!(ts[2], tr(4, 4, 120));
}

#[test]
fn add_trace_refreshes_only_the_first_match() {
    // Positions are deduplicated by add_trace itself, but if two equal
    // cells are ever present only the first is refreshed.
    let mut ts = vec![tr(5, 5, 10), tr(5, 5, 20)];
    add_trace(&mut ts, 99, 5, 5);
    assert_eq!(ts[0], tr(5, 5, 99));
    assert_eq!(ts[1], tr(5, 5, 20));
}

#[test]
fn add_trace_on_empty_set() {
    let mut ts: Vec<Trace> = Vec::new();
    add_trace(&mut ts, 7, -3, 12);
    assert_eq!(ts, vec![tr(-3, 12, 7)]);
}

#[test]
fn trace_color_brightest_at_age_zero() {
    assert_eq!(trace_color(0, 1000), 255);
}

#[test]
fn trace_color_dimmest_at_the_boundary() {
    assert_eq!(trace_color(1000, 1000), 232);
    assert_eq!(trace_color(1, 1), 232);
}

#[test]
fn trace_color_interpolates() {
    // The dimming step is the ceiling of (age * 23) / life.
    // 255 - ceil(11.5) = 255 - 12
    assert_eq!(trace_color(500, 1000), 243);
    // 255 - ceil(2.3) = 255 - 3
    assert_eq!(trace_color(100, 1000), 252);
    // 255 - ceil(13.8) = 255 - 14
    assert_eq!(trace_color(600, 1000), 241);
}

#[test]
fn trace_color_dims_with_age() {
    let life = 6000u64;
    let mut last = trace_color(0, life);
    let mut ages = Vec::new();
    for k in 1..=23u64 {
        ages.push(k * life / 23);
    }
    for age in ages {
        let c = trace_color(age, life);
        assert!(c < last, "age {} gave {} which is not dimmer than {}", age, c, last);
        last = c;
    }
    assert_eq!(last, 232);
}
