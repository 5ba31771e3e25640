use ansicanvas::rawmode::{make_raw, TermAttrs};

#[test]
fn make_raw_clears_and_sets_the_flag_words() {
    let orig = TermAttrs {
        iflag: 0xffff,
        oflag: 0b1010,
        lflag: 0xff00ff,
        cflag: 0b110011,
        vmin: 0,
        vtime: 99,
    };
    let r = make_raw(orig, 0x00f0, 0b0010, 0x0000ff, 0b000011, 0b100);
    assert_eq!(r.iflag, 0xff0f);
    assert_eq!(r.oflag, 0b1000);
    assert_eq!(r.lflag, 0xff0000);
    assert_eq!(r.cflag, 0b110100);
    assert_eq!(r.vmin, 1);
    assert_eq!(r.vtime, 1);
}

#[test]
fn make_raw_with_no_masks_only_sets_the_read_controls() {
    let orig = TermAttrs {
        iflag: 7,
        oflag: 8,
        lflag: 9,
        cflag: 10,
        vmin: 4,
        vtime: 5,
    };
    let r = make_raw(orig, 0, 0, 0, 0, 0);
    assert_eq!(r.iflag, 7);
    assert_eq!(r.oflag, 8);
    assert_eq!(r.lflag, 9);
    assert_eq!(r.cflag, 10);
    assert_eq!(r.vmin, 1);
    assert_eq!(r.vtime, 1);
}
