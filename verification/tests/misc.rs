use oxdz::mixer::downmix::{downmix, downmix_sample};
use oxdz::player::FrameCursor;

#[test]
fn it_works() {
    assert_eq!(2 + 2, 4);
}

#[test]
fn frame_cursor_copies_what_both_have_left() {
    let mut c = FrameCursor::new();
    assert!(c.needs_frame());
    c.start_frame(3);
    assert!(!c.needs_frame());
    let frame = [1i16, 2, 3];
    let mut out = [0i16; 5];
    let f = c.copy_out(&frame, &mut out, 0);
    assert_eq!((f, c.consumed), (3, 3));
    assert!(c.needs_frame());
    c.start_frame(3);
    let f = c.copy_out(&[4, 5, 6], &mut out, f);
    assert_eq!(f, 5);
    assert_eq!(out, [1, 2, 3, 4, 5]);
    assert_eq!(c.consumed, 2);
}

#[test]
fn downmix_shifts_and_clamps() {
    assert_eq!(downmix_sample(4096 * 100 + 5), 100);
    assert_eq!(downmix_sample(-1), -1);
    assert_eq!(downmix_sample(-4097), -2);
    assert_eq!(downmix_sample(i32::MAX), 32767);
    assert_eq!(downmix_sample(i32::MIN), -32768);
    assert_eq!(downmix(&[0, 8192, -8192, 40000 * 4096]), vec![0, 2, -2, 32767]);
}
