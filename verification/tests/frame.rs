use nes::frame::{Color, Frame};

#[test]
fn new_frame_is_black() {
    let frame = Frame::new();
    assert!(frame.image.iter().all(|&b| b == 0));
    assert!(frame.is_zero.iter().all(|row| row.iter().all(|&z| !z)));
    assert_eq!(frame.image.len(), 256 * 240 * 3);
}

#[test]
fn default_frame_is_new_frame() {
    let frame = Frame::default();
    assert!(frame.image.iter().all(|&b| b == 0));
    assert_eq!(frame.get_hash(), Frame::new().get_hash());
}

#[test]
fn set_pixel_writes_three_bytes() {
    let mut frame = Frame::new();
    frame.set_pixel(2, 1, Color { r: 10, g: 20, b: 30 });
    let index = (1 * 256 + 2) * 3;
    assert_eq!(&frame.image[index..index + 3], &[10, 20, 30]);
    assert_eq!(frame.image.iter().filter(|&&b| b != 0).count(), 3);
}

#[test]
fn set_pixel_reaches_the_corners() {
    let mut frame = Frame::new();
    frame.set_pixel(0, 0, Color { r: 1, g: 2, b: 3 });
    frame.set_pixel(255, 239, Color { r: 4, g: 5, b: 6 });
    assert_eq!(&frame.image[0..3], &[1, 2, 3]);
    assert_eq!(&frame.image[184317..184320], &[4, 5, 6]);
}

#[test]
fn equal_frames_hash_equal() {
    let mut a = Frame::new();
    let mut b = Frame::new();
    a.set_pixel(100, 100, Color { r: 255, g: 0, b: 7 });
    b.set_pixel(100, 100, Color { r: 255, g: 0, b: 7 });
    assert_eq!(a.get_hash(), b.get_hash());
    assert_eq!(a.get_hash(), a.get_hash());
}

#[test]
fn hash_depends_on_the_pixels() {
    let a = Frame::new();
    let mut b = Frame::new();
    b.set_pixel(0, 0, Color { r: 1, g: 0, b: 0 });
    let mut c = Frame::new();
    c.set_pixel(1, 0, Color { r: 1, g: 0, b: 0 });
    assert_ne!(a.get_hash(), b.get_hash());
    assert_ne!(b.get_hash(), c.get_hash());
}

#[test]
fn hash_ignores_the_pixel_marks() {
    let a = Frame::new();
    let mut b = Frame::new();
    b.is_zero[0][0] = true;
    assert_eq!(a.get_hash(), b.get_hash());
}
