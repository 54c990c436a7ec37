use tauri_runtime_cef::osr::{bgra_to_xrgb, OsrBuffer, OsrState, PixelRect};

#[test]
fn new_state_is_empty() {
    let mut s = OsrState::new(800, 600);
    assert_eq!((s.view_width, s.view_height), (800, 600));
    assert_eq!(s.buffer.frame_size(), None);
    assert_eq!(s.cursor, None);
    assert!(!s.take_needs_redraw());
}

#[test]
fn view_size_is_at_least_one() {
    let mut s = OsrState::new(10, 10);
    s.set_view_size(0, -5);
    assert_eq!((s.view_width, s.view_height), (1, 1));
    s.set_view_size(1024, 768);
    assert_eq!((s.view_width, s.view_height), (1024, 768));
    s.set_view_size(1024, 768);
    assert_eq!((s.view_width, s.view_height), (1024, 768));
}

#[test]
fn paint_is_kept_and_reported_once() {
    let mut s = OsrState::new(2, 1);
    let pixels = [1u8, 2, 3, 4, 5, 6, 7, 8];
    assert!(s.store_paint(2, 1, &pixels));
    assert_eq!(s.buffer.data, pixels.to_vec());
    assert_eq!(s.buffer.frame_size(), Some((2, 1)));
    assert!(s.take_needs_redraw());
    assert!(!s.take_needs_redraw());
    assert_eq!(s.buffer.data, pixels.to_vec());
}

#[test]
fn empty_paint_is_dropped() {
    let mut s = OsrState::new(2, 1);
    assert!(s.store_paint(2, 1, &[9, 9, 9, 9, 9, 9, 9, 9]));
    assert!(s.take_needs_redraw());
    assert!(!s.store_paint(0, 5, &[1, 2, 3, 4]));
    assert!(!s.store_paint(5, -1, &[1, 2, 3, 4]));
    assert_eq!(s.buffer.width, 2);
    assert_eq!(s.buffer.data, vec![9; 8]);
    assert!(!s.take_needs_redraw());
}

#[test]
fn frame_size_needs_positive_sides_and_data() {
    let b = OsrBuffer { width: 3, height: 2, data: vec![] };
    assert_eq!(b.frame_size(), None);
    let b = OsrBuffer { width: -3, height: 2, data: vec![1] };
    assert_eq!(b.frame_size(), None);
    let b = OsrBuffer { width: 3, height: 2, data: vec![1] };
    assert_eq!(b.frame_size(), Some((3, 2)));
}

#[test]
fn bounds_are_the_view_size() {
    let mut s = OsrState::new(300, 200);
    assert_eq!(s.bounds(), PixelRect { x: 0, y: 0, width: 300, height: 200 });
    s.set_view_size(-1, 50);
    assert_eq!(s.bounds(), PixelRect { x: 0, y: 0, width: 1, height: 50 });
    let raw = OsrState::new(-2, 4);
    assert_eq!(raw.bounds().width, (-2i32) as u32);
}

#[test]
fn bgra_pixels_become_xrgb() {
    let src = [0x10u8, 0x20, 0x30, 0xff, 0x01, 0x02, 0x03, 0x00, 0xaa];
    let mut dst = [0xdead_beefu32; 3];
    bgra_to_xrgb(&src, &mut dst);
    assert_eq!(dst, [0x0030_2010, 0x0003_0201, 0xdead_beef]);
}

#[test]
fn bgra_conversion_stops_at_destination_end() {
    let src = [1u8, 2, 3, 4, 5, 6, 7, 8];
    let mut dst = [0u32; 1];
    bgra_to_xrgb(&src, &mut dst);
    assert_eq!(dst, [0x0003_0201]);
    let mut none: [u32; 0] = [];
    bgra_to_xrgb(&src, &mut none);
}

#[test]
fn gpu_paint_and_cursor_change() {
    let mut s = OsrState::new(4, 4);
    assert!(s.store_paint(1, 1, &[1, 2, 3, 4]));
    assert!(s.take_needs_redraw());
    s.mark_gpu_paint();
    assert_eq!(s.buffer.data, vec![1, 2, 3, 4]);
    assert!(s.take_needs_redraw());
    assert!(!s.take_needs_redraw());
    s.set_cursor(1);
    assert_eq!(s.cursor, Some(1));
    s.set_cursor(37);
    assert_eq!(s.cursor, Some(37));
    assert_eq!((s.view_width, s.view_height), (4, 4));
}
