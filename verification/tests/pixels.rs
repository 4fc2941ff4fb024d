use screencast::gui::component::window_part_screen::draw_rectangle_on_image;
use screencast::screenshare::{
    black_frame, checked_frame, convert_cursor_coordinates, convert_cursor_coordinates_partial,
    frame_for_receivers, next_frame_action, overlay_text_cursor, screenshot_or_blank, FrameAction, FALLBACK_HEIGHT,
    FALLBACK_WIDTH,
};
use screencast::socket::codec::SerializableImage;
use screencast::utils::{bgr0_to_rgba, bgra_to_rgba, bgrx_to_rgba, rgb_to_rgba, rgbx_to_rgba, xbgr_to_rgba};

#[test]
fn rgb_pixels_become_opaque_rgba() {
    let out = rgb_to_rgba(vec![1, 2, 3, 4, 5, 6]);
    assert_eq!(out, vec![1, 2, 3, 255, 4, 5, 6, 255]);
}

#[test]
fn rgb_trailing_partial_pixel_is_dropped() {
    let out = rgb_to_rgba(vec![1, 2, 3, 4, 5]);
    assert_eq!(out, vec![1, 2, 3, 255]);
    assert_eq!(rgb_to_rgba(vec![]), Vec::<u8>::new());
}

#[test]
fn bgr0_swaps_red_and_blue() {
    assert_eq!(bgr0_to_rgba(vec![10, 20, 30, 0, 40, 50, 60, 7]), vec![30, 20, 10, 255, 60, 50, 40, 255]);
}

#[test]
fn rgbx_keeps_order_and_sets_alpha() {
    assert_eq!(rgbx_to_rgba(vec![10, 20, 30, 99]), vec![10, 20, 30, 255]);
}

#[test]
fn xbgr_reads_from_the_back() {
    assert_eq!(xbgr_to_rgba(vec![99, 30, 20, 10]), vec![10, 20, 30, 255]);
}

#[test]
fn bgrx_swaps_red_and_blue() {
    assert_eq!(bgrx_to_rgba(vec![30, 20, 10, 99]), vec![10, 20, 30, 255]);
}

#[test]
fn bgra_keeps_alpha() {
    assert_eq!(bgra_to_rgba(vec![30, 20, 10, 77, 1, 2, 3, 4]), vec![10, 20, 30, 77, 3, 2, 1, 4]);
}

#[test]
fn four_byte_formats_drop_partial_pixel() {
    assert_eq!(bgra_to_rgba(vec![30, 20, 10, 77, 1, 2]), vec![10, 20, 30, 77]);
}

#[test]
fn black_frame_is_all_zero() {
    let f = black_frame(3, 2);
    assert_eq!(f.width(), 3);
    assert_eq!(f.height(), 2);
    assert_eq!(f.data(), &vec![0u8; 24]);
}

#[test]
fn blank_fallback_when_capture_fails() {
    let f = screenshot_or_blank(None);
    assert_eq!(f.width(), FALLBACK_WIDTH);
    assert_eq!(f.height(), FALLBACK_HEIGHT);
    assert_eq!(f.data().len(), 1440 * 900 * 4);
    assert!(f.data().iter().all(|b| *b == 0));
    let captured = SerializableImage::new(1, 1, vec![1, 2, 3, 4]);
    let g = screenshot_or_blank(Some(captured));
    assert_eq!(g.data(), &vec![1, 2, 3, 4]);
}

#[test]
fn checked_frame_rejects_wrong_size() {
    assert!(checked_frame(2, 2, vec![0; 15]).is_none());
    let ok = checked_frame(2, 1, vec![1, 2, 3, 4, 5, 6, 7, 8]).unwrap();
    assert_eq!(ok.width(), 2);
    assert_eq!(ok.data(), &vec![1, 2, 3, 4, 5, 6, 7, 8]);
}

#[test]
fn blanking_sends_a_black_frame_of_same_size() {
    let frame = SerializableImage::new(1, 2, vec![9, 9, 9, 9, 8, 8, 8, 8]);
    let sent = frame_for_receivers(&frame, true);
    assert_eq!((sent.width(), sent.height()), (1, 2));
    assert_eq!(sent.data(), &vec![0u8; 8]);
    let plain = frame_for_receivers(&frame, false);
    assert_eq!(plain.data(), frame.data());
}

#[test]
fn cursor_inside_and_outside_monitor() {
    assert_eq!(convert_cursor_coordinates(150, 120, 100, 100, 1920, 1080), Some((50, 20)));
    assert_eq!(convert_cursor_coordinates(50, 120, 100, 100, 1920, 1080), None);
    assert_eq!(convert_cursor_coordinates(100 + 1920, 120, 100, 100, 1920, 1080), None);
    assert_eq!(convert_cursor_coordinates(100, 100, 100, 100, 1920, 1080), Some((0, 0)));
}

#[test]
fn cursor_relative_to_shared_area() {
    assert_eq!(convert_cursor_coordinates_partial(300, 300, 0, 0, 400, 400, Some((250, 250))), Some((50, 50)));
    assert_eq!(convert_cursor_coordinates_partial(200, 300, 0, 0, 400, 400, Some((250, 250))), None);
}

#[test]
fn text_cursor_paints_a_white_column() {
    // A 20 x 25 frame: the cursor at (0, 0) is drawn at column 10, rows 0 to 19.
    let mut data = vec![0u8; 20 * 25 * 4];
    overlay_text_cursor(&mut data, 20, 25, 0, 0);
    for row in 0..25usize {
        for col in 0..20usize {
            let base = (row * 20 + col) * 4;
            let expected = if col == 10 && row < 20 { 255 } else { 0 };
            for k in 0..4 {
                assert_eq!(data[base + k], expected, "row {} col {}", row, col);
            }
        }
    }
}

#[test]
fn text_cursor_is_clipped_at_the_bottom() {
    let mut data = vec![0u8; 20 * 5 * 4];
    overlay_text_cursor(&mut data, 20, 5, 0, 3);
    let painted: usize = data.iter().filter(|b| **b == 255).count();
    assert_eq!(painted, 2 * 4);
}

#[test]
fn rectangle_outline_on_image() {
    let mut img = SerializableImage::new(6, 5, vec![0u8; 6 * 5 * 4]);
    draw_rectangle_on_image(&mut img, (1, 1), (4, 3), [255, 0, 0, 255], 1);
    let data = img.into_data();
    for y in 0..5usize {
        for x in 0..6usize {
            let on = (1..=4).contains(&x) && (1..=3).contains(&y) && (x == 1 || x == 4 || y == 1 || y == 3);
            let p = &data[(y * 6 + x) * 4..(y * 6 + x) * 4 + 4];
            if on {
                assert_eq!(p, &[255, 0, 0, 255], "x {} y {}", x, y);
            } else {
                assert_eq!(p, &[0, 0, 0, 0], "x {} y {}", x, y);
            }
        }
    }
}

#[test]
fn rectangle_is_clipped_to_the_image() {
    let mut img = SerializableImage::new(4, 4, vec![0u8; 64]);
    draw_rectangle_on_image(&mut img, (2, 2), (100, 100), [1, 2, 3, 4], 1);
    let data = img.into_data();
    // The right and bottom edges land on the last column and row.
    assert_eq!(&data[(3 * 4 + 3) * 4..(3 * 4 + 3) * 4 + 4], &[1, 2, 3, 4]);
    assert_eq!(&data[(2 * 4 + 2) * 4..(2 * 4 + 2) * 4 + 4], &[1, 2, 3, 4]);
    assert_eq!(&data[0..4], &[0, 0, 0, 0]);
}

#[test]
fn thick_rectangle_fills_small_area() {
    let mut img = SerializableImage::new(3, 3, vec![0u8; 36]);
    draw_rectangle_on_image(&mut img, (0, 0), (2, 2), [9, 9, 9, 9], 3);
    assert!(img.data().iter().all(|b| *b == 9));
}

#[test]
fn rectangle_outside_image_changes_nothing() {
    let mut img = SerializableImage::new(2, 2, vec![5u8; 16]);
    draw_rectangle_on_image(&mut img, (10, 10), (20, 20), [1, 1, 1, 1], 3);
    assert_eq!(img.data(), &vec![5u8; 16]);
}

#[test]
fn wrong_sized_frame_is_skipped_or_stops_area_sharing() {
    assert!(matches!(next_frame_action(false, 2, 2, vec![0; 3], true, false), FrameAction::Skip));
    assert!(matches!(next_frame_action(true, 2, 2, vec![0; 3], true, false), FrameAction::Stop));
}

#[test]
fn captured_frame_is_shown_and_sent() {
    match next_frame_action(false, 1, 1, vec![1, 2, 3, 4], true, false) {
        FrameAction::Deliver { preview, to_receivers } => {
            assert_eq!(preview.data(), &vec![1, 2, 3, 4]);
            assert_eq!(to_receivers.unwrap().data(), &vec![1, 2, 3, 4]);
        }
        _ => panic!("frame not delivered"),
    }
    match next_frame_action(true, 1, 1, vec![1, 2, 3, 4], true, true) {
        FrameAction::Deliver { preview, to_receivers } => {
            assert_eq!(preview.data(), &vec![1, 2, 3, 4]);
            assert_eq!(to_receivers.unwrap().data(), &vec![0, 0, 0, 0]);
        }
        _ => panic!("frame not delivered"),
    }
    match next_frame_action(false, 1, 1, vec![1, 2, 3, 4], false, true) {
        FrameAction::Deliver { to_receivers, .. } => assert!(to_receivers.is_none()),
        _ => panic!("frame not delivered"),
    }
}
