use win_media_unbind::{Layout, Placement};

fn row(x: i32, y: i32, width: u32) -> Placement {
    Placement { x, y, width, height: 35 }
}

#[test]
fn layout_of_default_window() {
    let l = Layout::for_window(800, 600).unwrap();
    assert_eq!(l.link_button, Placement { x: 10, y: 10, width: 100, height: 30 });
    assert_eq!(l.video_button, row(10, 555, 187));
    assert_eq!(l.audio_button, row(207, 555, 187));
    assert_eq!(l.playlist_button, row(404, 555, 187));
    assert_eq!(l.all_button, row(601, 555, 187));
    assert_eq!(l.log_view, Some(Placement { x: 10, y: 50, width: 780, height: 495 }));
}

#[test]
fn layout_of_minimised_window() {
    assert_eq!(Layout::for_window(0, 600), None);
    assert_eq!(Layout::for_window(800, 0), None);
    assert_eq!(Layout::for_window(0, 0), None);
}

#[test]
fn layout_without_room_for_the_log() {
    // 105 pixels high: the log would be 0 pixels high, so it is not moved.
    let l = Layout::for_window(800, 105).unwrap();
    assert_eq!(l.log_view, None);
    assert_eq!(l.video_button, row(10, 60, 187));
    let l = Layout::for_window(800, 106).unwrap();
    assert_eq!(l.log_view, Some(Placement { x: 10, y: 50, width: 780, height: 1 }));
}

#[test]
fn layout_of_narrow_window_wraps_widths() {
    // 10 - 50 = -40, a quarter is -10, which as u32 wraps.
    let l = Layout::for_window(10, 100).unwrap();
    assert_eq!(l.video_button, row(10, 55, 4294967286));
    assert_eq!(l.audio_button, row(10, 55, 4294967286));
    assert_eq!(l.playlist_button, row(10, 55, 4294967286));
    assert_eq!(l.all_button, row(10, 55, 4294967286));
    assert_eq!(l.log_view, None);
    // Room for the log, but the window is narrower than the two margins.
    let l = Layout::for_window(5, 200).unwrap();
    assert_eq!(l.log_view, Some(Placement { x: 10, y: 50, width: 4294967281, height: 95 }));
}

#[test]
fn layout_division_rounds_toward_zero() {
    // 47 - 50 = -3, a quarter rounds to 0.
    let l = Layout::for_window(47, 600).unwrap();
    assert_eq!(l.video_button.width, 0);
    assert_eq!(l.all_button.x, 40);
    // 53 - 50 = 3, a quarter rounds to 0.
    let l = Layout::for_window(53, 600).unwrap();
    assert_eq!(l.video_button.width, 0);
}

#[test]
fn layout_of_huge_window_wraps() {
    // 3_000_000_000 as i32 is -1_294_967_296.
    let l = Layout::for_window(3_000_000_000, 3_000_000_000).unwrap();
    let w: i32 = -323_741_836;
    assert_eq!(l.video_button.width, w as u32);
    assert_eq!(l.video_button.y, -1_294_967_341);
    assert_eq!(l.audio_button.x, 10 + w + 10);
    assert_eq!(l.all_button.x, 10 + 3 * w + 30);
    assert_eq!(l.log_view, None);
    let l = Layout::for_window(3_000_000_000, 600).unwrap();
    assert_eq!(l.log_view, Some(Placement { x: 10, y: 50, width: 2_999_999_980, height: 495 }));
}

#[test]
fn layout_buttons_fit_in_window() {
    for width in [50u32, 51, 99, 100, 800, 1920, 65535, 2_147_483_647] {
        let l = Layout::for_window(width, 600).unwrap();
        let b = l.all_button;
        assert!(b.x as i64 + b.width as i64 + 10 <= width as i64);
        assert_eq!(l.audio_button.x - l.video_button.x, l.video_button.width as i32 + 10);
    }
}
