use adufa::geometry::{Point, Rect};
use adufa::taskbar::{
    best_icon_match, capture_bounds, choose_unique_icon_match, icon_score_at, is_taskbar_band,
    take_pending_target, taskbar_background, taskbar_icon_size, taskbar_rect, IconMatch,
    PixelBuffer, MAX_MATCH_SCORE,
};
use adufa::taskbar::{is_usable_button, within_matching_limits};

fn at(score: u64) -> IconMatch {
    IconMatch { score, x: 4, y: 6 }
}

#[test]
fn icon_match_requires_a_clear_winner() {
    let mut clear = [(3, at(120)), (1, at(500)), (8, at(800))];
    assert_eq!(choose_unique_icon_match(&mut clear), Some((3, at(120))));

    let mut ambiguous = [(3, at(120)), (1, at(130))];
    assert_eq!(choose_unique_icon_match(&mut ambiguous), None);

    let mut poor = [(3, at(MAX_MATCH_SCORE + 1))];
    assert_eq!(choose_unique_icon_match(&mut poor), None);
}

#[test]
fn icon_match_leaves_candidates_sorted_by_score() {
    let mut candidates = [(1, at(500)), (8, at(800)), (3, at(120)), (5, at(130))];
    assert_eq!(choose_unique_icon_match(&mut candidates), None);
    assert_eq!(
        candidates,
        [(3, at(120)), (5, at(130)), (1, at(500)), (8, at(800))]
    );

    let mut clear = [(1, at(500)), (3, at(120))];
    assert_eq!(choose_unique_icon_match(&mut clear), Some((3, at(120))));
    assert_eq!(clear, [(3, at(120)), (1, at(500))]);
}

#[test]
fn visual_match_returns_the_actual_icon_position_not_the_click_center() {
    let background = 0x0014_1414;
    let icon_pixel = 0xffff_ffff;
    let icon = PixelBuffer {
        width: 3,
        height: 3,
        pixels: vec![icon_pixel; 9],
    };
    let mut screen_pixels = vec![background; 35];
    for row in 0..3 {
        for column in 0..3 {
            screen_pixels[((row + 1) * 7 + column + 3) as usize] = icon_pixel;
        }
    }
    let screen = PixelBuffer {
        width: 7,
        height: 5,
        pixels: screen_pixels,
    };

    assert_eq!(
        best_icon_match(&screen, &icon, 3, 2),
        Some(IconMatch {
            score: 0,
            x: 3,
            y: 1,
        })
    );
}

#[test]
fn icon_score_composites_premultiplied_pixels_only_once() {
    let background = 0x0014_1414;
    let premultiplied_green = 0x8000_6400;
    let composed_green = 0x0009_6d09;
    let icon = PixelBuffer {
        width: 3,
        height: 3,
        pixels: vec![premultiplied_green; 9],
    };
    let mut screen_pixels = vec![background; 25];
    for row in 0..3 {
        for column in 0..3 {
            screen_pixels[((row + 1) * 5 + column + 1) as usize] = composed_green;
        }
    }
    let screen = PixelBuffer {
        width: 5,
        height: 5,
        pixels: screen_pixels,
    };

    assert_eq!(icon_score_at(&screen, &icon, 1, 1), Some(0));
}

#[test]
fn taskbar_band_is_detected_without_relying_on_explorer_window_classes() {
    let monitor = Rect {
        left: 0,
        top: 0,
        right: 1920,
        bottom: 1080,
    };
    let work = Rect {
        bottom: 1040,
        ..monitor
    };

    assert!(is_taskbar_band(Point { x: 900, y: 1060 }, monitor, work));
    assert!(!is_taskbar_band(Point { x: 900, y: 900 }, monitor, work));
}

#[test]
fn taskbar_rectangle_and_scales_follow_the_work_area() {
    let monitor = Rect { left: 0, top: 0, right: 1920, bottom: 1080 };
    let work = Rect { bottom: 1032, ..monitor };
    let taskbar = taskbar_rect(Point { x: 10, y: 1050 }, monitor, work).expect("on the taskbar");
    assert_eq!(taskbar, Rect { left: 0, top: 1032, right: 1920, bottom: 1080 });
    assert_eq!(taskbar_rect(Point { x: 10, y: 10 }, monitor, work), None);
    let left_work = Rect { left: 60, ..monitor };
    assert_eq!(
        taskbar_rect(Point { x: 10, y: 10 }, monitor, left_work),
        Some(Rect { left: 0, top: 0, right: 60, bottom: 1080 })
    );
    assert_eq!(taskbar_icon_size(taskbar), 24);
    assert_eq!(taskbar_icon_size(Rect { left: 0, top: 0, right: 1920, bottom: 72 }), 36);
    assert_eq!(
        capture_bounds(Point { x: 500, y: 1050 }, taskbar),
        Rect { left: 500 - 22 - 24, top: 1032, right: 500 + 22 + 24 + 1, bottom: 1080 }
    );
}

#[test]
fn background_is_the_mean_of_the_corners() {
    let screen = PixelBuffer {
        width: 2,
        height: 2,
        pixels: vec![0x0000_0004, 0x0000_0008, 0x0004_0000, 0x0008_0100],
    };
    assert_eq!(taskbar_background(&screen), 0x0003_0003);
}

#[test]
fn pending_target_centers_the_button_on_the_matched_icon() {
    let taskbar = Rect { left: 0, top: 0, right: 1000, bottom: 2 };
    // A 2-pixel taskbar scales every length to one pixel.
    let point = Point { x: 50, y: 1 };
    let bounds = capture_bounds(point, taskbar);
    assert_eq!(bounds, Rect { left: 48, top: 0, right: 53, bottom: 2 });
    let mut pixels = vec![0u32; 10];
    pixels[2] = 0xffff_ffff;
    let capture = PixelBuffer { width: 5, height: 2, pixels };
    let icon = PixelBuffer { width: 1, height: 1, pixels: vec![0xffff_ffff] };
    let icons = vec![(4, Some(icon.clone()))];
    // One opaque pixel gives three channels, fewer than a score needs.
    assert!(take_pending_target(point, taskbar, &capture, &icons).is_none());
    assert!(take_pending_target(point, taskbar, &capture, &[(4, None)]).is_none());
}

#[test]
fn taskbar_window_classes_are_recognized() {
    assert!(adufa::taskbar::is_taskbar_window_class("Shell_TrayWnd"));
    assert!(adufa::taskbar::is_taskbar_window_class("Shell_SecondaryTrayWnd"));
    assert!(!adufa::taskbar::is_taskbar_window_class("Progman"));
    assert!(!adufa::taskbar::is_taskbar_window_class("shell_traywnd"));
}

#[test]
fn automation_buttons_need_a_name_and_the_click() {
    let bounds = Rect { left: 100, top: 1040, right: 144, bottom: 1080 };
    assert!(is_usable_button("Spotify", bounds, Point { x: 120, y: 1050 }));
    assert!(!is_usable_button("  ", bounds, Point { x: 120, y: 1050 }));
    assert!(!is_usable_button("Spotify", bounds, Point { x: 144, y: 1050 }));
    assert!(!is_usable_button("Spotify", Rect { right: 100, ..bounds }, Point { x: 100, y: 1050 }));
}

#[test]
fn matching_works_within_coordinate_limits() {
    let taskbar = Rect { left: 0, top: 1040, right: 1920, bottom: 1080 };
    assert!(within_matching_limits(Point { x: 120, y: 1050 }, taskbar));
    assert!(!within_matching_limits(Point { x: i32::MAX, y: 1050 }, taskbar));
    assert!(!within_matching_limits(Point { x: 1, y: 1 }, Rect { left: i32::MIN, ..taskbar }));
}
