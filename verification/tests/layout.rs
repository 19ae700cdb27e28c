use adufa::geometry::{Point, Rect};
use adufa::layout::{
    application_primary_text_bounds, clamp_popup_to_work_area, content_bounds_for_native_menu,
    hit_test_logical, hit_test_view_logical, is_native_taskbar_menu_class,
    preferred_native_menu_bounds, should_present_discovery_error, take_native_menu_after_route,
    target_for_navigation_index, target_for_view_navigation_index, taskbar_menu_probe, Page,
    Target, ACTION_ROW_HEIGHT, APPLICATION_ROW_HEIGHT, CONTENT_TOP_PADDING, EMPTY_CONTENT_HEIGHT,
    HEADER_ACTION_BOTTOM, HEADER_ACTION_LEFT, HEADER_ACTION_TOP, HEADER_HEIGHT,
    LANGUAGE_CONTENT_TOP, LANGUAGE_ROW_HEIGHT, SETTINGS_LANGUAGE_TOP,
};
use adufa::layout::is_plausible_menu_bounds;

#[test]
fn application_rows_have_distinct_hit_targets() {
    assert_eq!(
        hit_test_logical(20, HEADER_HEIGHT + CONTENT_TOP_PADDING + 3, 3),
        Some(Target::Application(0))
    );
    assert_eq!(
        hit_test_logical(
            20,
            HEADER_HEIGHT + CONTENT_TOP_PADDING + APPLICATION_ROW_HEIGHT + 3,
            3,
        ),
        Some(Target::Application(1))
    );
}

#[test]
fn application_list_keeps_eight_pixels_below_the_header_rule() {
    assert_eq!(
        hit_test_logical(20, HEADER_HEIGHT + CONTENT_TOP_PADDING - 1, 1),
        None
    );
    assert_eq!(
        hit_test_logical(20, HEADER_HEIGHT + CONTENT_TOP_PADDING, 1),
        Some(Target::Application(0))
    );
}

#[test]
fn row_text_stays_centered_with_its_application_icon_in_every_mode() {
    let row_top = 80;
    let (text_top, text_bottom) = application_primary_text_bounds(row_top);
    let text_center = (text_top + text_bottom) / 2;
    let icon_center = row_top + 10 + 12;

    assert_eq!(text_center, icon_center);
    assert_eq!(APPLICATION_ROW_HEIGHT, 44);
}

#[test]
fn settings_and_exit_are_clickable_even_when_no_apps_exist() {
    let top = HEADER_HEIGHT + CONTENT_TOP_PADDING + EMPTY_CONTENT_HEIGHT + 1;
    assert_eq!(hit_test_logical(20, top + 2, 0), Some(Target::Settings));
    assert_eq!(
        hit_test_logical(20, top + ACTION_ROW_HEIGHT + 2, 0),
        Some(Target::Exit)
    );
}

#[test]
fn settings_view_exposes_back_and_startup_as_separate_targets() {
    assert_eq!(hit_test_view_logical(20, 20, Page::Settings, 1), Some(Target::Back));
    assert_eq!(hit_test_view_logical(20, 84, Page::Settings, 1), None);
    assert_eq!(
        hit_test_view_logical(20, 100, Page::Settings, 1),
        Some(Target::Startup)
    );
}

#[test]
fn sound_locator_hit_area_matches_its_header_surface() {
    assert_eq!(
        hit_test_logical(HEADER_ACTION_LEFT, HEADER_ACTION_TOP, 1),
        Some(Target::HeaderLocator)
    );
    assert_eq!(hit_test_logical(276, 22, 1), Some(Target::HeaderLocator));
    assert_eq!(hit_test_logical(296, 22, 1), None);
    assert_eq!(hit_test_logical(276, HEADER_ACTION_BOTTOM, 1), None);
}

#[test]
fn brand_icon_is_centered_on_the_two_line_identity_block() {
    let icon_center = (14 + 50) / 2;
    let identity_center = (9 + 55) / 2;
    assert_eq!(icon_center, identity_center);
}

#[test]
fn two_line_brand_header_has_a_full_spacing_step_before_content() {
    assert_eq!(HEADER_HEIGHT, 64);
    assert_eq!(CONTENT_TOP_PADDING, 8);
}

#[test]
fn taskbar_companion_probes_inside_the_native_menu_above_a_bottom_taskbar() {
    let button = Rect {
        left: 1194,
        top: 1032,
        right: 1238,
        bottom: 1080,
    };
    let work = Rect {
        left: 0,
        top: 0,
        right: 2560,
        bottom: 1032,
    };

    assert_eq!(taskbar_menu_probe(button, work), Point { x: 1216, y: 1031 });
}

#[test]
fn only_known_native_menu_window_classes_are_used_as_companion_anchors() {
    assert!(is_native_taskbar_menu_class("Windows.UI.Core.CoreWindow"));
    assert!(is_native_taskbar_menu_class("Xaml_WindowedPopupClass"));
    assert!(is_native_taskbar_menu_class("#32768"));
    assert!(!is_native_taskbar_menu_class("CabinetWClass"));
}

#[test]
fn taskbar_companion_uses_the_visible_dwm_frame_instead_of_the_shadow_bounds() {
    let shadow_bounds = Rect {
        left: 80,
        top: 66,
        right: 384,
        bottom: 402,
    };
    let visible_bounds = Rect {
        left: 82,
        top: 79,
        right: 382,
        bottom: 400,
    };

    assert_eq!(
        preferred_native_menu_bounds(Some(visible_bounds), shadow_bounds),
        visible_bounds
    );
}

#[test]
fn xaml_jump_list_transparent_inset_is_removed_from_the_companion_anchor() {
    let host_bounds = Rect {
        left: 42,
        top: 23,
        right: 360,
        bottom: 375,
    };

    assert_eq!(
        content_bounds_for_native_menu("Windows.UI.Core.CoreWindow", host_bounds, 96),
        Rect {
            left: 54,
            top: 35,
            right: 348,
            bottom: 363,
        }
    );
    assert_eq!(
        content_bounds_for_native_menu("Xaml_WindowedPopupClass", host_bounds, 144),
        Rect {
            left: 60,
            top: 41,
            right: 342,
            bottom: 357,
        }
    );
    assert_eq!(
        content_bounds_for_native_menu("#32768", host_bounds, 96),
        host_bounds
    );
}

#[test]
fn native_menu_is_taken_only_after_an_output_route_is_accepted() {
    let native_menu = 123_isize;
    let mut pending = Some(native_menu);

    assert_eq!(take_native_menu_after_route(&mut pending, false), None);
    assert_eq!(pending, Some(native_menu));
    assert_eq!(
        take_native_menu_after_route(&mut pending, true),
        Some(native_menu)
    );
    assert_eq!(pending, None);
}

#[test]
fn settings_section_label_does_not_touch_the_startup_control() {
    assert_eq!(hit_test_view_logical(20, 84, Page::Settings, 1), None);
    assert_eq!(hit_test_view_logical(20, 88, Page::Settings, 1), Some(Target::Startup));
}

#[test]
fn settings_language_row_opens_a_dedicated_choice_view() {
    assert_eq!(
        hit_test_view_logical(20, SETTINGS_LANGUAGE_TOP, Page::Settings, 1),
        Some(Target::Language)
    );
    assert_eq!(
        target_for_view_navigation_index(3, Page::Settings, 1),
        Some(Target::Language)
    );

    assert_eq!(
        hit_test_view_logical(20, LANGUAGE_CONTENT_TOP, Page::Languages, 1),
        Some(Target::Locale(0))
    );
    assert_eq!(
        hit_test_view_logical(20, LANGUAGE_CONTENT_TOP + LANGUAGE_ROW_HEIGHT * 8, Page::Languages, 1),
        Some(Target::Locale(8))
    );
    assert_eq!(
        target_for_view_navigation_index(9, Page::Languages, 1),
        Some(Target::Locale(8))
    );
}

#[test]
fn quick_popup_flips_inside_the_monitor_work_area() {
    let work_area = Rect {
        left: 0,
        top: 0,
        right: 1920,
        bottom: 1040,
    };

    assert_eq!(
        clamp_popup_to_work_area(Point { x: 100, y: 100 }, 304, 260, 12, work_area),
        (112, 112)
    );
    assert_eq!(
        clamp_popup_to_work_area(Point { x: 1900, y: 1020 }, 304, 260, 12, work_area),
        (1584, 748)
    );
}

#[test]
fn keyboard_order_starts_with_locator_and_ends_with_actions() {
    assert_eq!(target_for_navigation_index(0, 2), Target::HeaderLocator);
    assert_eq!(target_for_navigation_index(1, 2), Target::Application(0));
    assert_eq!(target_for_navigation_index(3, 2), Target::Settings);
    assert_eq!(target_for_navigation_index(4, 2), Target::Exit);
}

#[test]
fn repeated_audio_discovery_failure_is_presented_once_per_episode() {
    let mut active_error = None;

    assert!(should_present_discovery_error(
        &mut active_error,
        "COM apartment mismatch"
    ));
    assert!(!should_present_discovery_error(
        &mut active_error,
        "COM apartment mismatch"
    ));
    assert!(should_present_discovery_error(
        &mut active_error,
        "Audio service unavailable"
    ));
}

#[test]
fn tray_popup_sits_in_the_work_area_corner() {
    let work = Rect { left: 0, top: 0, right: 1920, bottom: 1040 };
    assert_eq!(adufa::layout::tray_popup_origin(work, 304, 260, 96), (1600, 764));
    assert_eq!(adufa::layout::tray_popup_origin(work, 608, 520, 192), (1280, 488));
    assert_eq!(adufa::layout::tray_popup_origin(work, 304, 260, 72), (1600, 764));
}

#[test]
fn native_menu_bounds_must_look_like_a_menu() {
    assert!(is_plausible_menu_bounds(Rect { left: 10, top: 10, right: 310, bottom: 410 }));
    assert!(!is_plausible_menu_bounds(Rect { left: 10, top: 10, right: 10, bottom: 410 }));
    assert!(!is_plausible_menu_bounds(Rect { left: 0, top: 0, right: 801, bottom: 100 }));
    assert!(!is_plausible_menu_bounds(Rect { left: 0, top: 0, right: 100, bottom: 901 }));
}

#[test]
fn hit_testing_holds_for_the_largest_main_page() {
    let rows = 48_806_443;
    let content_top = HEADER_HEIGHT + CONTENT_TOP_PADDING;
    assert_eq!(hit_test_logical(20, content_top + 3, rows), Some(Target::Application(0)));
    assert_eq!(
        hit_test_logical(20, content_top + 44 * (rows as i32 - 1), rows),
        Some(Target::Application(rows - 1))
    );
    let actions_top = content_top + 44 * rows as i32 + 1;
    assert_eq!(hit_test_logical(20, actions_top, rows), Some(Target::Settings));
    assert_eq!(
        hit_test_logical(20, actions_top + ACTION_ROW_HEIGHT, rows),
        Some(Target::Exit)
    );
}
