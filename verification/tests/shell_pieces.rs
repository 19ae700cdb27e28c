use adufa::cursor::application_index_for_process;
use adufa::icons::{physical_size, tray_icon_pixels, TRAY_ACCENT, TRAY_BITMAP_SIZE, TRAY_FOREGROUND};
use adufa::startup::{startup_command, startup_state, startup_update_succeeded};
use adufa::symbols::Symbol;
use adufa::theme::{rgb, Theme};
use adufa::tray::{write_utf16, TrayEvent, TrayIcon, ICON_ID, WM_LBUTTONUP, WM_RBUTTONUP};
use adufa::icons::{image_list_order, ImageListSize};

#[test]
fn matches_process_to_its_application_row() {
    let rows: &[&[u32]] = &[&[11, 12], &[20], &[30, 31]];

    assert_eq!(application_index_for_process(20, rows), Some(1));
}

#[test]
fn returns_none_when_process_is_not_in_the_visible_rows() {
    let rows: &[&[u32]] = &[&[11, 12], &[20], &[]];

    assert_eq!(application_index_for_process(99, rows), None);
}

#[test]
fn first_matching_row_wins_for_duplicate_process_data() {
    let rows: &[&[u32]] = &[&[42], &[7, 42]];

    assert_eq!(application_index_for_process(42, rows), Some(0));
}

#[test]
fn tray_icon_contains_transparent_foreground_and_accent_pixels() {
    let pixels = tray_icon_pixels();
    assert_eq!(pixels.len(), TRAY_BITMAP_SIZE * TRAY_BITMAP_SIZE);
    assert!(pixels.contains(&0));
    assert!(pixels.iter().any(|pixel| pixel >> 24 == 0xFF));
    assert!(pixels.contains(&TRAY_ACCENT));
    assert!(pixels.contains(&TRAY_FOREGROUND));
    assert!(pixels.contains(&0xFF7C_8796));
}

#[test]
fn tray_glyph_cells_cover_two_by_two_pixels() {
    let pixels = tray_icon_pixels();
    // Glyph row 2, column 10 is accent: pixels (20..22, 4..6).
    for (x, y) in [(20, 4), (21, 4), (20, 5), (21, 5)] {
        assert_eq!(pixels[y * 32 + x], TRAY_ACCENT);
    }
    assert_eq!(pixels[0], 0);
}

#[test]
fn icon_physical_size_rounds_up_and_respects_minimums() {
    assert_eq!(physical_size(24, 96), 24);
    assert_eq!(physical_size(24, 144), 36);
    assert_eq!(physical_size(24, 120), 30);
    assert_eq!(physical_size(10, 100), 11);
    assert_eq!(physical_size(0, 10), 1);
    assert_eq!(physical_size(i32::MAX, u32::MAX), i32::MAX);
}

#[test]
fn startup_command_quotes_paths_with_spaces() {
    assert_eq!(
        startup_command(r"C:\Program Files\Adufa\Adufa.exe"),
        r#""C:\Program Files\Adufa\Adufa.exe""#
    );
}

#[test]
fn startup_registry_answers_are_interpreted() {
    assert_eq!(startup_state(0), Some(true));
    assert_eq!(startup_state(2), Some(false));
    assert_eq!(startup_state(5), None);
    assert!(startup_update_succeeded(true, 0));
    assert!(!startup_update_succeeded(true, 2));
    assert!(startup_update_succeeded(false, 2));
}

#[test]
fn recognizes_primary_and_secondary_tray_activation() {
    assert_eq!(
        TrayIcon::event(WM_LBUTTONUP as isize),
        Some(TrayEvent::Activate)
    );
    assert_eq!(
        TrayIcon::event(WM_RBUTTONUP as isize),
        Some(TrayEvent::Activate)
    );
    assert_eq!(
        TrayIcon::event(((ICON_ID << 16) | WM_LBUTTONUP) as isize),
        Some(TrayEvent::Activate)
    );
    assert_eq!(TrayIcon::event(0), None);
}

#[test]
fn tooltip_copy_is_null_terminated_and_bounded() {
    let mut buffer = [u16::MAX; 8];
    write_utf16(&mut buffer, "123456789");
    assert_eq!(&buffer[..7], &"1234567".encode_utf16().collect::<Vec<_>>());
    assert_eq!(buffer[7], 0);
}

#[test]
fn tooltips_are_encoded_as_utf16() {
    let mut icon = TrayIcon::add(1, 2, "Adufa");
    assert_eq!(&icon.tooltip[..6], &[65, 100, 117, 102, 97, 0]);
    icon.set_tooltip("\u{1F3A7}");
    assert_eq!(&icon.tooltip[..3], &"\u{1F3A7}".encode_utf16().chain([0]).collect::<Vec<_>>()[..]);
}

#[test]
fn dark_theme_colors_are_colorrefs() {
    assert_eq!(rgb(1, 2, 3), 0x0003_0201);
    let theme = Theme::dark();
    assert_eq!(theme.surface, 30 | (32 << 8) | (36 << 16));
    assert_eq!(theme.accent, 96 | (156 << 8) | (255 << 16));
}

#[test]
fn symbols_use_fluent_code_points() {
    assert_eq!(Symbol::Volume.glyph(), '\u{E767}');
    assert_eq!(Symbol::SoundLocator.glyph(), '\0');
    assert_eq!(Symbol::OpenExternal.glyph(), '\u{E8A7}');
}

#[test]
fn icons_come_from_the_smallest_image_list_that_is_large_enough() {
    assert_eq!(image_list_order(24), [ImageListSize::Large, ImageListSize::ExtraLarge, ImageListSize::Jumbo]);
    assert_eq!(image_list_order(32), [ImageListSize::Large, ImageListSize::ExtraLarge, ImageListSize::Jumbo]);
    assert_eq!(image_list_order(40), [ImageListSize::ExtraLarge, ImageListSize::Jumbo, ImageListSize::Large]);
    assert_eq!(image_list_order(96), [ImageListSize::Jumbo, ImageListSize::ExtraLarge, ImageListSize::Large]);
}
