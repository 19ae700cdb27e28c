//! Geometry, hit testing and keyboard order of the compact tray popup.
//!
//! All coordinates are 96-DPI logical units unless a function says otherwise.

use vstd::prelude::*;

use crate::geometry::{
    clamp_int, max_int, max_i32, trunc_div, Point, Rect,
};
use crate::text::text_eq;

verus! {

pub const WINDOW_WIDTH: i32 = 304;
pub const HEADER_HEIGHT: i32 = 64;
pub const CONTENT_TOP_PADDING: i32 = 8;
pub const APPLICATION_ROW_HEIGHT: i32 = 44;
pub const EMPTY_CONTENT_HEIGHT: i32 = 48;
pub const ACTION_ROW_HEIGHT: i32 = 38;
pub const BOTTOM_PADDING: i32 = 8;
pub const HEADER_ACTION_LEFT: i32 = 184;
pub const HEADER_ACTION_TOP: i32 = 12;
pub const HEADER_ACTION_BOTTOM: i32 = 52;
pub const SETTINGS_CONTENT_HEIGHT: i32 = 304;
pub const SETTINGS_STARTUP_TOP: i32 = 88;
pub const SETTINGS_STARTUP_BOTTOM: i32 = 144;
pub const SETTINGS_MIXER_TOP: i32 = 240;
pub const SETTINGS_MIXER_BOTTOM: i32 = 296;
pub const SETTINGS_LANGUAGE_TOP: i32 = 304;
pub const SETTINGS_LANGUAGE_BOTTOM: i32 = 360;
pub const LANGUAGE_ROW_HEIGHT: i32 = 32;
pub const LANGUAGE_CONTENT_TOP: i32 = HEADER_HEIGHT + 4;
pub const LANGUAGE_CHOICE_COUNT: usize = 9;
pub const XAML_MENU_CONTENT_INSET: i32 = 12;
/// The most application rows whose main page height fits in 32-bit
/// coordinates.
pub const MAX_LAYOUT_ROWS: usize = 48_806_442;

/// An interactive element of the popup.
#[derive(Clone, Copy, Debug, Eq, PartialEq, Structural)]
pub enum Target {
    HeaderLocator,
    Application(usize),
    Settings,
    Exit,
    Back,
    Startup,
    WindowsMixer,
    Language,
    Locale(usize),
}

/// The page the popup currently shows.
#[derive(Clone, Copy, Debug, Eq, PartialEq, Structural)]
pub enum Page {
    Main,
    Settings,
    Languages,
}

/// Height of the application list for `n` rows.
pub open spec fn content_height_of(n: int) -> int {
    if n == 0 {
        EMPTY_CONTENT_HEIGHT as int
    } else {
        APPLICATION_ROW_HEIGHT * n
    }
}

/// Top of the Settings/Exit action rows for `n` application rows.
pub open spec fn actions_top_of(n: int) -> int {
    HEADER_HEIGHT + CONTENT_TOP_PADDING + content_height_of(n) + 1
}

/// Height of the whole popup page.
pub open spec fn logical_height_of(view: Page, n: int) -> int {
    match view {
        Page::Main => actions_top_of(n) + ACTION_ROW_HEIGHT * 2 + BOTTOM_PADDING,
        Page::Settings => HEADER_HEIGHT + SETTINGS_CONTENT_HEIGHT + BOTTOM_PADDING,
        Page::Languages => LANGUAGE_CONTENT_TOP + LANGUAGE_ROW_HEIGHT * LANGUAGE_CHOICE_COUNT
            + BOTTOM_PADDING,
    }
}

/// Number of keyboard stops on a page.
pub open spec fn navigation_count_of(view: Page, n: int) -> int {
    match view {
        Page::Main => n + 3,
        Page::Settings => 4,
        Page::Languages => LANGUAGE_CHOICE_COUNT + 1,
    }
}

/// The element of the main page at a logical point.
pub open spec fn main_target_at(x: int, y: int, n: int) -> Option<Target> {
    let content_top = HEADER_HEIGHT + CONTENT_TOP_PADDING;
    let actions_top = actions_top_of(n);
    if HEADER_ACTION_LEFT <= x < 296 && HEADER_ACTION_TOP <= y < HEADER_ACTION_BOTTOM {
        Some(Target::HeaderLocator)
    } else if !(8 <= x < 296) {
        None
    } else if n > 0 && content_top <= y < content_top + content_height_of(n) {
        Some(Target::Application(((y - content_top) / APPLICATION_ROW_HEIGHT as int) as usize))
    } else if actions_top <= y < actions_top + ACTION_ROW_HEIGHT {
        Some(Target::Settings)
    } else if actions_top + ACTION_ROW_HEIGHT <= y < actions_top + ACTION_ROW_HEIGHT * 2 {
        Some(Target::Exit)
    } else {
        None
    }
}

/// The element of any page at a logical point.
pub open spec fn view_target_at(x: int, y: int, view: Page, n: int) -> Option<Target> {
    match view {
        Page::Main => main_target_at(x, y, n),
        Page::Settings => if 8 <= x < 48 && 8 <= y < 52 {
            Some(Target::Back)
        } else if 8 <= x < 296 && SETTINGS_STARTUP_TOP <= y < SETTINGS_STARTUP_BOTTOM {
            Some(Target::Startup)
        } else if 8 <= x < 296 && SETTINGS_MIXER_TOP <= y < SETTINGS_MIXER_BOTTOM {
            Some(Target::WindowsMixer)
        } else if 8 <= x < 296 && SETTINGS_LANGUAGE_TOP <= y < SETTINGS_LANGUAGE_BOTTOM {
            Some(Target::Language)
        } else {
            None
        },
        Page::Languages => if 8 <= x < 48 && 8 <= y < 52 {
            Some(Target::Back)
        } else if 8 <= x < 296 && LANGUAGE_CONTENT_TOP <= y < LANGUAGE_CONTENT_TOP
            + LANGUAGE_ROW_HEIGHT * LANGUAGE_CHOICE_COUNT {
            Some(Target::Locale(((y - LANGUAGE_CONTENT_TOP) / LANGUAGE_ROW_HEIGHT as int) as usize))
        } else {
            None
        },
    }
}

/// The element reached at keyboard position `index` of the main page.
pub open spec fn main_target_for_index(index: int, n: int) -> Target {
    if index == 0 {
        Target::HeaderLocator
    } else if index <= n {
        Target::Application((index - 1) as usize)
    } else if index == n + 1 {
        Target::Settings
    } else {
        Target::Exit
    }
}

/// The element reached at keyboard position `index` of any page.
pub open spec fn view_target_for_index(index: int, view: Page, n: int) -> Option<Target> {
    match view {
        Page::Main => Some(main_target_for_index(index, n)),
        Page::Settings => if index == 0 {
            Some(Target::Back)
        } else if index == 1 {
            Some(Target::Startup)
        } else if index == 2 {
            Some(Target::WindowsMixer)
        } else if index == 3 {
            Some(Target::Language)
        } else {
            None
        },
        Page::Languages => if index == 0 {
            Some(Target::Back)
        } else if index <= LANGUAGE_CHOICE_COUNT {
            Some(Target::Locale((index - 1) as usize))
        } else {
            None
        },
    }
}

/// The keyboard position of `target` on a page, if it is there.
pub open spec fn index_for_target(target: Target, view: Page, n: int) -> Option<int> {
    match (view, target) {
        (Page::Main, Target::HeaderLocator) => Some(0),
        (Page::Main, Target::Application(i)) => Some(i + 1),
        (Page::Main, Target::Settings) => Some(n + 1),
        (Page::Main, Target::Exit) => Some(n + 2),
        (Page::Settings, Target::Back) => Some(0),
        (Page::Settings, Target::Startup) => Some(1),
        (Page::Settings, Target::WindowsMixer) => Some(2),
        (Page::Settings, Target::Language) => Some(3),
        (Page::Languages, Target::Back) => Some(0),
        (Page::Languages, Target::Locale(i)) => if i < LANGUAGE_CHOICE_COUNT {
            Some(i + 1)
        } else {
            None
        },
        _ => None,
    }
}

/// Height of the application list for `application_count` rows.
pub fn content_height(application_count: usize) -> (h: i32)
    requires
        APPLICATION_ROW_HEIGHT * application_count <= i32::MAX,
    ensures
        h == content_height_of(application_count as int),
{
    if application_count == 0 {
        EMPTY_CONTENT_HEIGHT
    } else {
        APPLICATION_ROW_HEIGHT * application_count as i32
    }
}

/// Top of the action rows below the application list.
pub fn actions_top(application_count: usize) -> (top: i32)
    requires
        actions_top_of(application_count as int) <= i32::MAX,
    ensures
        top == actions_top_of(application_count as int),
{
    HEADER_HEIGHT + CONTENT_TOP_PADDING + content_height(application_count) + 1
}

/// Logical height of a page.
pub fn logical_height(view: Page, application_count: usize) -> (h: i32)
    requires
        logical_height_of(view, application_count as int) <= i32::MAX,
    ensures
        h == logical_height_of(view, application_count as int),
{
    match view {
        Page::Main => actions_top(application_count) + ACTION_ROW_HEIGHT * 2 + BOTTOM_PADDING,
        Page::Settings => HEADER_HEIGHT + SETTINGS_CONTENT_HEIGHT + BOTTOM_PADDING,
        Page::Languages => LANGUAGE_CONTENT_TOP + LANGUAGE_ROW_HEIGHT * LANGUAGE_CHOICE_COUNT as i32
            + BOTTOM_PADDING,
    }
}

/// Number of keyboard stops on a page.
pub fn navigation_count(view: Page, application_count: usize) -> (count: usize)
    requires
        navigation_count_of(view, application_count as int) <= usize::MAX,
    ensures
        count == navigation_count_of(view, application_count as int),
{
    match view {
        Page::Main => application_count + 3,
        Page::Settings => 4,
        Page::Languages => LANGUAGE_CHOICE_COUNT + 1,
    }
}

/// The element of the main page at a logical point.
pub fn hit_test_logical(x: i32, y: i32, application_count: usize) -> (t: Option<Target>)
    requires
        actions_top_of(application_count as int) + ACTION_ROW_HEIGHT * 2 <= i32::MAX,
    ensures
        t == main_target_at(x as int, y as int, application_count as int),
{
    if HEADER_ACTION_LEFT <= x && x < 296 && HEADER_ACTION_TOP <= y && y < HEADER_ACTION_BOTTOM {
        return Some(Target::HeaderLocator);
    }
    if !(8 <= x && x < 296) {
        return None;
    }
    let content_height = content_height(application_count);
    let content_top = HEADER_HEIGHT + CONTENT_TOP_PADDING;
    if application_count > 0 && content_top <= y && y < content_top + content_height {
        return Some(Target::Application(((y - content_top) / APPLICATION_ROW_HEIGHT) as usize));
    }
    let actions_top = content_top + content_height + 1;
    if actions_top <= y && y < actions_top + ACTION_ROW_HEIGHT {
        return Some(Target::Settings);
    }
    if actions_top + ACTION_ROW_HEIGHT <= y && y < actions_top + ACTION_ROW_HEIGHT * 2 {
        return Some(Target::Exit);
    }
    None
}

/// The element of a page at a logical point.
pub fn hit_test_view_logical(x: i32, y: i32, view: Page, application_count: usize) -> (t: Option<
    Target,
>)
    requires
        view == Page::Main ==> actions_top_of(application_count as int) + ACTION_ROW_HEIGHT * 2
            <= i32::MAX,
    ensures
        t == view_target_at(x as int, y as int, view, application_count as int),
{
    match view {
        Page::Main => hit_test_logical(x, y, application_count),
        Page::Settings => {
            if 8 <= x && x < 48 && 8 <= y && y < 52 {
                Some(Target::Back)
            } else if 8 <= x && x < 296 && SETTINGS_STARTUP_TOP <= y && y < SETTINGS_STARTUP_BOTTOM {
                Some(Target::Startup)
            } else if 8 <= x && x < 296 && SETTINGS_MIXER_TOP <= y && y < SETTINGS_MIXER_BOTTOM {
                Some(Target::WindowsMixer)
            } else if 8 <= x && x < 296 && SETTINGS_LANGUAGE_TOP <= y && y
                < SETTINGS_LANGUAGE_BOTTOM {
                Some(Target::Language)
            } else {
                None
            }
        },
        Page::Languages => {
            if 8 <= x && x < 48 && 8 <= y && y < 52 {
                Some(Target::Back)
            } else if 8 <= x && x < 296 && LANGUAGE_CONTENT_TOP <= y && y < LANGUAGE_CONTENT_TOP
                + LANGUAGE_ROW_HEIGHT * LANGUAGE_CHOICE_COUNT as i32 {
                Some(Target::Locale(((y - LANGUAGE_CONTENT_TOP) / LANGUAGE_ROW_HEIGHT) as usize))
            } else {
                None
            }
        },
    }
}

/// The element under a physical point of a page drawn at `dpi`.
pub fn target_at(x: i32, y: i32, dpi: u32, view: Page, application_count: usize) -> (t: Option<
    Target,
>)
    requires
        view == Page::Main ==> actions_top_of(application_count as int) + ACTION_ROW_HEIGHT * 2
            <= i32::MAX,
        0 < dpi <= i32::MAX,
        i32::MIN <= x * 96 <= i32::MAX,
        i32::MIN <= y * 96 <= i32::MAX,
    ensures
        t == view_target_at(
            trunc_div(x * 96, dpi as int),
            trunc_div(y * 96, dpi as int),
            view,
            application_count as int,
        ),
{
    let d = dpi as i32;
    hit_test_view_logical(x * 96 / d, y * 96 / d, view, application_count)
}

/// The element reached at keyboard position `index` of the main page.
pub fn target_for_navigation_index(index: usize, application_count: usize) -> (t: Target)
    requires
        application_count < usize::MAX,
    ensures
        t == main_target_for_index(index as int, application_count as int),
{
    if index == 0 {
        Target::HeaderLocator
    } else if index <= application_count {
        Target::Application(index - 1)
    } else if index == application_count + 1 {
        Target::Settings
    } else {
        Target::Exit
    }
}

/// The element reached at keyboard position `index` of a page.
pub fn target_for_view_navigation_index(index: usize, view: Page, application_count: usize) -> (t:
    Option<Target>)
    requires
        view == Page::Main ==> application_count < usize::MAX,
    ensures
        t == view_target_for_index(index as int, view, application_count as int),
{
    match view {
        Page::Main => Some(target_for_navigation_index(index, application_count)),
        Page::Settings => match index {
            0 => Some(Target::Back),
            1 => Some(Target::Startup),
            2 => Some(Target::WindowsMixer),
            3 => Some(Target::Language),
            _ => None,
        },
        Page::Languages => {
            if index == 0 {
                Some(Target::Back)
            } else if index <= LANGUAGE_CHOICE_COUNT {
                Some(Target::Locale(index - 1))
            } else {
                None
            }
        },
    }
}

/// The keyboard position of `target` on a page, if it is there.
pub fn navigation_index_for_target(target: Target, view: Page, application_count: usize) -> (r:
    Option<usize>)
    requires
        view == Page::Main ==> application_count + 2 <= usize::MAX,
        target matches Target::Application(i) ==> i < usize::MAX,
    ensures
        match r {
            Some(i) => index_for_target(target, view, application_count as int) == Some(i as int),
            None => index_for_target(target, view, application_count as int) is None,
        },
{
    match (view, target) {
        (Page::Main, Target::HeaderLocator) => Some(0),
        (Page::Main, Target::Application(index)) => Some(index + 1),
        (Page::Main, Target::Settings) => Some(application_count + 1),
        (Page::Main, Target::Exit) => Some(application_count + 2),
        (Page::Settings, Target::Back) => Some(0),
        (Page::Settings, Target::Startup) => Some(1),
        (Page::Settings, Target::WindowsMixer) => Some(2),
        (Page::Settings, Target::Language) => Some(3),
        (Page::Languages, Target::Back) => Some(0),
        (Page::Languages, Target::Locale(index)) => {
            if index < LANGUAGE_CHOICE_COUNT {
                Some(index + 1)
            } else {
                None
            }
        },
        _ => None,
    }
}

/// Every keyboard stop of a page leads to an element whose keyboard position
/// is that stop, and every element of a page is reached from its own stop.
pub proof fn law_navigation_round_trip(index: int, view: Page, n: int)
    requires
        0 <= n < usize::MAX,
        0 <= index < navigation_count_of(view, n),
    ensures
        view_target_for_index(index, view, n) is Some,
        index_for_target(view_target_for_index(index, view, n)->0, view, n) == Some(index),
{
}

/// Each application row is hit by a point at the top of its own row: rows
/// are stacked without gaps below the header.
pub proof fn law_application_rows_are_hit_at_their_top(i: int, n: int)
    requires
        0 <= i < n,
    ensures
        main_target_at(20, HEADER_HEIGHT + CONTENT_TOP_PADDING + APPLICATION_ROW_HEIGHT * i, n)
            == Some(Target::Application(i as usize)),
{
    let y = HEADER_HEIGHT + CONTENT_TOP_PADDING + APPLICATION_ROW_HEIGHT * i;
    assert(APPLICATION_ROW_HEIGHT * i < APPLICATION_ROW_HEIGHT * n) by (nonlinear_arith)
        requires
            0 <= i < n,
    ;
    assert((y - (HEADER_HEIGHT + CONTENT_TOP_PADDING)) / APPLICATION_ROW_HEIGHT as int == i) by (
    nonlinear_arith)
        requires
            y - (HEADER_HEIGHT + CONTENT_TOP_PADDING) == APPLICATION_ROW_HEIGHT * i,
    ;
}

/// Keeps a keyboard position on a page that now has `count` stops.
pub fn clamp_focus(focus: usize, count: usize) -> (r: usize)
    ensures
        r == if count == 0 {
            0
        } else if focus < count {
            focus as int
        } else {
            count - 1
        },
{
    let last = if count == 0 {
        0
    } else {
        count - 1
    };
    if focus < last {
        focus
    } else {
        last
    }
}

/// Vertical extent of the two-line text block of a row whose top is `row_top`.
pub fn application_primary_text_bounds(row_top: i32) -> (r: (i32, i32))
    requires
        row_top + APPLICATION_ROW_HEIGHT <= i32::MAX,
    ensures
        r == (row_top, (row_top + APPLICATION_ROW_HEIGHT) as i32),
{
    (row_top, row_top + APPLICATION_ROW_HEIGHT)
}

/// Where to look for the native menu that Explorer opens for a taskbar button.
pub open spec fn menu_probe_of(button: Rect, work: Rect) -> Point {
    let center_x = button.left + trunc_div(button.right - button.left, 2);
    let center_y = button.top + trunc_div(button.bottom - button.top, 2);
    if button.top >= work.bottom {
        Point { x: center_x as i32, y: (button.top - 1) as i32 }
    } else if button.bottom <= work.top {
        Point { x: center_x as i32, y: button.bottom }
    } else if button.left >= work.right {
        Point { x: (button.left - 1) as i32, y: center_y as i32 }
    } else {
        Point { x: button.right, y: center_y as i32 }
    }
}

/// The point just beside a taskbar button, towards the work area, at which
/// the native taskbar menu is expected.
pub fn taskbar_menu_probe(button: Rect, work: Rect) -> (p: Point)
    requires
        i32::MIN <= button.right - button.left <= i32::MAX,
        i32::MIN <= button.bottom - button.top <= i32::MAX,
        button.top > i32::MIN,
        button.left > i32::MIN,
    ensures
        p == menu_probe_of(button, work),
{
    let center_x = button.left + (button.right - button.left) / 2;
    let center_y = button.top + (button.bottom - button.top) / 2;
    if button.top >= work.bottom {
        Point { x: center_x, y: button.top - 1 }
    } else if button.bottom <= work.top {
        Point { x: center_x, y: button.bottom }
    } else if button.left >= work.right {
        Point { x: button.left - 1, y: center_y }
    } else {
        Point { x: button.right, y: center_y }
    }
}

/// Whether a top-level window class is one of Explorer's native taskbar menus.
pub open spec fn is_native_menu_class(c: Seq<char>) -> bool {
    c == "Windows.UI.Core.CoreWindow"@ || c == "Xaml_WindowedPopupClass"@ || c == "#32768"@
}

/// Whether a window class can anchor the taskbar companion.
pub fn is_native_taskbar_menu_class(class_name: &str) -> (r: bool)
    ensures
        r == is_native_menu_class(class_name@),
{
    text_eq(class_name, "Windows.UI.Core.CoreWindow") || text_eq(class_name, "Xaml_WindowedPopupClass")
        || text_eq(class_name, "#32768")
}

/// The visible frame when the window manager reports a non-empty one, else
/// the window bounds including their shadow.
pub fn preferred_native_menu_bounds(extended_bounds: Option<Rect>, shadow_bounds: Rect) -> (r: Rect)
    ensures
        r == match extended_bounds {
            Some(b) => if b.right > b.left && b.bottom > b.top {
                b
            } else {
                shadow_bounds
            },
            None => shadow_bounds,
        },
{
    match extended_bounds {
        Some(b) => {
            if b.right > b.left && b.bottom > b.top {
                b
            } else {
                shadow_bounds
            }
        },
        None => shadow_bounds,
    }
}

/// The content rectangle of a native menu host: XAML hosts draw a transparent
/// inset around their content, which is removed when it leaves a non-empty
/// rectangle.
pub open spec fn menu_content_of(class_name: Seq<char>, host: Rect, dpi: int) -> Rect {
    let inset = XAML_MENU_CONTENT_INSET * max_int(dpi, 96) / 96;
    let content = Rect {
        left: (host.left + inset) as i32,
        top: (host.top + inset) as i32,
        right: (host.right - inset) as i32,
        bottom: (host.bottom - inset) as i32,
    };
    if !(class_name == "Windows.UI.Core.CoreWindow"@ || class_name == "Xaml_WindowedPopupClass"@) {
        host
    } else if host.right - inset > host.left + inset && host.bottom - inset > host.top + inset {
        content
    } else {
        host
    }
}

/// Removes the transparent inset that XAML menu hosts draw around their content.
pub fn content_bounds_for_native_menu(class_name: &str, host_bounds: Rect, dpi: u32) -> (r: Rect)
    requires
        dpi <= 100_000,
        i32::MIN + 12_500 <= host_bounds.left <= i32::MAX - 12_500,
        i32::MIN + 12_500 <= host_bounds.top <= i32::MAX - 12_500,
        i32::MIN + 12_500 <= host_bounds.right <= i32::MAX - 12_500,
        i32::MIN + 12_500 <= host_bounds.bottom <= i32::MAX - 12_500,
    ensures
        r == menu_content_of(class_name@, host_bounds, dpi as int),
{
    if !(text_eq(class_name, "Windows.UI.Core.CoreWindow") || text_eq(
        class_name,
        "Xaml_WindowedPopupClass",
    )) {
        return host_bounds;
    }
    let d: i32 = if dpi < 96 {
        96
    } else {
        dpi as i32
    };
    let inset = XAML_MENU_CONTENT_INSET * d / 96;
    let content_bounds = Rect {
        left: host_bounds.left + inset,
        top: host_bounds.top + inset,
        right: host_bounds.right - inset,
        bottom: host_bounds.bottom - inset,
    };
    if content_bounds.right > content_bounds.left && content_bounds.bottom > content_bounds.top {
        content_bounds
    } else {
        host_bounds
    }
}

/// The origin of a popup of the given size placed beside `point`, flipped to
/// the other side where it would leave the work area, then kept inside it.
pub open spec fn popup_origin_near(point: Point, width: int, height: int, gap: int, work: Rect) -> (
    int,
    int,
) {
    let preferred_x = if point.x + gap + width <= work.right {
        point.x + gap
    } else {
        point.x - gap - width
    };
    let preferred_y = if point.y + gap + height <= work.bottom {
        point.y + gap
    } else {
        point.y - gap - height
    };
    (
        clamp_int(preferred_x, work.left as int, max_int(work.right - width, work.left as int)),
        clamp_int(preferred_y, work.top as int, max_int(work.bottom - height, work.top as int)),
    )
}

/// Places a popup beside `point` inside `work_area`.
pub fn clamp_popup_to_work_area(point: Point, width: i32, height: i32, gap: i32, work_area: Rect) -> (r:
    (i32, i32))
    requires
        i32::MIN <= point.x + gap <= i32::MAX,
        i32::MIN <= point.x - gap <= i32::MAX,
        i32::MIN <= point.y + gap <= i32::MAX,
        i32::MIN <= point.y - gap <= i32::MAX,
        i32::MIN <= point.x - gap - width <= i32::MAX,
        i32::MIN <= point.x + gap + width <= i32::MAX,
        i32::MIN <= point.y - gap - height <= i32::MAX,
        i32::MIN <= point.y + gap + height <= i32::MAX,
        i32::MIN <= work_area.right - width <= i32::MAX,
        i32::MIN <= work_area.bottom - height <= i32::MAX,
    ensures
        (r.0 as int, r.1 as int) == popup_origin_near(point, width as int, height as int, gap as int, work_area),
        work_area.left <= r.0,
        work_area.top <= r.1,
{
    let preferred_x = if point.x + gap + width <= work_area.right {
        point.x + gap
    } else {
        point.x - gap - width
    };
    let preferred_y = if point.y + gap + height <= work_area.bottom {
        point.y + gap
    } else {
        point.y - gap - height
    };
    let maximum_x = max_i32(work_area.right - width, work_area.left);
    let maximum_y = max_i32(work_area.bottom - height, work_area.top);
    (
        crate::geometry::clamp_i32(preferred_x, work_area.left, maximum_x),
        crate::geometry::clamp_i32(preferred_y, work_area.top, maximum_y),
    )
}

/// The margin between the tray popup and the work area's corner, at `dpi`.
pub open spec fn tray_margin(dpi: int) -> int {
    16 * (if dpi < 96 { 96 } else { dpi }) / 96
}

/// The origin of the tray popup: the bottom-right corner of the work area,
/// inset by the margin.
pub fn tray_popup_origin(work_area: Rect, width: i32, height: i32, dpi: u32) -> (r: (i32, i32))
    requires
        16 * dpi <= i32::MAX,
        i32::MIN <= work_area.right - width <= i32::MAX,
        i32::MIN <= work_area.bottom - height <= i32::MAX,
        i32::MIN <= work_area.right - width - tray_margin(dpi as int) <= i32::MAX,
        i32::MIN <= work_area.bottom - height - tray_margin(dpi as int) <= i32::MAX,
    ensures
        r.0 == work_area.right - width - tray_margin(dpi as int),
        r.1 == work_area.bottom - height - tray_margin(dpi as int),
{
    let d: i32 = if dpi < 96 {
        96
    } else {
        dpi as i32
    };
    let margin = 16 * d / 96;
    (work_area.right - width - margin, work_area.bottom - height - margin)
}

/// Whether `tray_popup_origin` can place a popup of this size in 32-bit
/// coordinates.
pub fn tray_popup_fits(work_area: Rect, width: i32, height: i32, dpi: u32) -> (b: bool)
    ensures
        b == (16 * dpi <= i32::MAX && i32::MIN <= work_area.right - width <= i32::MAX && i32::MIN
            <= work_area.bottom - height <= i32::MAX && i32::MIN <= work_area.right - width
            - tray_margin(dpi as int) <= i32::MAX && i32::MIN <= work_area.bottom - height
            - tray_margin(dpi as int) <= i32::MAX),
{
    if dpi > 0x7FFF_FFFF / 16 {
        return false;
    }
    let d: i64 = if dpi < 96 {
        96
    } else {
        dpi as i64
    };
    let margin = 16 * d / 96;
    let x = work_area.right as i64 - width as i64;
    let y = work_area.bottom as i64 - height as i64;
    let low = i32::MIN as i64;
    let high = i32::MAX as i64;
    low <= x && x <= high && low <= y && y <= high && low <= x - margin && x - margin <= high && low
        <= y - margin && y - margin <= high
}

/// Whether `content_bounds_for_native_menu` can inset these host bounds at
/// `dpi` in 32-bit coordinates.
pub fn native_menu_bounds_fit(host_bounds: Rect, dpi: u32) -> (b: bool)
    ensures
        b == (dpi <= 100_000 && i32::MIN + 12_500 <= host_bounds.left <= i32::MAX - 12_500
            && i32::MIN + 12_500 <= host_bounds.top <= i32::MAX - 12_500 && i32::MIN + 12_500
            <= host_bounds.right <= i32::MAX - 12_500 && i32::MIN + 12_500 <= host_bounds.bottom
            <= i32::MAX - 12_500),
{
    let low = i32::MIN + 12_500;
    let high = i32::MAX - 12_500;
    dpi <= 100_000 && low <= host_bounds.left && host_bounds.left <= high && low <= host_bounds.top
        && host_bounds.top <= high && low <= host_bounds.right && host_bounds.right <= high && low
        <= host_bounds.bottom && host_bounds.bottom <= high
}

/// Whether the bounds found for a native taskbar menu are those of a menu:
/// not empty, at most 800 pixels wide and 900 high.
pub open spec fn plausible_menu_bounds(bounds: Rect) -> bool {
    let width = bounds.right - bounds.left;
    let height = bounds.bottom - bounds.top;
    0 < width <= 800 && 0 < height <= 900
}

/// Decides whether native menu bounds are plausible.
pub fn is_plausible_menu_bounds(bounds: Rect) -> (r: bool)
    ensures
        r == plausible_menu_bounds(bounds),
{
    let width = bounds.right as i64 - bounds.left as i64;
    let height = bounds.bottom as i64 - bounds.top as i64;
    width > 0 && width <= 800 && height > 0 && height <= 900
}

/// A popup no larger than the work area is placed entirely inside it.
pub proof fn law_popup_fits_work_area(point: Point, width: int, height: int, gap: int, work: Rect)
    requires
        0 <= width <= work.right - work.left,
        0 <= height <= work.bottom - work.top,
    ensures
        work.left <= popup_origin_near(point, width, height, gap, work).0,
        popup_origin_near(point, width, height, gap, work).0 + width <= work.right,
        work.top <= popup_origin_near(point, width, height, gap, work).1,
        popup_origin_near(point, width, height, gap, work).1 + height <= work.bottom,
{
}

/// Decides whether a failed discovery must be shown: the same failure is
/// presented once per episode.
pub fn should_present_discovery_error(active_error: &mut Option<String>, error: &str) -> (r: bool)
    ensures
        r == !(match *old(active_error) {
            Some(e) => e@ == error@,
            None => false,
        }),
        match *final(active_error) {
            Some(e) => e@ == error@,
            None => false,
        },
{
    let same = match active_error {
        Some(e) => text_eq(e.as_str(), error),
        None => false,
    };
    if same {
        return false;
    }
    *active_error = Some(error.to_owned());
    true
}

/// Hands over the pending native menu only once a route was accepted.
pub fn take_native_menu_after_route<T>(native_menu: &mut Option<T>, accepted: bool) -> (r: Option<T>)
    ensures
        accepted ==> r == *old(native_menu) && *final(native_menu) is None,
        !accepted ==> r is None && *final(native_menu) == *old(native_menu),
{
    if accepted {
        native_menu.take()
    } else {
        None
    }
}

} // verus!
