//! Taskbar quick access: which taskbar button a click landed on.
//!
//! A click on the taskbar is matched against the popup's applications. When
//! UI Automation names the button, the shell resolves it to a running
//! application. Otherwise the shell captures the taskbar strip around the
//! click and renders each application's icon; this module finds where each
//! icon matches the capture best and accepts only a clear winner.

use vstd::prelude::*;

use crate::geometry::{Point, Rect, trunc_div};

verus! {

/// The logical size of a taskbar icon on a 48-pixel taskbar.
pub const TASKBAR_ICON_DIP: i32 = 24;

/// The logical width of a taskbar button on a 48-pixel taskbar.
pub const TASKBAR_BUTTON_DIP: i32 = 44;

/// How far from the click an icon is searched for, on a 48-pixel taskbar.
pub const MATCH_SEARCH_DIP: i32 = 22;

/// The worst mean squared channel error an accepted match may have.
pub const MAX_MATCH_SCORE: u64 = 4_000;

/// How much worse, in percent, the runner-up must match than the winner.
pub const MIN_MATCH_MARGIN_PERCENT: u64 = 112;

/// The bound on coordinates this module computes with.
pub const COORDINATE_LIMIT: i32 = 0x3FFF_FFFF;

/// An application found behind a taskbar button that has no audio session.
#[derive(Clone, Debug)]
pub struct TaskbarApplication {
    pub application_id: String,
    pub name: String,
    pub icon_path: Option<String>,
    pub process_ids: Vec<u32>,
}

/// The taskbar button a click landed on: a popup row (`application_index`)
/// or an application found for it, and the button's screen bounds.
#[derive(Clone, Debug)]
pub struct TaskbarButtonTarget {
    pub application_index: usize,
    pub bounds: Rect,
    pub application: Option<TaskbarApplication>,
}

/// Top-down 32-bit pixels, row by row.
#[derive(Clone, Debug)]
pub struct PixelBuffer {
    pub width: i32,
    pub height: i32,
    pub pixels: Vec<u32>,
}

/// Where an icon matched a capture, and how well (lower is better).
#[derive(Clone, Copy, Debug, Eq, PartialEq, Structural)]
pub struct IconMatch {
    pub score: u64,
    pub x: i32,
    pub y: i32,
}

/// Whether a pixel buffer's size agrees with its pixels.
pub open spec fn buffer_wf(b: PixelBuffer) -> bool {
    &&& 0 <= b.width
    &&& 0 <= b.height
    &&& b.pixels@.len() == b.width * b.height
}

/// Whether every coordinate of a rectangle is within the working bound.
pub open spec fn rect_bounded(r: Rect) -> bool {
    &&& -COORDINATE_LIMIT <= r.left <= COORDINATE_LIMIT
    &&& -COORDINATE_LIMIT <= r.top <= COORDINATE_LIMIT
    &&& -COORDINATE_LIMIT <= r.right <= COORDINATE_LIMIT
    &&& -COORDINATE_LIMIT <= r.bottom <= COORDINATE_LIMIT
}

/// Whether a top-level window class is a taskbar's: the primary or a
/// secondary monitor's. Auto-hidden taskbars can lie over the work area, so
/// the class of the window under the pointer is the fallback test.
pub open spec fn is_taskbar_class(class_name: Seq<char>) -> bool {
    class_name == "Shell_TrayWnd"@ || class_name == "Shell_SecondaryTrayWnd"@
}

/// Decides whether a window class is a taskbar's.
pub fn is_taskbar_window_class(class_name: &str) -> (r: bool)
    ensures
        r == is_taskbar_class(class_name@),
{
    crate::text::text_eq(class_name, "Shell_TrayWnd") || crate::text::text_eq(class_name, "Shell_SecondaryTrayWnd")
}

/// Whether the button UI Automation reports under a right-click can be used:
/// it has a name, nonempty bounds, and the click lies inside them.
pub open spec fn usable_button(name: Seq<char>, bounds: Rect, point: Point) -> bool {
    &&& crate::text::trim(name).len() > 0
    &&& bounds.right > bounds.left
    &&& bounds.bottom > bounds.top
    &&& in_rect(point, bounds)
}

/// Decides whether a reported taskbar button can be used.
pub fn is_usable_button(name: &str, bounds: Rect, point: Point) -> (r: bool)
    ensures
        r == usable_button(name@, bounds, point),
{
    !crate::text::is_blank(name) && bounds.right > bounds.left && bounds.bottom > bounds.top && point_in_rect(
        point,
        bounds,
    )
}

/// Whether a point lies in a rectangle (right and bottom edges excluded).
pub open spec fn in_rect(point: Point, rect: Rect) -> bool {
    point.x >= rect.left && point.x < rect.right && point.y >= rect.top && point.y < rect.bottom
}

/// Whether a point lies in a rectangle (right and bottom edges excluded).
pub fn point_in_rect(point: Point, rect: Rect) -> (r: bool)
    ensures
        r == in_rect(point, rect),
{
    point.x >= rect.left && point.x < rect.right && point.y >= rect.top && point.y < rect.bottom
}

/// Whether a point is on a monitor but outside its work area: on the band
/// the taskbar occupies, whatever window draws it.
pub fn is_taskbar_band(point: Point, monitor: Rect, work: Rect) -> (r: bool)
    ensures
        r == (in_rect(point, monitor) && !in_rect(point, work)),
{
    point_in_rect(point, monitor) && !point_in_rect(point, work)
}

/// The taskbar's rectangle on a monitor: the part of the monitor beside the
/// work area, on the first side (bottom, top, left, right) where they differ.
pub open spec fn taskbar_rect_of(point: Point, monitor: Rect, work: Rect) -> Option<Rect> {
    if !(in_rect(point, monitor) && !in_rect(point, work)) {
        None
    } else if work.bottom < monitor.bottom {
        Some(Rect { top: work.bottom, ..monitor })
    } else if work.top > monitor.top {
        Some(Rect { bottom: work.top, ..monitor })
    } else if work.left > monitor.left {
        Some(Rect { right: work.left, ..monitor })
    } else if work.right < monitor.right {
        Some(Rect { left: work.right, ..monitor })
    } else {
        None
    }
}

/// The taskbar under a point, from the monitor's rectangle and work area.
pub fn taskbar_rect(point: Point, monitor: Rect, work: Rect) -> (r: Option<Rect>)
    ensures
        r == taskbar_rect_of(point, monitor, work),
{
    if !is_taskbar_band(point, monitor, work) {
        None
    } else if work.bottom < monitor.bottom {
        Some(Rect { top: work.bottom, ..monitor })
    } else if work.top > monitor.top {
        Some(Rect { bottom: work.top, ..monitor })
    } else if work.left > monitor.left {
        Some(Rect { right: work.left, ..monitor })
    } else if work.right < monitor.right {
        Some(Rect { left: work.right, ..monitor })
    } else {
        None
    }
}

/// The taskbar's thickness: its smaller side, at least one pixel.
pub open spec fn thickness_of(taskbar: Rect) -> int {
    let h = taskbar.bottom - taskbar.top;
    let w = taskbar.right - taskbar.left;
    let t = if h <= w {
        h
    } else {
        w
    };
    if t >= 1 {
        t
    } else {
        1
    }
}

/// A length designed for a 48-pixel taskbar, scaled to this taskbar's
/// thickness, at least one pixel.
pub open spec fn scaled_for_taskbar(value: int, taskbar: Rect) -> int {
    let v = trunc_div(value * thickness_of(taskbar), 48);
    if v >= 1 {
        v
    } else {
        1
    }
}

/// Scales a length designed for a 48-pixel taskbar.
pub fn scale_for_taskbar(value: i32, taskbar: Rect) -> (r: i32)
    requires
        0 <= value <= 100,
        rect_bounded(taskbar),
        thickness_of(taskbar) <= 0x100_0000,
    ensures
        r == scaled_for_taskbar(value as int, taskbar),
        1 <= r <= 100 * 0x100_0000 / 48 + 1,
{
    let h = taskbar.bottom - taskbar.top;
    let w = taskbar.right - taskbar.left;
    let t = if h <= w {
        h
    } else {
        w
    };
    let thickness: i64 = if t >= 1 {
        t as i64
    } else {
        1
    };
    assert(0 <= value * thickness <= 100 * 0x100_0000) by (nonlinear_arith)
        requires
            0 <= value <= 100,
            1 <= thickness <= 0x100_0000,
    ;
    let v = (value as i64) * thickness / 48;
    if v >= 1 {
        v as i32
    } else {
        1
    }
}

/// The size of a taskbar icon on this taskbar.
pub fn taskbar_icon_size(taskbar: Rect) -> (r: i32)
    requires
        rect_bounded(taskbar),
        thickness_of(taskbar) <= 0x100_0000,
    ensures
        r == scaled_for_taskbar(TASKBAR_ICON_DIP as int, taskbar),
{
    scale_for_taskbar(TASKBAR_ICON_DIP, taskbar)
}

/// One 8-bit channel of a pixel.
pub open spec fn channel(p: u32, shift: u32) -> u32 {
    (p >> shift) & 0xff
}

proof fn lemma_channel_bound(p: u32, shift: u32)
    ensures
        channel(p, shift) <= 0xff,
{
    assert((p >> shift) & 0xff <= 0xff) by (bit_vector);
}

/// The color of the taskbar behind the icons: each channel the mean of the
/// four corners of the capture.
pub open spec fn background_of(screen: PixelBuffer) -> u32 {
    let w = screen.width as int;
    let h = screen.height as int;
    let c = |shift: u32|
        ((channel(screen.pixels@[0], shift) + channel(screen.pixels@[w - 1], shift) + channel(
            screen.pixels@[(h - 1) * w],
            shift,
        ) + channel(screen.pixels@[h * w - 1], shift)) / 4) as u32;
    c(0) | (c(8) << 8u32) | (c(16) << 16u32)
}

/// The color of the taskbar behind the icons.
pub fn taskbar_background(screen: &PixelBuffer) -> (r: u32)
    requires
        buffer_wf(*screen),
        screen.width >= 1,
        screen.height >= 1,
    ensures
        r == background_of(*screen),
{
    let w = screen.width as usize;
    let h = screen.height as usize;
    assert(h * w == screen.pixels@.len()) by (nonlinear_arith)
        requires
            h == screen.height,
            w == screen.width,
            screen.pixels@.len() == screen.width * screen.height,
    ;
    assert((h - 1) * w + w <= h * w) by (nonlinear_arith)
        requires
            h >= 1,
            w >= 1,
    ;
    assert(h * w >= 1) by (nonlinear_arith)
        requires
            h >= 1,
            w >= 1,
    ;
    let n = screen.pixels.len();
    assert((h - 1) * w == h * w - w) by (nonlinear_arith);
    let corners = [screen.pixels[0], screen.pixels[w - 1], screen.pixels[n - w], screen.pixels[n - 1]];
    assert(corners@[0] == screen.pixels@[0]);
    assert(corners@[1] == screen.pixels@[w - 1]);
    assert(corners@[2] == screen.pixels@[(h - 1) * w]);
    assert(corners@[3] == screen.pixels@[h * w - 1]);
    let c0 = average_channel(&corners, 0);
    let c1 = average_channel(&corners, 8);
    let c2 = average_channel(&corners, 16);
    c0 | (c1 << 8u32) | (c2 << 16u32)
}

/// The mean of one channel of four pixels.
fn average_channel(corners: &[u32; 4], shift: u32) -> (r: u32)
    requires
        shift <= 24,
    ensures
        r == ((channel(corners@[0], shift) + channel(corners@[1], shift) + channel(corners@[2], shift)
            + channel(corners@[3], shift)) / 4) as u32,
{
    proof {
        lemma_channel_bound(corners@[0], shift);
        lemma_channel_bound(corners@[1], shift);
        lemma_channel_bound(corners@[2], shift);
        lemma_channel_bound(corners@[3], shift);
    }
    (((corners[0] >> shift) & 0xff) + ((corners[1] >> shift) & 0xff) + ((corners[2] >> shift) & 0xff)
        + ((corners[3] >> shift) & 0xff)) / 4
}


/// The opacity an icon pixel is matched with: its alpha, except that a pixel
/// with color but no alpha (an icon drawn without alpha channel) is opaque.
pub open spec fn effective_alpha(ip: u32) -> int {
    if channel(ip, 24) == 0 && (ip & 0x00ff_ffff) != 0 {
        255
    } else {
        channel(ip, 24) as int
    }
}

/// The value a channel of an icon pixel shows on the taskbar: premultiplied
/// color composited once over the background.
pub open spec fn expected_channel(ip: u32, background: u32, shift: u32) -> int {
    let fg = channel(ip, shift) as int;
    if channel(ip, 24) == 0 {
        fg
    } else {
        fg + (channel(background, shift) as int) * (255 - effective_alpha(ip)) / 255
    }
}

/// The squared error of one channel of an icon pixel against the screen.
pub open spec fn channel_error(ip: u32, sp: u32, background: u32, shift: u32) -> int {
    let d = expected_channel(ip, background, shift) - (channel(sp, shift) as int);
    d * d
}

/// The squared error of the three color channels of an icon pixel.
pub open spec fn pixel_error(ip: u32, sp: u32, background: u32) -> int {
    channel_error(ip, sp, background, 0) + channel_error(ip, sp, background, 8) + channel_error(
        ip,
        sp,
        background,
        16,
    )
}

/// The summed error and the number of compared channels over the first `k`
/// pixels of an icon placed at (`x`, `y`); nearly transparent pixels are skipped.
pub open spec fn score_sums(
    screen: PixelBuffer,
    icon: PixelBuffer,
    background: u32,
    x: int,
    y: int,
    k: nat,
) -> (int, int)
    decreases k,
{
    if k == 0 {
        (0, 0)
    } else {
        let prev = score_sums(screen, icon, background, x, y, (k - 1) as nat);
        let i = k - 1;
        let ip = icon.pixels@[i];
        if effective_alpha(ip) < 40 {
            prev
        } else {
            let sp = screen.pixels@[(y + i / (icon.width as int)) * (screen.width as int) + x + i % (
            icon.width as int)];
            (prev.0 + pixel_error(ip, sp, background), prev.1 + 3)
        }
    }
}

/// How well an icon matches the screen at (`x`, `y`): the mean squared
/// channel error, when at least eight pixels were compared.
pub open spec fn score_at(screen: PixelBuffer, icon: PixelBuffer, x: int, y: int) -> Option<u64> {
    let sums = score_sums(
        screen,
        icon,
        background_of(screen),
        x,
        y,
        (icon.width * icon.height) as nat,
    );
    if sums.1 >= 24 {
        Some((sums.0 / sums.1) as u64)
    } else {
        None
    }
}

/// Whether an icon placed at (`x`, `y`) lies inside the screen capture.
pub open spec fn placement_fits(screen: PixelBuffer, icon: PixelBuffer, x: int, y: int) -> bool {
    &&& buffer_wf(screen)
    &&& buffer_wf(icon)
    &&& screen.width >= 1
    &&& screen.height >= 1
    &&& icon.width * icon.height <= 0x100_0000
    &&& 0 <= x
    &&& 0 <= y
    &&& x + icon.width <= screen.width
    &&& y + icon.height <= screen.height
}

proof fn lemma_pixel_position(i: int, iw: int, ih: int, x: int, y: int, sw: int, sh: int)
    requires
        0 <= i < iw * ih,
        iw >= 1,
        0 <= x,
        0 <= y,
        x + iw <= sw,
        y + ih <= sh,
    ensures
        0 <= i / iw < ih,
        0 <= i % iw < iw,
        0 <= (y + i / iw) * sw + x + i % iw < sw * sh,
{
    assert(0 <= i / iw < ih) by (nonlinear_arith)
        requires
            0 <= i < iw * ih,
            iw >= 1,
    ;
    assert(0 <= i % iw < iw) by (nonlinear_arith)
        requires
            iw >= 1,
            0 <= i,
    ;
    let row = i / iw;
    let col = i % iw;
    assert(0 <= (y + row) * sw + x + col < sw * sh) by (nonlinear_arith)
        requires
            0 <= row < ih,
            0 <= col < iw,
            0 <= x,
            0 <= y,
            x + iw <= sw,
            y + ih <= sh,
    ;
}

/// The squared error of one channel of an icon pixel, as computed.
fn channel_error_exec(ip: u32, sp: u32, background: u32, shift: u32, alpha: u32, effective: u32) -> (r:
    u64)
    requires
        shift <= 16,
        alpha == channel(ip, 24),
        effective == effective_alpha(ip),
    ensures
        r == channel_error(ip, sp, background, shift),
        r <= 260100,
{
    proof {
        lemma_channel_bound(ip, shift);
        lemma_channel_bound(background, shift);
        lemma_channel_bound(sp, shift);
        lemma_channel_bound(ip, 24);
    }
    let foreground = ((ip >> shift) & 0xff) as i64;
    let base = ((background >> shift) & 0xff) as i64;
    assert(0 <= base * (255 - effective) <= 255 * 255) by (nonlinear_arith)
        requires
            0 <= base <= 255,
            0 <= effective <= 255,
    ;
    let expected = if alpha == 0 {
        foreground
    } else {
        foreground + base * (255 - effective as i64) / 255
    };
    let actual = ((sp >> shift) & 0xff) as i64;
    let d = expected - actual;
    assert(0 <= d * d <= 260100) by (nonlinear_arith)
        requires
            -255 <= d <= 510,
    ;
    (d * d) as u64
}

/// How well an icon matches the screen at (`x`, `y`), if enough of it is opaque.
pub fn icon_score_at(screen: &PixelBuffer, icon: &PixelBuffer, x: i32, y: i32) -> (r: Option<u64>)
    requires
        placement_fits(*screen, *icon, x as int, y as int),
    ensures
        r == score_at(*screen, *icon, x as int, y as int),
{
    let background = taskbar_background(screen);
    let total = icon.pixels.len();
    let iw = icon.width as usize;
    let sw = screen.width as usize;
    let screen_len = screen.pixels.len();
    let mut error: u64 = 0;
    let mut samples: u64 = 0;
    let mut i: usize = 0;
    while i < total
        invariant
            placement_fits(*screen, *icon, x as int, y as int),
            background == background_of(*screen),
            total == icon.pixels@.len(),
            total == icon.width * icon.height,
            iw == icon.width,
            sw == screen.width,
            screen_len == screen.pixels@.len(),
            i <= total,
            error == score_sums(*screen, *icon, background, x as int, y as int, i as nat).0,
            samples == score_sums(*screen, *icon, background, x as int, y as int, i as nat).1,
            error <= 780300 * i,
            samples <= 3 * i,
        decreases total - i,
    {
        let ip = icon.pixels[i];
        proof {
            lemma_channel_bound(ip, 24);
        }
        let alpha = (ip >> 24) & 0xff;
        let effective = if alpha == 0 && ip & 0x00ff_ffff != 0 {
            255
        } else {
            alpha
        };
        if effective >= 40 {
            proof {
                lemma_pixel_position(
                    i as int,
                    iw as int,
                    icon.height as int,
                    x as int,
                    y as int,
                    sw as int,
                    screen.height as int,
                );
                assert(sw * screen.height == screen.pixels@.len()) by (nonlinear_arith)
                    requires
                        sw == screen.width,
                        screen.pixels@.len() == screen.width * screen.height,
                ;
            }
            let row = i / iw;
            let column = i % iw;
            assert((y as usize + row) * sw + x as usize + column < screen_len);
            let index = (y as usize + row) * sw + x as usize + column;
            let sp = screen.pixels[index];
            let e0 = channel_error_exec(ip, sp, background, 0, alpha, effective);
            let e1 = channel_error_exec(ip, sp, background, 8, alpha, effective);
            let e2 = channel_error_exec(ip, sp, background, 16, alpha, effective);
            error = error + e0 + e1 + e2;
            samples = samples + 3;
        }
        i = i + 1;
    }
    if samples >= 24 {
        Some(error / samples)
    } else {
        None
    }
}


/// The best of the matches so far and the match at (`x`, `y`): a later
/// position replaces the best only when it scores strictly lower.
pub open spec fn better(best: Option<IconMatch>, screen: PixelBuffer, icon: PixelBuffer, x: int, y: int) -> Option<
    IconMatch,
> {
    match score_at(screen, icon, x, y) {
        Some(s) => if best is None || s < best->0.score {
            Some(IconMatch { score: s, x: x as i32, y: y as i32 })
        } else {
            best
        },
        None => best,
    }
}

/// The best match over positions (`x`, `y`) to (`x`, `y_end`), starting from `best`.
pub open spec fn best_in_column(
    screen: PixelBuffer,
    icon: PixelBuffer,
    x: int,
    y: int,
    y_end: int,
    best: Option<IconMatch>,
) -> Option<IconMatch>
    decreases y_end + 1 - y,
{
    if y > y_end {
        best
    } else {
        best_in_column(screen, icon, x, y + 1, y_end, better(best, screen, icon, x, y))
    }
}

/// The best match over columns `x` to `x_end`, each from `y0` to `y_end`,
/// starting from `best`.
pub open spec fn best_in_columns(
    screen: PixelBuffer,
    icon: PixelBuffer,
    x: int,
    x_end: int,
    y0: int,
    y_end: int,
    best: Option<IconMatch>,
) -> Option<IconMatch>
    decreases x_end + 1 - x,
{
    if x > x_end {
        best
    } else {
        best_in_columns(
            screen,
            icon,
            x + 1,
            x_end,
            y0,
            y_end,
            best_in_column(screen, icon, x, y0, y_end, best),
        )
    }
}

/// Where an icon of `icon_size` pixels matches the capture best: searched
/// within `search` pixels left and right of the capture's center and three
/// pixels above and below it, inside the capture.
pub open spec fn best_match_of(screen: PixelBuffer, icon: PixelBuffer, icon_size: int, search: int) -> Option<
    IconMatch,
> {
    if icon.width != icon_size || icon.height != icon_size || screen.height < icon_size {
        None
    } else {
        let nx = trunc_div(screen.width - icon_size, 2);
        let ny = (screen.height - icon_size) / 2;
        let x0 = if nx - search >= 0 {
            nx - search
        } else {
            0
        };
        let x1 = if nx + search <= screen.width - icon_size {
            nx + search
        } else {
            screen.width - icon_size
        };
        let y0 = if ny - 3 >= 0 {
            ny - 3
        } else {
            0
        };
        let y1 = if ny + 3 <= screen.height - icon_size {
            ny + 3
        } else {
            screen.height - icon_size
        };
        best_in_columns(screen, icon, x0, x1, y0, y1, None)
    }
}

/// Finds where an icon matches the captured taskbar strip best.
pub fn best_icon_match(screen: &PixelBuffer, icon: &PixelBuffer, icon_size: i32, search: i32) -> (r:
    Option<IconMatch>)
    requires
        buffer_wf(*screen),
        buffer_wf(*icon),
        screen.width >= 1,
        screen.height >= 1,
        icon.width * icon.height <= 0x100_0000,
        0 <= icon_size <= 0x400_0000,
        0 <= search <= 0x400_0000,
        screen.width <= 0x100_0000,
        screen.height <= 0x100_0000,
    ensures
        r == best_match_of(*screen, *icon, icon_size as int, search as int),
        r matches Some(m) ==> 0 <= m.x <= screen.width,
{
    if icon.width != icon_size || icon.height != icon_size || screen.height < icon_size {
        return None;
    }
    let nominal_x = (screen.width - icon_size) / 2;
    let nominal_y = (screen.height - icon_size) / 2;
    let x0 = if nominal_x - search >= 0 {
        nominal_x - search
    } else {
        0
    };
    let x1 = if nominal_x + search <= screen.width - icon_size {
        nominal_x + search
    } else {
        screen.width - icon_size
    };
    let y0 = if nominal_y - 3 >= 0 {
        nominal_y - 3
    } else {
        0
    };
    let y1 = if nominal_y + 3 <= screen.height - icon_size {
        nominal_y + 3
    } else {
        screen.height - icon_size
    };
    let ghost whole = best_in_columns(*screen, *icon, x0 as int, x1 as int, y0 as int, y1 as int, None);
    let mut best: Option<IconMatch> = None;
    let mut x = x0;
    while x <= x1
        invariant
            buffer_wf(*screen),
            buffer_wf(*icon),
            screen.width >= 1,
            screen.height >= 1,
            icon.width * icon.height <= 0x100_0000,
            icon.width == icon_size,
            icon.height == icon_size,
            0 <= x0 <= x,
            x1 + icon_size <= screen.width,
            screen.width <= 0x100_0000,
            screen.height <= 0x100_0000,
            0 <= y0,
            y1 + icon_size <= screen.height,
            whole == best_in_columns(*screen, *icon, x as int, x1 as int, y0 as int, y1 as int, best),
            best matches Some(m) ==> 0 <= m.x <= screen.width,
        decreases x1 + 1 - x,
    {
        let ghost column_start = best;
        let mut y = y0;
        while y <= y1
            invariant
                buffer_wf(*screen),
                buffer_wf(*icon),
                screen.width >= 1,
                screen.height >= 1,
                icon.width * icon.height <= 0x100_0000,
                icon.width == icon_size,
                icon.height == icon_size,
                0 <= x <= x1,
                x1 + icon_size <= screen.width,
                0 <= y0 <= y,
                y1 + icon_size <= screen.height,
                screen.width <= 0x100_0000,
                screen.height <= 0x100_0000,
                best_in_column(*screen, *icon, x as int, y0 as int, y1 as int, column_start)
                    == best_in_column(*screen, *icon, x as int, y as int, y1 as int, best),
                best matches Some(m) ==> 0 <= m.x <= screen.width,
            decreases y1 + 1 - y,
        {
            let ghost before = best;
            if let Some(score) = icon_score_at(screen, icon, x, y) {
                let replace = match best {
                    None => true,
                    Some(current) => score < current.score,
                };
                if replace {
                    best = Some(IconMatch { score, x, y });
                }
            }
            assert(best == better(before, *screen, *icon, x as int, y as int));
            y = y + 1;
        }
        x = x + 1;
    }
    best
}

/// A saturating product with a hundred.
pub open spec fn times_hundred(s: u64) -> int {
    if s * 100 <= u64::MAX {
        s * 100
    } else {
        u64::MAX as int
    }
}

/// Whether candidate `i` wins clearly: its score is acceptable and, scaled by
/// the margin, still below every other candidate's.
pub open spec fn clear_winner(candidates: Seq<(usize, IconMatch)>, i: int) -> bool {
    &&& 0 <= i < candidates.len()
    &&& candidates[i].1.score <= MAX_MATCH_SCORE
    &&& forall|j: int|
        0 <= j < candidates.len() && j != i ==> candidates[i].1.score * MIN_MATCH_MARGIN_PERCENT
            < times_hundred(#[trigger] candidates[j].1.score)
}

/// At most one candidate wins clearly, so an accepted icon match is never
/// ambiguous.
pub proof fn law_clear_winner_is_unique(candidates: Seq<(usize, IconMatch)>, i: int, j: int)
    requires
        clear_winner(candidates, i),
        clear_winner(candidates, j),
    ensures
        i == j,
{
    if i != j {
        let si = candidates[i].1.score;
        let sj = candidates[j].1.score;
        assert(si * MIN_MATCH_MARGIN_PERCENT < times_hundred(sj));
        assert(sj * MIN_MATCH_MARGIN_PERCENT < times_hundred(si));
        assert(times_hundred(sj) <= sj * 100);
        assert(times_hundred(si) <= si * 100);
    }
}

/// Whether candidates are in ascending order of score.
pub open spec fn sorted_by_score(candidates: Seq<(usize, IconMatch)>) -> bool {
    forall|i: int, j: int|
        0 <= i <= j < candidates.len() ==> #[trigger] candidates[i].1.score <= #[trigger] candidates[j].1.score
}

/// Puts candidates in ascending order of score; the order among equal
/// scores is unspecified.
pub fn sort_by_score(candidates: &mut [(usize, IconMatch)])
    ensures
        final(candidates)@.to_multiset() == old(candidates)@.to_multiset(),
        final(candidates)@.len() == old(candidates)@.len(),
        sorted_by_score(final(candidates)@),
{
    let ghost original = candidates@;
    let n = candidates.len();
    let mut i: usize = 0;
    while i < n
        invariant
            n == candidates@.len(),
            i <= n,
            candidates@.to_multiset() == original.to_multiset(),
            forall|a: int, b: int|
                0 <= a <= b < i ==> #[trigger] candidates@[a].1.score <= #[trigger] candidates@[b].1.score,
            forall|a: int, b: int|
                0 <= a < i <= b < n ==> #[trigger] candidates@[a].1.score <= #[trigger] candidates@[b].1.score,
        decreases n - i,
    {
        let mut m: usize = i;
        let mut k: usize = i + 1;
        while k < n
            invariant
                n == candidates@.len(),
                i < n,
                i <= m < n,
                m < k <= n,
                forall|j: int| i <= j < k ==> candidates@[m as int].1.score <= #[trigger] candidates@[j].1.score,
            decreases n - k,
        {
            if candidates[k].1.score < candidates[m].1.score {
                m = k;
            }
            k = k + 1;
        }
        let ghost before = candidates@;
        let a = candidates[i];
        let b = candidates[m];
        candidates[i] = b;
        candidates[m] = a;
        proof {
            broadcast use vstd::seq_lib::to_multiset_update, vstd::multiset::group_multiset_axioms;
            let ms = before.to_multiset();
            let s1 = before.update(i as int, b);
            assert(candidates@ == s1.update(m as int, a));
            assert(s1[m as int] == b);
            assert(s1.to_multiset() == ms.insert(b).remove(a));
            assert(candidates@.to_multiset() == s1.to_multiset().insert(a).remove(b));
            vstd::seq_lib::to_multiset_contains(before, a);
            assert(before.contains(a)) by {
                assert(before[i as int] == a);
            }
            assert(candidates@.to_multiset() =~= ms);
        }
        i = i + 1;
    }
}

/// Sorts the candidates by score and accepts the best one only when it wins
/// clearly.
pub fn choose_unique_icon_match(candidates: &mut [(usize, IconMatch)]) -> (r: Option<
    (usize, IconMatch),
>)
    ensures
        r matches Some(c) ==> exists|i: int| clear_winner(old(candidates)@, i) && old(candidates)@[i] == c,
        r is None ==> forall|i: int| !clear_winner(old(candidates)@, i),
        final(candidates)@.to_multiset() == old(candidates)@.to_multiset(),
        final(candidates)@.len() == old(candidates)@.len(),
        sorted_by_score(final(candidates)@),
{
    let r = clear_winner_of(candidates);
    sort_by_score(candidates);
    r
}

/// The candidate that wins clearly, if one does.
fn clear_winner_of(candidates: &[(usize, IconMatch)]) -> (r: Option<(usize, IconMatch)>)
    ensures
        r matches Some(c) ==> exists|i: int| clear_winner(candidates@, i) && candidates@[i] == c,
        r is None ==> forall|i: int| !clear_winner(candidates@, i),
{
    if candidates.len() == 0 {
        return None;
    }
    let mut best: usize = 0;
    let mut k: usize = 1;
    while k < candidates.len()
        invariant
            1 <= k <= candidates@.len(),
            best < k,
            forall|j: int| 0 <= j < k ==> candidates@[best as int].1.score <= #[trigger] candidates@[j].1.score,
            forall|j: int| 0 <= j < best ==> candidates@[best as int].1.score < #[trigger] candidates@[j].1.score,
        decreases candidates@.len() - k,
    {
        if candidates[k].1.score < candidates[best].1.score {
            best = k;
        }
        k = k + 1;
    }
    let winner = candidates[best];
    let ghost b = best as int;
    proof {
        assert forall|w: int| clear_winner(candidates@, w) implies w == b by {
            if w != b {
                let sw = candidates@[w].1.score;
                let sb = candidates@[b].1.score;
                assert(sw * MIN_MATCH_MARGIN_PERCENT < times_hundred(sb));
                assert(sb <= sw);
                assert(sb * 100 <= sw * 112) by (nonlinear_arith)
                    requires
                        sb <= sw,
                ;
            }
        }
    }
    if winner.1.score > MAX_MATCH_SCORE {
        return None;
    }
    let mut j: usize = 0;
    while j < candidates.len()
        invariant
            j <= candidates@.len(),
            b == best,
            0 <= b < candidates@.len(),
            winner == candidates@[b],
            forall|w: int| clear_winner(candidates@, w) ==> w == b,
            winner.1.score <= MAX_MATCH_SCORE,
            forall|m: int|
                0 <= m < j && m != b ==> winner.1.score * MIN_MATCH_MARGIN_PERCENT < times_hundred(
                    #[trigger] candidates@[m].1.score,
                ),
        decreases candidates@.len() - j,
    {
        if j != best {
            let other = candidates[j].1.score;
            let hundred = if other > 0xFFFF_FFFF_FFFF_FFFF / 100 {
                0xFFFF_FFFF_FFFF_FFFFu64
            } else {
                other * 100
            };
            assert(hundred == times_hundred(candidates@[j as int].1.score));
            if winner.1.score * MIN_MATCH_MARGIN_PERCENT >= hundred {
                assert(!clear_winner(candidates@, b));
                return None;
            }
        }
        j = j + 1;
    }
    assert(clear_winner(candidates@, b));
    Some(winner)
}


/// Whether a point is within the working coordinate bound.
pub open spec fn point_bounded(p: Point) -> bool {
    -COORDINATE_LIMIT <= p.x <= COORDINATE_LIMIT && -COORDINATE_LIMIT <= p.y <= COORDINATE_LIMIT
}

/// Whether a click and its taskbar lie within the coordinates the matching
/// computes with.
pub fn within_matching_limits(point: Point, taskbar: Rect) -> (r: bool)
    ensures
        r == (rect_bounded(taskbar) && thickness_of(taskbar) <= 0x100_0000 && point_bounded(point)),
{
    let bounded = |v: i32| -> (b: bool)
        ensures
            b == (-COORDINATE_LIMIT <= v <= COORDINATE_LIMIT),
        { -COORDINATE_LIMIT <= v && v <= COORDINATE_LIMIT };
    if !(bounded(taskbar.left) && bounded(taskbar.top) && bounded(taskbar.right) && bounded(taskbar.bottom)
        && bounded(point.x) && bounded(point.y)) {
        return false;
    }
    let h = taskbar.bottom as i64 - taskbar.top as i64;
    let w = taskbar.right as i64 - taskbar.left as i64;
    let t = if h <= w {
        h
    } else {
        w
    };
    let thickness = if t >= 1 {
        t
    } else {
        1
    };
    thickness <= 0x100_0000
}

/// The strip captured around a click: the taskbar's height, reaching the
/// search distance and an icon's size to either side of the click.
pub open spec fn capture_bounds_of(point: Point, taskbar: Rect) -> Rect {
    let icon = scaled_for_taskbar(TASKBAR_ICON_DIP as int, taskbar);
    let search = scaled_for_taskbar(MATCH_SEARCH_DIP as int, taskbar);
    Rect {
        left: (point.x - search - icon) as i32,
        top: taskbar.top,
        right: (point.x + search + icon + 1) as i32,
        bottom: taskbar.bottom,
    }
}

/// The strip of the taskbar the shell captures around a click.
pub fn capture_bounds(point: Point, taskbar: Rect) -> (r: Rect)
    requires
        rect_bounded(taskbar),
        thickness_of(taskbar) <= 0x100_0000,
        point_bounded(point),
    ensures
        r == capture_bounds_of(point, taskbar),
{
    let icon_size = taskbar_icon_size(taskbar);
    let search = scale_for_taskbar(MATCH_SEARCH_DIP, taskbar);
    Rect {
        left: point.x - search - icon_size,
        top: taskbar.top,
        right: point.x + search + icon_size + 1,
        bottom: taskbar.bottom,
    }
}

/// Whether a rendered icon can be matched against captures.
pub open spec fn icon_buffer_ok(b: PixelBuffer) -> bool {
    buffer_wf(b) && b.width * b.height <= 0x100_0000
}

/// The candidates of a click: for each application icon, in order, its best
/// match when it has one; `None` when some icon could not be rendered.
pub open spec fn candidates_of(
    capture: PixelBuffer,
    icons: Seq<(usize, Option<PixelBuffer>)>,
    icon_size: int,
    search: int,
) -> Option<Seq<(usize, IconMatch)>>
    decreases icons.len(),
{
    if icons.len() == 0 {
        Some(Seq::empty())
    } else {
        match candidates_of(capture, icons.drop_last(), icon_size, search) {
            None => None,
            Some(prev) => match icons.last().1 {
                None => None,
                Some(pixels) => match best_match_of(capture, pixels, icon_size, search) {
                    Some(m) => Some(prev.push((icons.last().0, m))),
                    None => Some(prev),
                },
            },
        }
    }
}

proof fn lemma_candidates_none(
    capture: PixelBuffer,
    icons: Seq<(usize, Option<PixelBuffer>)>,
    k: int,
    icon_size: int,
    search: int,
)
    requires
        0 <= k <= icons.len(),
        candidates_of(capture, icons.subrange(0, k), icon_size, search) is None,
    ensures
        candidates_of(capture, icons, icon_size, search) is None,
    decreases icons.len() - k,
{
    if k < icons.len() {
        let next = icons.subrange(0, k + 1);
        assert(next.drop_last() =~= icons.subrange(0, k));
        lemma_candidates_none(capture, icons, k + 1, icon_size, search);
    } else {
        assert(icons.subrange(0, k) =~= icons);
    }
}

/// The bounds of the taskbar button whose icon is centered at `center_x`.
pub open spec fn button_bounds_of(center_x: int, taskbar: Rect) -> Rect {
    let width = scaled_for_taskbar(TASKBAR_BUTTON_DIP as int, taskbar);
    Rect {
        left: (center_x - width / 2) as i32,
        top: taskbar.top,
        right: (center_x + (width + 1) / 2) as i32,
        bottom: taskbar.bottom,
    }
}

/// Whether `r` is the button a click chose, from the candidates of its icons.
pub open spec fn target_chosen(
    point: Point,
    taskbar: Rect,
    capture: PixelBuffer,
    icons: Seq<(usize, Option<PixelBuffer>)>,
    r: Option<TaskbarButtonTarget>,
) -> bool {
    let icon_size = scaled_for_taskbar(TASKBAR_ICON_DIP as int, taskbar);
    let search = scaled_for_taskbar(MATCH_SEARCH_DIP as int, taskbar);
    let left = capture_bounds_of(point, taskbar).left;
    match candidates_of(capture, icons, icon_size, search) {
        None => r is None,
        Some(cs) => (r is None ==> (forall|i: int| !clear_winner(cs, i))) && (r is Some ==> (exists|
            i: int,
        |
            #![trigger clear_winner(cs, i)]
            clear_winner(cs, i) && r->0.application_index == cs[i].0 && r->0.application is None
                && r->0.bounds == button_bounds_of(left + cs[i].1.x + icon_size / 2, taskbar))),
    }
}

proof fn lemma_target_chosen(
    point: Point,
    taskbar: Rect,
    capture: PixelBuffer,
    icons: Seq<(usize, Option<PixelBuffer>)>,
    cs: Seq<(usize, IconMatch)>,
    w: int,
    t: TaskbarButtonTarget,
)
    requires
        candidates_of(
            capture,
            icons,
            scaled_for_taskbar(TASKBAR_ICON_DIP as int, taskbar),
            scaled_for_taskbar(MATCH_SEARCH_DIP as int, taskbar),
        ) == Some(cs),
        clear_winner(cs, w),
        t.application_index == cs[w].0,
        t.application is None,
        t.bounds == button_bounds_of(
            capture_bounds_of(point, taskbar).left + cs[w].1.x + scaled_for_taskbar(
                TASKBAR_ICON_DIP as int,
                taskbar,
            ) / 2,
            taskbar,
        ),
    ensures
        target_chosen(point, taskbar, capture, icons, Some(t)),
{
    let icon_size = scaled_for_taskbar(TASKBAR_ICON_DIP as int, taskbar);
    let search = scaled_for_taskbar(MATCH_SEARCH_DIP as int, taskbar);
    let r = Some(t);
    let found = candidates_of(capture, icons, icon_size, search)->0;
    assert(found == cs);
    assert(clear_winner(found, w) && r->0.application_index == found[w].0);
}

/// Chooses the taskbar button under a click from the captured strip
/// (`capture`, taken at `capture_bounds(point, taskbar)`) and the rendered
/// icons of the popup's rows: the row whose icon matches clearly best, with
/// the button centered on where its icon was found.
pub fn take_pending_target(
    point: Point,
    taskbar: Rect,
    capture: &PixelBuffer,
    icons: &[(usize, Option<PixelBuffer>)],
) -> (r: Option<TaskbarButtonTarget>)
    requires
        rect_bounded(taskbar),
        thickness_of(taskbar) <= 0x100_0000,
        point_bounded(point),
        buffer_wf(*capture),
        1 <= capture.width <= 0x100_0000,
        1 <= capture.height <= 0x100_0000,
        forall|i: int|
            0 <= i < icons@.len() ==> ((#[trigger] icons@[i]).1 matches Some(b) ==> icon_buffer_ok(b)),
    ensures
        target_chosen(point, taskbar, *capture, icons@, r),
{
    let icon_size = taskbar_icon_size(taskbar);
    let search = scale_for_taskbar(MATCH_SEARCH_DIP, taskbar);
    let bounds = capture_bounds(point, taskbar);
    let mut candidates: Vec<(usize, IconMatch)> = Vec::new();
    let mut i: usize = 0;
    assert(icons@.subrange(0, 0) =~= Seq::<(usize, Option<PixelBuffer>)>::empty());
    while i < icons.len()
        invariant
            i <= icons@.len(),
            buffer_wf(*capture),
            1 <= capture.width <= 0x100_0000,
            1 <= capture.height <= 0x100_0000,
            1 <= icon_size <= 100 * 0x100_0000 / 48 + 1,
            1 <= search <= 100 * 0x100_0000 / 48 + 1,
            icon_size == scaled_for_taskbar(TASKBAR_ICON_DIP as int, taskbar),
            search == scaled_for_taskbar(MATCH_SEARCH_DIP as int, taskbar),
            bounds == capture_bounds_of(point, taskbar),
            forall|k: int|
                0 <= k < candidates@.len() ==> 0 <= (#[trigger] candidates@[k]).1.x <= capture.width,
            forall|k: int|
                0 <= k < icons@.len() ==> ((#[trigger] icons@[k]).1 matches Some(b) ==> icon_buffer_ok(b)),
            candidates_of(*capture, icons@.subrange(0, i as int), icon_size as int, search as int)
                == Some(candidates@),
        decreases icons@.len() - i,
    {
        let ghost sub = icons@.subrange(0, i + 1);
        assert(sub.drop_last() =~= icons@.subrange(0, i as int));
        assert(sub.last() == icons@[i as int]);
        match &icons[i].1 {
            None => {
                proof {
                    assert(candidates_of(*capture, sub, icon_size as int, search as int) is None);
                    lemma_candidates_none(*capture, icons@, i + 1, icon_size as int, search as int);
                }
                return None;
            },
            Some(pixels) => {
                if let Some(m) = best_icon_match(capture, pixels, icon_size, search) {
                    candidates.push((icons[i].0, m));
                }
            },
        }
        i = i + 1;
    }
    assert(icons@.subrange(0, icons@.len() as int) =~= icons@);
    let ghost found = candidates@;
    let chosen = choose_unique_icon_match(candidates.as_mut_slice());
    let (application_index, m) = match chosen {
        Some(c) => c,
        None => {
            return None;
        },
    };
    let ghost w = choose|k: int| clear_winner(found, k) && found[k] == (application_index, m);
    let icon_center_x = bounds.left + m.x + icon_size / 2;
    let button_width = scale_for_taskbar(TASKBAR_BUTTON_DIP, taskbar);
    let target = TaskbarButtonTarget {
        application_index,
        bounds: Rect {
            left: icon_center_x - button_width / 2,
            top: taskbar.top,
            right: icon_center_x + (button_width + 1) / 2,
            bottom: taskbar.bottom,
        },
        application: None,
    };
    assert(candidates_of(*capture, icons@, icon_size as int, search as int) == Some(found));
    proof {
        lemma_target_chosen(point, taskbar, *capture, icons@, found, w, target);
    }
    Some(target)
}

} // verus!
