//! The program's own notification-area icon and the pixel sizes of icons.
//!
//! Loading icons from the Windows shell and materializing bitmaps is the
//! shell's work; here stand the icon's pixels and the size arithmetic.

use vstd::prelude::*;

verus! {

/// The logical size of the notification-area glyph, in pixels.
pub const TRAY_ICON_SIZE: usize = 16;

/// The size of the bitmap handed to Windows: the glyph at twice its size.
pub const TRAY_BITMAP_SIZE: usize = 32;

/// The light foreground color (ARGB).
pub const TRAY_FOREGROUND: u32 = 0xFFF7_F8FA;

/// The accent color (ARGB).
pub const TRAY_ACCENT: u32 = 0xFF60_9CFF;

/// The neutral color of the stopped alternate route (ARGB).
pub const TRAY_NEUTRAL: u32 = 0xFF7C_8796;

/// Row `y` of the route-gate glyph: `b` accent, `w` foreground, `g` neutral,
/// anything else transparent.
pub open spec fn tray_glyph(y: int) -> Seq<char> {
    if y == 0 {
        "................"@
    } else if y == 1 {
        "................"@
    } else if y == 2 {
        "..........bbbb.."@
    } else if y == 3 {
        ".........bbbbb.."@
    } else if y == 4 {
        "........bbb....."@
    } else if y == 5 {
        ".......bbb......"@
    } else if y == 6 {
        "..bbbbbww......."@
    } else if y == 7 {
        "..bbbbbwwg......"@
    } else if y == 8 {
        ".......gggg....."@
    } else if y == 9 {
        "........gggg...."@
    } else if y == 10 {
        ".........g.g...."@
    } else if y == 11 {
        "..........gg...."@
    } else if y == 12 {
        "..........gg...."@
    } else if y == 13 {
        "................"@
    } else if y == 14 {
        "................"@
    } else {
        "................"@
    }
}

fn tray_glyph_row(y: usize) -> (r: &'static str)
    ensures
        r@ == tray_glyph(y as int),
{
    match y {
        0 => "................",
        1 => "................",
        2 => "..........bbbb..",
        3 => ".........bbbbb..",
        4 => "........bbb.....",
        5 => ".......bbb......",
        6 => "..bbbbbww.......",
        7 => "..bbbbbwwg......",
        8 => ".......gggg.....",
        9 => "........gggg....",
        10 => ".........g.g....",
        11 => "..........gg....",
        12 => "..........gg....",
        13 => "................",
        14 => "................",
        _ => "................",
    }
}

proof fn lemma_tray_glyph_rows()
    ensures
        forall|y: int| #[trigger] tray_glyph(y).len() == 16,
{
    reveal_strlit("................");
    reveal_strlit("..........bbbb..");
    reveal_strlit("..........gg....");
    reveal_strlit(".........bbbbb..");
    reveal_strlit(".........g.g....");
    reveal_strlit("........bbb.....");
    reveal_strlit("........gggg....");
    reveal_strlit(".......bbb......");
    reveal_strlit(".......gggg.....");
    reveal_strlit("..bbbbbww.......");
    reveal_strlit("..bbbbbwwg......");
}

/// The ARGB color of one glyph character.
pub open spec fn glyph_color(c: char) -> u32 {
    if c == 'b' {
        TRAY_ACCENT
    } else if c == 'w' {
        TRAY_FOREGROUND
    } else if c == 'g' {
        TRAY_NEUTRAL
    } else {
        0
    }
}

/// The color of bitmap pixel `k` (rows of 32, top-down): each glyph cell
/// covers two by two pixels.
pub open spec fn tray_pixel(k: int) -> u32 {
    glyph_color(tray_glyph(k / 32 / 2)[(k % 32) / 2])
}

/// The 32-by-32 ARGB pixels of the notification-area icon, top row first.
pub fn tray_icon_pixels() -> (pixels: Vec<u32>)
    ensures
        pixels@.len() == 1024,
        forall|k: int| 0 <= k < 1024 ==> #[trigger] pixels@[k] == tray_pixel(k),
{
    proof {
        lemma_tray_glyph_rows();
    }
    let mut pixels: Vec<u32> = Vec::new();
    let mut k: usize = 0;
    while k < 1024
        invariant
            k <= 1024,
            pixels@.len() == k,
            forall|j: int| 0 <= j < k ==> #[trigger] pixels@[j] == tray_pixel(j),
            forall|y: int| #[trigger] tray_glyph(y).len() == 16,
        decreases 1024 - k,
    {
        let row = tray_glyph_row(k / 32 / 2);
        let c = row.get_char((k % 32) / 2);
        let color = if c == 'b' {
            TRAY_ACCENT
        } else if c == 'w' {
            TRAY_FOREGROUND
        } else if c == 'g' {
            TRAY_NEUTRAL
        } else {
            0
        };
        pixels.push(color);
        k = k + 1;
    }
    pixels
}

/// The physical pixel size of an icon: the logical size (at least one) at
/// the display's DPI (at least 96), rounded up, and at most `i32::MAX`.
pub open spec fn physical_size_of(logical_size: i32, dpi: u32) -> int {
    let l = if logical_size >= 1 {
        logical_size as int
    } else {
        1
    };
    let d = if dpi >= 96 {
        dpi as int
    } else {
        96
    };
    let p = (l * d + 95) / 96;
    if p <= i32::MAX {
        p
    } else {
        i32::MAX as int
    }
}

/// The physical pixel size of an icon drawn at a logical size.
pub fn physical_size(logical_size: i32, dpi: u32) -> (r: i32)
    ensures
        r == physical_size_of(logical_size, dpi),
{
    let l: i64 = if logical_size >= 1 {
        logical_size as i64
    } else {
        1
    };
    let d: i64 = if dpi >= 96 {
        dpi as i64
    } else {
        96
    };
    assert(l * d <= 0x7fff_ffff * 0xffff_ffff) by (nonlinear_arith)
        requires
            1 <= l <= 0x7fff_ffff,
            96 <= d <= 0xffff_ffff,
    ;
    let p = (l * d + 95) / 96;
    if p <= 0x7fff_ffff {
        p as i32
    } else {
        0x7fff_ffff
    }
}

/// The Shell's system image lists, by the size of their icons.
#[derive(Clone, Copy, Debug, Eq, PartialEq, Structural)]
pub enum ImageListSize {
    /// 32 pixels.
    Large,
    /// 48 pixels.
    ExtraLarge,
    /// 256 pixels.
    Jumbo,
}

/// The image lists to try, in order, for an icon of `source_size` physical
/// pixels: first the smallest list whose icons are at least that large, so
/// that no small icon is magnified, then the others.
pub fn image_list_order(source_size: i32) -> (r: [ImageListSize; 3])
    ensures
        source_size <= 32 ==> r@ == seq![ImageListSize::Large, ImageListSize::ExtraLarge, ImageListSize::Jumbo],
        32 < source_size <= 48 ==> r@ == seq![ImageListSize::ExtraLarge, ImageListSize::Jumbo, ImageListSize::Large],
        source_size > 48 ==> r@ == seq![ImageListSize::Jumbo, ImageListSize::ExtraLarge, ImageListSize::Large],
{
    let r = if source_size <= 32 {
        [ImageListSize::Large, ImageListSize::ExtraLarge, ImageListSize::Jumbo]
    } else if source_size <= 48 {
        [ImageListSize::ExtraLarge, ImageListSize::Jumbo, ImageListSize::Large]
    } else {
        [ImageListSize::Jumbo, ImageListSize::ExtraLarge, ImageListSize::Large]
    };
    assert(r@ =~= r@);
    r
}

} // verus!
