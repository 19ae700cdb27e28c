//! The output selector shown beside an application row: its geometry, the
//! message payloads it exchanges with its owner, and its input handling.

use vstd::prelude::*;

use crate::geometry::{
    clamp_i32, clamp_int, max_int, saturating_sub_i32, scale, scaled, Point, Rect,
};
use crate::i18n::{text, text_of, Locale, Text};
use crate::text::text_eq;

verus! {

pub const WINDOW_WIDTH: i32 = 232;
pub const HEADER_HEIGHT: i32 = 44;
pub const VOLUME_TOP: i32 = HEADER_HEIGHT + 8;
pub const VOLUME_HEIGHT: i32 = 40;
pub const VOLUME_BOTTOM: i32 = VOLUME_TOP + VOLUME_HEIGHT;
pub const OUTPUT_RULE_TOP: i32 = VOLUME_BOTTOM + 8;
pub const OUTPUT_LABEL_TOP: i32 = OUTPUT_RULE_TOP + 8;
pub const SECTION_LABEL_HEIGHT: i32 = 24;
pub const CHOICES_TOP: i32 = OUTPUT_LABEL_TOP + SECTION_LABEL_HEIGHT;
pub const ROW_HEIGHT: i32 = 32;
pub const EDGE_PADDING: i32 = 4;
pub const ADJACENT_GAP: i32 = 8;
pub const MUTE_LEFT: i32 = 8;
pub const MUTE_RIGHT: i32 = 38;
pub const SLIDER_LEFT: i32 = 44;
pub const SLIDER_RIGHT: i32 = 180;
/// The highest DPI for which selector geometry is computed.
pub const MAX_DPI: u32 = 1_000;
/// The most outputs for which selector geometry fits in 32-bit coordinates.
pub const MAX_OUTPUTS: usize = 50_000;

/// Sent to the owner when the user activates a choice. `wParam` is the
/// application index and `lParam` the choice index: choice zero means System
/// default, choice `i` the `i`-th output. The selector closes only when the
/// owner answers 1.
pub const ROUTE_MESSAGE: u32 = 0x8000 + 43;
/// Sent when the application volume or mute state changes; `lParam` carries
/// [`encode_volume_message`].
pub const VOLUME_MESSAGE: u32 = 0x8000 + 45;
/// Sent to the owner while the selector is being destroyed.
pub const CLOSED_MESSAGE: u32 = 0x8000 + 44;

pub const VK_RETURN: u16 = 0x0D;
pub const VK_ESCAPE: u16 = 0x1B;
pub const VK_SPACE: u16 = 0x20;
pub const VK_LEFT: u16 = 0x25;
pub const VK_UP: u16 = 0x26;
pub const VK_RIGHT: u16 = 0x27;
pub const VK_DOWN: u16 = 0x28;

/// The presentation payload of one selector instance.
pub struct SelectorRequest {
    pub application_index: usize,
    pub application_name: String,
    pub application_icon_path: Option<String>,
    pub volume_percent: u8,
    pub muted: bool,
    pub locale: Locale,
    /// `(id, display name)` of each output, in display order.
    pub outputs: Vec<(String, String)>,
    pub selected_output_id: Option<String>,
}

/// Whether the selector extends beside a popup row or accompanies the
/// native taskbar menu.
#[derive(Clone, Copy, Debug, Eq, PartialEq, Structural)]
pub enum Placement {
    Adjacent,
    TaskbarCompanion,
}

/// One output choice of the selector.
pub struct OutputChoice {
    pub id: String,
    pub name: String,
}

/// What the window must do after the selector handled an input.
#[derive(Clone, Copy, Debug, Eq, PartialEq, Structural)]
pub enum SelectorEffect {
    /// Nothing changed.
    Nothing,
    /// The selector must be repainted.
    Repaint,
    /// A slider drag started: capture the pointer and repaint.
    BeginDrag,
    /// Send the volume message for the current state; `previous_volume` is
    /// restored if the owner refuses it.
    CommitVolume { previous_volume: u8, muted: bool },
    /// A slider drag ended: release the pointer, then commit as above.
    EndDragAndCommit { previous_volume: u8, muted: bool },
    /// Ask the owner to route to this choice.
    Activate(usize),
    /// Close the selector.
    Close,
}

/// The input state of an open selector.
pub struct SelectorState {
    pub application_index: usize,
    pub application_name: String,
    pub outputs: Vec<OutputChoice>,
    pub selected_choice: Option<usize>,
    pub focus_choice: usize,
    pub volume_percent: u8,
    pub muted: bool,
    pub volume_focused: bool,
    pub volume_dragging: bool,
    pub drag_start_volume: u8,
    pub hovered_choice: Option<usize>,
    pub tracking_mouse: bool,
    pub dpi: u32,
    pub locale: Locale,
}

/// Maps the selected output id to its choice index.
pub fn choice_for_selected_output(selected_output_id: Option<&str>, output_ids: &[&str]) -> (r:
    Option<usize>)
    ensures
        selected_output_id is None ==> r == Some(0usize),
        selected_output_id matches Some(s) ==> match r {
            Some(c) => 1 <= c <= output_ids@.len() && output_ids@[c - 1]@ == s@ && forall|j: int|
                0 <= j < c - 1 ==> output_ids@[j]@ != s@,
            None => forall|j: int| 0 <= j < output_ids@.len() ==> output_ids@[j]@ != s@,
        },
{
    match selected_output_id {
        None => Some(0),
        Some(selected) => {
            let mut i: usize = 0;
            while i < output_ids.len()
                invariant
                    selected_output_id == Some(selected),
                    i <= output_ids@.len(),
                    forall|j: int| 0 <= j < i ==> output_ids@[j]@ != selected@,
                decreases output_ids@.len() - i,
            {
                if text_eq(output_ids[i], selected) {
                    return Some(i + 1);
                }
                i = i + 1;
            }
            None
        },
    }
}

/// The volume percentage of a pointer at `x` on a slider spanning `left..=right`.
pub open spec fn volume_at(x: int, left: int, right: int) -> int {
    let width = max_int(right - left, 1);
    (clamp_int(x, left, right) - left) * 100 + width / 2
}

/// Maps a pointer position to a percentage, rounding to nearest and clamping
/// to the slider ends.
pub fn volume_percent_from_x(x: i32, left: i32, right: i32) -> (p: u8)
    requires
        left <= right,
        (right - left) * 100 + (right - left) / 2 <= i32::MAX,
    ensures
        p as int == volume_at(x as int, left as int, right as int) / max_int(
            right - left,
            1,
        ),
        p <= 100,
{
    let width = if right - left >= 1 {
        right - left
    } else {
        1
    };
    let clamped = clamp_i32(x, left, right) - left;
    assert(0 <= clamped <= width);
    assert(clamped * 100 <= width * 100) by (nonlinear_arith)
        requires
            0 <= clamped <= width,
    ;
    let numerator = clamped * 100 + width / 2;
    assert(numerator / width <= 100) by (nonlinear_arith)
        requires
            numerator == clamped * 100 + width / 2,
            0 <= clamped <= width,
            width >= 1,
    {
        assert(numerator < width * 101);
    }
    assert(numerator / width >= 0) by (nonlinear_arith)
        requires
            numerator >= 0,
            width >= 1,
    ;
    (numerator / width) as u8
}

/// The payload of [`VOLUME_MESSAGE`]: the percentage in the low byte and the
/// mute flag in bit 8.
pub open spec fn volume_payload(volume_percent: u8, muted: bool) -> int {
    (if volume_percent <= 100 {
        volume_percent as int
    } else {
        100
    }) + if muted {
        256int
    } else {
        0
    }
}

/// Packs a volume change into the volume message payload.
pub fn encode_volume_message(volume_percent: u8, muted: bool) -> (payload: isize)
    ensures
        payload == volume_payload(volume_percent, muted),
{
    let percent: isize = if volume_percent <= 100 {
        volume_percent as isize
    } else {
        100
    };
    let flag: isize = if muted {
        256
    } else {
        0
    };
    percent + flag
}

/// Unpacks a volume message payload: the low byte limited to 100, and bit 8.
pub fn decode_volume_message(payload: isize) -> (r: (u8, bool))
    ensures
        r.0 as int == if (payload & 255) <= 100 {
            (payload & 255) as int
        } else {
            100
        },
        r.1 == (payload & 256 != 0),
{
    let low = payload & 255;
    assert(0 <= payload & 255 <= 255) by (bit_vector);
    let percent: u8 = if low <= 100 {
        low as u8
    } else {
        100
    };
    (percent, payload & 256 != 0)
}

/// Decoding an encoded volume change gives back the percentage, limited to
/// 100, and the mute state.
pub proof fn law_volume_message_round_trip(volume_percent: u8, muted: bool)
    ensures
        ({
            let p = volume_payload(volume_percent, muted) as isize;
            let v: int = if volume_percent <= 100 { volume_percent as int } else { 100 };
            &&& (p & 255) as int == v
            &&& (p & 256 != 0) == muted
        }),
{
    let v: isize = if volume_percent <= 100 { volume_percent as isize } else { 100 };
    let f: isize = if muted { 256 } else { 0 };
    let p: isize = (v + f) as isize;
    assert((p & 255) == v && ((p & 256) != 0) == (f == 256)) by (bit_vector)
        requires
            0 <= v <= 100,
            f == 0 || f == 256,
            p == v + f,
    ;
}


/// The origin along one axis of a popup of length `size`, kept inside
/// `minimum..maximum` when it fits and pinned to `minimum` otherwise.
pub open spec fn origin_within(preferred: int, size: int, minimum: int, maximum: int) -> int {
    let latest = clamp_int(maximum - size, i32::MIN as int, i32::MAX as int);
    if latest < minimum {
        minimum
    } else {
        clamp_int(preferred, minimum, latest)
    }
}

/// Keeps a popup origin inside the work area along one axis.
pub fn clamp_origin(preferred: i32, size: i32, minimum: i32, maximum: i32) -> (r: i32)
    ensures
        r == origin_within(preferred as int, size as int, minimum as int, maximum as int),
{
    let latest = saturating_sub_i32(maximum, size);
    if latest < minimum {
        minimum
    } else {
        clamp_i32(preferred, minimum, latest)
    }
}

/// The selector rectangle beside `anchor`: to the right when it fits, else to
/// the left when that fits, else clamped; vertically aligned with the anchor
/// and kept inside the work area.
pub open spec fn adjacent_rect(anchor: Rect, work: Rect, width: int, height: int, gap: int) -> Rect {
    let right_x = anchor.right + gap;
    let left_x = anchor.left - gap - width;
    let left = if right_x + width <= work.right {
        right_x
    } else if left_x >= work.left {
        left_x
    } else {
        origin_within(right_x, width, work.left as int, work.right as int)
    };
    let top = origin_within(anchor.top as int, height, work.top as int, work.bottom as int);
    Rect { left: left as i32, top: top as i32, right: (left + width) as i32, bottom: (top + height) as i32 }
}

/// Whether `adjacent_popup_rect` can place a popup of this size beside
/// `anchor` in 32-bit coordinates.
pub fn adjacent_popup_fits(anchor: Rect, work: Rect, width: i32, height: i32, gap: i32) -> (b: bool)
    ensures
        b == (0 <= width && 0 <= height && 0 <= gap && i32::MIN <= anchor.left - gap - width
            && anchor.right + gap + width <= i32::MAX && work.left + width <= i32::MAX && i32::MIN
            <= work.right - width && anchor.top + height <= i32::MAX && work.top + height
            <= i32::MAX && i32::MIN <= work.bottom - height),
{
    let (w, h, g) = (width as i64, height as i64, gap as i64);
    let low = i32::MIN as i64;
    let high = i32::MAX as i64;
    0 <= width && 0 <= height && 0 <= gap && low <= anchor.left as i64 - g - w && anchor.right as i64
        + g + w <= high && work.left as i64 + w <= high && low <= work.right as i64 - w
        && anchor.top as i64 + h <= high && work.top as i64 + h <= high && low <= work.bottom as i64
        - h
}

/// Places the selector beside `anchor` inside `work`.
pub fn adjacent_popup_rect(anchor: Rect, work: Rect, width: i32, height: i32, gap: i32) -> (r: Rect)
    requires
        0 <= width,
        0 <= height,
        0 <= gap,
        i32::MIN <= anchor.left - gap - width,
        anchor.right + gap + width <= i32::MAX,
        work.left + width <= i32::MAX,
        i32::MIN <= work.right - width,
        anchor.top + height <= i32::MAX,
        work.top + height <= i32::MAX,
        i32::MIN <= work.bottom - height,
    ensures
        r == adjacent_rect(anchor, work, width as int, height as int, gap as int),
{
    let right_x = anchor.right + gap;
    let left_x = anchor.left - gap - width;
    let left = if right_x + width <= work.right {
        right_x
    } else if left_x >= work.left {
        left_x
    } else {
        clamp_origin(right_x, width, work.left, work.right)
    };
    let top = clamp_origin(anchor.top, height, work.top, work.bottom);
    Rect { left, top, right: left + width, bottom: top + height }
}

/// A selector no larger than the work area, opened from an anchor inside
/// the work area, lies entirely inside it.
pub proof fn law_adjacent_rect_fits(anchor: Rect, work: Rect, width: int, height: int, gap: int)
    requires
        work.left <= anchor.left <= anchor.right <= work.right,
        0 <= width <= work.right - work.left,
        0 <= height <= work.bottom - work.top,
        0 <= gap,
    ensures
        work.left <= adjacent_rect(anchor, work, width, height, gap).left,
        adjacent_rect(anchor, work, width, height, gap).left + width <= work.right,
        work.top <= adjacent_rect(anchor, work, width, height, gap).top,
        adjacent_rect(anchor, work, width, height, gap).top + height <= work.bottom,
{
}

/// Whether a pointer press at `point` lies outside the selector `bounds`.
pub fn should_dismiss_for_pointer(point: Point, bounds: Rect) -> (r: bool)
    ensures
        r == !(bounds.left <= point.x < bounds.right && bounds.top <= point.y < bounds.bottom),
{
    point.x < bounds.left || point.x >= bounds.right || point.y < bounds.top || point.y >= bounds.bottom
}

/// The choice row under a physical point, for a selector with `count`
/// choices drawn at `dpi`.
pub open spec fn choice_under(x: int, y: int, count: int, dpi: int) -> Option<int> {
    let width = scaled(WINDOW_WIDTH as int, dpi);
    let edge = scaled(EDGE_PADDING as int, dpi);
    let height = scaled(CHOICES_TOP + ROW_HEIGHT * count, dpi) + edge;
    let top = scaled(CHOICES_TOP as int, dpi);
    let row = max_int(scaled(ROW_HEIGHT as int, dpi), 1);
    if x < edge || x >= width - edge || y < top || y >= height - edge {
        None
    } else if (y - top) / row < count {
        Some((y - top) / row)
    } else {
        None
    }
}

impl SelectorState {
    /// The state's bounds and indices are consistent.
    pub open spec fn wf(&self) -> bool {
        &&& self.outputs@.len() <= MAX_OUTPUTS
        &&& 96 <= self.dpi <= MAX_DPI
        &&& self.focus_choice < self.outputs@.len() + 1
        &&& self.volume_percent <= 100
        &&& self.drag_start_volume <= 100
    }

    /// Opens the state for a request at `dpi` (at least 96).
    pub fn from_request(request: SelectorRequest, dpi: u32) -> (state: Self)
        requires
            request.outputs@.len() <= MAX_OUTPUTS,
            dpi <= MAX_DPI,
        ensures
            state.wf(),
            state.application_index == request.application_index,
            state.application_name@ == request.application_name@,
            state.outputs@.len() == request.outputs@.len(),
            forall|i: int|
                0 <= i < request.outputs@.len() ==> (#[trigger] state.outputs@[i]).id@ == request.outputs@[i].0@
                    && state.outputs@[i].name@ == request.outputs@[i].1@,
            state.volume_percent as int == if request.volume_percent <= 100 {
                request.volume_percent as int
            } else {
                100
            },
            state.drag_start_volume == state.volume_percent,
            state.muted == request.muted,
            state.dpi == if dpi < 96 {
                96
            } else {
                dpi
            },
            state.locale == request.locale,
            request.selected_output_id is None ==> state.selected_choice == Some(0usize),
            request.selected_output_id matches Some(s) ==> match state.selected_choice {
                Some(c) => 1 <= c <= state.outputs@.len() && state.outputs@[c - 1].id@ == s@
                    && forall|j: int| 0 <= j < c - 1 ==> state.outputs@[j].id@ != s@,
                None => forall|j: int| 0 <= j < state.outputs@.len() ==> state.outputs@[j].id@ != s@,
            },
            state.focus_choice == match state.selected_choice {
                Some(c) => c,
                None => 0,
            },
            !state.volume_focused,
            !state.volume_dragging,
            state.hovered_choice is None,
            !state.tracking_mouse,
    {
        let SelectorRequest {
            application_index,
            application_name,
            application_icon_path: _,
            volume_percent,
            muted,
            locale,
            outputs: pairs,
            selected_output_id,
        } = request;
        let ghost requested = pairs@;
        let mut pairs = pairs;
        let mut reversed: Vec<OutputChoice> = Vec::new();
        while pairs.len() > 0
            invariant
                requested.len() == pairs@.len() + reversed@.len(),
                pairs@ == requested.take(pairs@.len() as int),
                forall|k: int|
                    0 <= k < reversed@.len() ==> (#[trigger] reversed@[k]).id@ == requested[requested.len() - 1 - k].0@
                        && reversed@[k].name@ == requested[requested.len() - 1 - k].1@,
            decreases pairs@.len(),
        {
            let (id, name) = pairs.pop().unwrap();
            reversed.push(OutputChoice { id, name });
        }
        let mut outputs: Vec<OutputChoice> = Vec::new();
        while reversed.len() > 0
            invariant
                requested.len() == outputs@.len() + reversed@.len(),
                forall|k: int|
                    0 <= k < reversed@.len() ==> (#[trigger] reversed@[k]).id@ == requested[requested.len() - 1 - k].0@
                        && reversed@[k].name@ == requested[requested.len() - 1 - k].1@,
                forall|k: int|
                    0 <= k < outputs@.len() ==> (#[trigger] outputs@[k]).id@ == requested[k].0@
                        && outputs@[k].name@ == requested[k].1@,
            decreases reversed@.len(),
        {
            let choice = reversed.pop().unwrap();
            outputs.push(choice);
        }
        let mut ids: Vec<&str> = Vec::new();
        let mut i: usize = 0;
        while i < outputs.len()
            invariant
                i <= outputs@.len(),
                ids@.len() == i,
                forall|k: int| 0 <= k < i ==> (#[trigger] ids@[k])@ == outputs@[k].id@,
            decreases outputs@.len() - i,
        {
            ids.push(outputs[i].id.as_str());
            i = i + 1;
        }
        let selected = match &selected_output_id {
            Some(s) => Some(s.as_str()),
            None => None,
        };
        assert(selected is None <==> selected_output_id is None);
        assert(selected_output_id matches Some(s) ==> selected matches Some(t) && t@ == s@);
        let selected_choice = choice_for_selected_output(selected, ids.as_slice());
        assert(ids@.len() == outputs@.len());
        assert forall|j: int| 0 <= j < outputs@.len() implies #[trigger] outputs@[j].id@ == ids@[j]@ by {}
        proof {
            if let Some(sv) = selected_output_id {
                if let Some(c) = selected_choice {
                    assert(outputs@[c - 1].id@ == ids@[c - 1]@);
                    assert forall|j: int| 0 <= j < c - 1 implies outputs@[j].id@ != sv@ by {
                        assert(outputs@[j].id@ == ids@[j]@);
                    }
                } else {
                    assert forall|j: int| 0 <= j < outputs@.len() implies outputs@[j].id@ != sv@ by {
                        assert(outputs@[j].id@ == ids@[j]@);
                    }
                }
            }
        }
        let volume = if volume_percent <= 100 {
            volume_percent
        } else {
            100
        };
        let focus_choice = match selected_choice {
            Some(c) => c,
            None => 0,
        };
        SelectorState {
            application_index,
            application_name,
            outputs,
            selected_choice,
            focus_choice,
            volume_percent: volume,
            muted,
            volume_focused: false,
            volume_dragging: false,
            drag_start_volume: volume,
            hovered_choice: None,
            tracking_mouse: false,
            dpi: if dpi < 96 {
                96
            } else {
                dpi
            },
            locale,
        }
    }

    /// Converts a logical length to physical pixels at the selector's DPI.
    pub fn scale(&self, value: i32) -> (r: i32)
        requires
            self.wf(),
            0 <= value <= 2_000_000,
        ensures
            r == scaled(value as int, self.dpi as int),
            value <= r <= value * 11,
    {
        assert(value * self.dpi <= 2_000_000 * 1_000) by (nonlinear_arith)
            requires
                0 <= value <= 2_000_000,
                0 <= self.dpi <= 1_000,
        ;
        assert(value <= value * self.dpi / 96 <= value * 11) by (nonlinear_arith)
            requires
                0 <= value,
                96 <= self.dpi <= 1_000,
        ;
        scale(value, self.dpi)
    }

    /// Number of rows: System default followed by each output.
    pub fn choice_count(&self) -> (n: usize)
        requires
            self.wf(),
        ensures
            n == self.outputs@.len() + 1,
    {
        self.outputs.len() + 1
    }

    /// The choice row under a physical point.
    pub fn choice_at(&self, x: i32, y: i32) -> (r: Option<usize>)
        requires
            self.wf(),
        ensures
            match r {
                Some(c) => choice_under(x as int, y as int, (self.outputs@.len() + 1) as int, self.dpi as int) == Some(c as int),
                None => choice_under(x as int, y as int, (self.outputs@.len() + 1) as int, self.dpi as int) is None,
            },
    {
        let count = self.choice_count();
        let width = self.scale(WINDOW_WIDTH);
        let edge = self.scale(EDGE_PADDING);
        let rows = CHOICES_TOP + ROW_HEIGHT * count as i32;
        let height = self.scale(rows) + edge;
        let choices_top = self.scale(CHOICES_TOP);
        proof {
            assert(scaled(rows as int, self.dpi as int) >= scaled(CHOICES_TOP as int, self.dpi as int)) by (nonlinear_arith)
                requires
                    rows >= CHOICES_TOP,
                    self.dpi >= 0,
            {
                assert(rows * self.dpi >= CHOICES_TOP * self.dpi);
            }
        }
        if x < edge || x >= width - edge || y < choices_top || y >= height - edge {
            return None;
        }
        let row = self.scale(ROW_HEIGHT);
        let row = if row >= 1 {
            row
        } else {
            1
        };
        let choice = (y - choices_top) / row;
        if (choice as usize) < count {
            Some(choice as usize)
        } else {
            None
        }
    }

    /// The label of a choice row: the localized System default, or the
    /// output's name.
    pub fn label_for_choice(&self, choice: usize) -> (r: Option<&str>)
        ensures
            choice == 0 ==> (r matches Some(s) && s@ == text_of(self.locale, Text::SystemDefault)),
            choice > 0 ==> match r {
                Some(s) => choice - 1 < self.outputs@.len() && s@ == self.outputs@[choice - 1].name@,
                None => choice - 1 >= self.outputs@.len(),
            },
    {
        if choice == 0 {
            Some(text(self.locale, Text::SystemDefault))
        } else if choice - 1 < self.outputs.len() {
            Some(self.outputs[choice - 1].name.as_str())
        } else {
            None
        }
    }

    /// Whether a physical `y` lies on the volume row.
    pub fn volume_row_at(&self, y: i32) -> (r: bool)
        requires
            self.wf(),
        ensures
            r == (scaled(VOLUME_TOP as int, self.dpi as int) <= y < scaled(VOLUME_BOTTOM as int, self.dpi as int)),
    {
        y >= self.scale(VOLUME_TOP) && y < self.scale(VOLUME_BOTTOM)
    }

    /// Whether a physical point lies on the mute button.
    pub fn mute_at(&self, x: i32, y: i32) -> (r: bool)
        requires
            self.wf(),
        ensures
            r == ((scaled(VOLUME_TOP as int, self.dpi as int) <= y < scaled(VOLUME_BOTTOM as int, self.dpi as int))
                && scaled(MUTE_LEFT as int, self.dpi as int) <= x < scaled(MUTE_RIGHT as int, self.dpi as int)),
    {
        self.volume_row_at(y) && x >= self.scale(MUTE_LEFT) && x < self.scale(MUTE_RIGHT)
    }

    /// Whether a physical point lies on the volume slider or its margin.
    pub fn slider_at(&self, x: i32, y: i32) -> (r: bool)
        requires
            self.wf(),
        ensures
            r == ((scaled(VOLUME_TOP as int, self.dpi as int) <= y < scaled(VOLUME_BOTTOM as int, self.dpi as int))
                && scaled(SLIDER_LEFT - 4, self.dpi as int) <= x <= scaled(SLIDER_RIGHT + 4, self.dpi as int)),
    {
        self.volume_row_at(y) && x >= self.scale(SLIDER_LEFT - 4) && x <= self.scale(SLIDER_RIGHT + 4)
    }

    /// The volume percentage for a pointer at physical `x` on the slider.
    pub fn volume_from_x(&self, x: i32) -> (p: u8)
        requires
            self.wf(),
        ensures
            p <= 100,
            p as int == volume_at(
                x as int,
                scaled(SLIDER_LEFT as int, self.dpi as int),
                scaled(SLIDER_RIGHT as int, self.dpi as int),
            ) / max_int(
                scaled(SLIDER_RIGHT as int, self.dpi as int) - scaled(SLIDER_LEFT as int, self.dpi as int),
                1,
            ),
    {
        let left = self.scale(SLIDER_LEFT);
        let right = self.scale(SLIDER_RIGHT);
        proof {
            assert(SLIDER_LEFT * self.dpi <= SLIDER_RIGHT * self.dpi) by (nonlinear_arith)
                requires
                    self.dpi >= 0,
            ;
            assert(SLIDER_RIGHT * self.dpi <= 180_000) by (nonlinear_arith)
                requires
                    self.dpi <= 1_000,
            ;
        }
        volume_percent_from_x(x, left, right)
    }
}


impl SelectorState {
    /// The pointer moved to a physical point: a running drag follows it and
    /// the hovered row is updated. Returns whether a repaint is needed.
    pub fn pointer_moved(&mut self, x: i32, y: i32) -> (repaint: bool)
        requires
            old(self).wf(),
        ensures
            final(self).wf(),
            final(self).volume_percent == if old(self).volume_dragging {
                final(self).volume_from_x_spec(x)
            } else {
                old(self).volume_percent
            },
            final(self).hovered_choice == match choice_under(
                x as int,
                y as int,
                (old(self).outputs@.len() + 1) as int,
                old(self).dpi as int,
            ) {
                Some(c) => Some(c as usize),
                None => None,
            },
            repaint == (final(self).volume_percent != old(self).volume_percent
                || final(self).hovered_choice != old(self).hovered_choice),
            final(self).same_except_pointer(*old(self)),
    {
        let mut repaint = false;
        if self.volume_dragging {
            let volume = self.volume_from_x(x);
            if volume != self.volume_percent {
                self.volume_percent = volume;
                repaint = true;
            }
        }
        let hovered = self.choice_at(x, y);
        if hovered != self.hovered_choice {
            self.hovered_choice = hovered;
            repaint = true;
        }
        repaint
    }

    /// The volume percentage for a pointer at physical `x`.
    pub open spec fn volume_from_x_spec(&self, x: i32) -> u8 {
        (volume_at(
            x as int,
            scaled(SLIDER_LEFT as int, self.dpi as int),
            scaled(SLIDER_RIGHT as int, self.dpi as int),
        ) / max_int(
            scaled(SLIDER_RIGHT as int, self.dpi as int) - scaled(SLIDER_LEFT as int, self.dpi as int),
            1,
        )) as u8
    }

    /// Everything but the pointer-driven fields is unchanged.
    pub open spec fn same_except_pointer(&self, other: SelectorState) -> bool {
        &&& self.application_index == other.application_index
        &&& self.application_name == other.application_name
        &&& self.outputs == other.outputs
        &&& self.selected_choice == other.selected_choice
        &&& self.focus_choice == other.focus_choice
        &&& self.muted == other.muted
        &&& self.volume_focused == other.volume_focused
        &&& self.volume_dragging == other.volume_dragging
        &&& self.drag_start_volume == other.drag_start_volume
        &&& self.tracking_mouse == other.tracking_mouse
        &&& self.dpi == other.dpi
        &&& self.locale == other.locale
    }

    /// The pointer left the selector: nothing is hovered any more.
    pub fn pointer_left(&mut self)
        requires
            old(self).wf(),
        ensures
            final(self).wf(),
            final(self).hovered_choice is None,
            !final(self).tracking_mouse,
            final(self).volume_percent == old(self).volume_percent,
            final(self).outputs == old(self).outputs,
            final(self).focus_choice == old(self).focus_choice,
            final(self).muted == old(self).muted,
            final(self).volume_dragging == old(self).volume_dragging,
            final(self).volume_focused == old(self).volume_focused,
    {
        self.tracking_mouse = false;
        self.hovered_choice = None;
    }

    /// The primary button went down at a physical point: the slider starts a
    /// drag at that position and the mute button takes focus.
    pub fn pointer_pressed(&mut self, x: i32, y: i32) -> (effect: SelectorEffect)
        requires
            old(self).wf(),
        ensures
            final(self).wf(),
            old(self).slider_at_spec(x, y) ==> {
                &&& effect == SelectorEffect::BeginDrag
                &&& final(self).volume_focused
                &&& final(self).volume_dragging
                &&& final(self).drag_start_volume == old(self).volume_percent
                &&& final(self).volume_percent == old(self).volume_from_x_spec(x)
                &&& final(self).muted == old(self).muted
                &&& final(self).focus_choice == old(self).focus_choice
            },
            !old(self).slider_at_spec(x, y) && old(self).mute_at_spec(x, y) ==> {
                &&& effect == SelectorEffect::Repaint
                &&& final(self).volume_focused
                &&& final(self).volume_dragging == old(self).volume_dragging
                &&& final(self).volume_percent == old(self).volume_percent
                &&& final(self).muted == old(self).muted
                &&& final(self).focus_choice == old(self).focus_choice
            },
            !old(self).slider_at_spec(x, y) && !old(self).mute_at_spec(x, y) ==> {
                &&& effect == SelectorEffect::Nothing
                &&& final(self).volume_focused == old(self).volume_focused
                &&& final(self).volume_dragging == old(self).volume_dragging
                &&& final(self).volume_percent == old(self).volume_percent
                &&& final(self).muted == old(self).muted
                &&& final(self).focus_choice == old(self).focus_choice
            },
            final(self).outputs == old(self).outputs,
            final(self).dpi == old(self).dpi,
    {
        if self.slider_at(x, y) {
            self.volume_focused = true;
            self.volume_dragging = true;
            self.drag_start_volume = self.volume_percent;
            self.volume_percent = self.volume_from_x(x);
            SelectorEffect::BeginDrag
        } else if self.mute_at(x, y) {
            self.volume_focused = true;
            SelectorEffect::Repaint
        } else {
            SelectorEffect::Nothing
        }
    }

    /// Whether a physical point lies on the volume slider or its margin.
    pub open spec fn slider_at_spec(&self, x: i32, y: i32) -> bool {
        (scaled(VOLUME_TOP as int, self.dpi as int) <= y < scaled(VOLUME_BOTTOM as int, self.dpi as int))
            && scaled(SLIDER_LEFT - 4, self.dpi as int) <= x <= scaled(SLIDER_RIGHT + 4, self.dpi as int)
    }

    /// Whether a physical point lies on the mute button.
    pub open spec fn mute_at_spec(&self, x: i32, y: i32) -> bool {
        (scaled(VOLUME_TOP as int, self.dpi as int) <= y < scaled(VOLUME_BOTTOM as int, self.dpi as int))
            && scaled(MUTE_LEFT as int, self.dpi as int) <= x < scaled(MUTE_RIGHT as int, self.dpi as int)
    }

    /// The primary button went up at a physical point: a drag ends and
    /// commits, the mute button toggles, a choice row is activated.
    pub fn pointer_released(&mut self, x: i32, y: i32) -> (effect: SelectorEffect)
        requires
            old(self).wf(),
        ensures
            final(self).wf(),
            old(self).volume_dragging ==> {
                &&& effect == (SelectorEffect::EndDragAndCommit {
                    previous_volume: old(self).drag_start_volume,
                    muted: old(self).muted,
                })
                &&& final(self).volume_percent == old(self).volume_from_x_spec(x)
                &&& !final(self).volume_dragging
                &&& final(self).focus_choice == old(self).focus_choice
                &&& final(self).volume_focused == old(self).volume_focused
            },
            !old(self).volume_dragging && old(self).mute_at_spec(x, y) ==> {
                &&& effect == (SelectorEffect::CommitVolume {
                    previous_volume: old(self).volume_percent,
                    muted: !old(self).muted,
                })
                &&& final(self).volume_percent == old(self).volume_percent
                &&& final(self).focus_choice == old(self).focus_choice
                &&& final(self).volume_focused == old(self).volume_focused
            },
            !old(self).volume_dragging && !old(self).mute_at_spec(x, y) ==> match choice_under(
                x as int,
                y as int,
                (old(self).outputs@.len() + 1) as int,
                old(self).dpi as int,
            ) {
                Some(c) => {
                    &&& effect == SelectorEffect::Activate(c as usize)
                    &&& final(self).focus_choice == c
                    &&& !final(self).volume_focused
                    &&& final(self).volume_percent == old(self).volume_percent
                },
                None => {
                    &&& effect == SelectorEffect::Nothing
                    &&& final(self).focus_choice == old(self).focus_choice
                    &&& final(self).volume_focused == old(self).volume_focused
                    &&& final(self).volume_percent == old(self).volume_percent
                },
            },
            !old(self).volume_dragging ==> !final(self).volume_dragging,
            final(self).muted == old(self).muted,
            final(self).outputs == old(self).outputs,
            final(self).dpi == old(self).dpi,
    {
        if self.volume_dragging {
            self.volume_percent = self.volume_from_x(x);
            self.volume_dragging = false;
            SelectorEffect::EndDragAndCommit {
                previous_volume: self.drag_start_volume,
                muted: self.muted,
            }
        } else if self.mute_at(x, y) {
            SelectorEffect::CommitVolume { previous_volume: self.volume_percent, muted: !self.muted }
        } else {
            match self.choice_at(x, y) {
                Some(choice) => {
                    self.volume_focused = false;
                    self.focus_choice = choice;
                    SelectorEffect::Activate(choice)
                },
                None => SelectorEffect::Nothing,
            }
        }
    }

    /// The pointer capture was lost: a running drag is cancelled and the
    /// volume returns to where the drag started. Returns whether it was.
    pub fn capture_lost(&mut self) -> (cancelled: bool)
        requires
            old(self).wf(),
        ensures
            final(self).wf(),
            cancelled == old(self).volume_dragging,
            !final(self).volume_dragging,
            final(self).volume_percent == (if cancelled {
                old(self).drag_start_volume
            } else {
                old(self).volume_percent
            }),
            final(self).muted == old(self).muted,
            final(self).focus_choice == old(self).focus_choice,
            final(self).outputs == old(self).outputs,
            final(self).dpi == old(self).dpi,
    {
        if self.volume_dragging {
            self.volume_dragging = false;
            self.volume_percent = self.drag_start_volume;
            true
        } else {
            false
        }
    }

    /// A key went down: arrows move focus between the volume row and the
    /// choices (Left/Right adjust the volume while it has focus), Enter and
    /// Space activate, Escape and Left close.
    pub fn key_pressed(&mut self, key: u16) -> (effect: SelectorEffect)
        requires
            old(self).wf(),
        ensures
            final(self).wf(),
            final(self).outputs == old(self).outputs,
            final(self).dpi == old(self).dpi,
            final(self).muted == old(self).muted,
            final(self).volume_dragging == old(self).volume_dragging,
            key == VK_DOWN ==> (effect == SelectorEffect::Repaint && !final(self).volume_focused
                && final(self).focus_choice == (if old(self).volume_focused {
                0
            } else {
                (old(self).focus_choice + 1) % (old(self).outputs@.len() + 1) as int
            })),
            key == VK_UP ==> (effect == SelectorEffect::Repaint && (if old(self).volume_focused {
                !final(self).volume_focused && final(self).focus_choice == old(self).outputs@.len()
            } else if old(self).focus_choice == 0 {
                final(self).volume_focused && final(self).focus_choice == 0
            } else {
                !final(self).volume_focused && final(self).focus_choice == old(self).focus_choice - 1
            })),
            key == VK_RETURN || key == VK_SPACE ==> (final(self).volume_percent == old(self).volume_percent
                && final(self).focus_choice == old(self).focus_choice && (if old(self).volume_focused {
                effect == (SelectorEffect::CommitVolume {
                    previous_volume: old(self).volume_percent,
                    muted: !old(self).muted,
                })
            } else {
                effect == SelectorEffect::Activate(old(self).focus_choice)
            })),
            key == VK_RIGHT && old(self).volume_focused ==> (effect == (SelectorEffect::CommitVolume {
                previous_volume: old(self).volume_percent,
                muted: old(self).muted,
            }) && final(self).volume_percent == (if old(self).volume_percent + 5 >= 100 {
                100
            } else {
                old(self).volume_percent + 5
            })),
            key == VK_LEFT && old(self).volume_focused ==> (effect == (SelectorEffect::CommitVolume {
                previous_volume: old(self).volume_percent,
                muted: old(self).muted,
            }) && final(self).volume_percent == (if old(self).volume_percent <= 5 {
                0
            } else {
                old(self).volume_percent - 5
            })),
            key == VK_ESCAPE || (key == VK_LEFT && !old(self).volume_focused) ==> (effect
                == SelectorEffect::Close && final(self).volume_percent == old(self).volume_percent),
            !(key == VK_DOWN || key == VK_UP || key == VK_RETURN || key == VK_SPACE || key == VK_RIGHT
                || key == VK_LEFT || key == VK_ESCAPE) ==> effect == SelectorEffect::Nothing,
            key == VK_RIGHT && !old(self).volume_focused ==> effect == SelectorEffect::Nothing,
            key == VK_DOWN || key == VK_UP ==> final(self).volume_percent == old(self).volume_percent,
            (key == VK_RIGHT || key == VK_LEFT) && old(self).volume_focused ==> final(self).volume_focused
                && final(self).focus_choice == old(self).focus_choice,
            !(key == VK_DOWN || key == VK_UP || ((key == VK_RIGHT || key == VK_LEFT) && old(
                self,
            ).volume_focused)) ==> *final(self) == *old(self),
    {
        let count = self.choice_count();
        if key == VK_DOWN {
            if self.volume_focused {
                self.volume_focused = false;
                self.focus_choice = 0;
            } else {
                self.focus_choice = (self.focus_choice + 1) % count;
            }
            SelectorEffect::Repaint
        } else if key == VK_UP {
            if self.volume_focused {
                self.focus_choice = count - 1;
                self.volume_focused = false;
            } else if self.focus_choice == 0 {
                self.volume_focused = true;
            } else {
                self.focus_choice = self.focus_choice - 1;
            }
            SelectorEffect::Repaint
        } else if key == VK_RETURN || key == VK_SPACE {
            if self.volume_focused {
                SelectorEffect::CommitVolume { previous_volume: self.volume_percent, muted: !self.muted }
            } else {
                SelectorEffect::Activate(self.focus_choice)
            }
        } else if key == VK_RIGHT && self.volume_focused {
            let previous = self.volume_percent;
            self.volume_percent = if previous >= 95 {
                100
            } else {
                previous + 5
            };
            SelectorEffect::CommitVolume { previous_volume: previous, muted: self.muted }
        } else if key == VK_LEFT && self.volume_focused {
            let previous = self.volume_percent;
            self.volume_percent = if previous <= 5 {
                0
            } else {
                previous - 5
            };
            SelectorEffect::CommitVolume { previous_volume: previous, muted: self.muted }
        } else if key == VK_ESCAPE || key == VK_LEFT {
            SelectorEffect::Close
        } else {
            SelectorEffect::Nothing
        }
    }

    /// Applies the requested mute state before the volume message is sent and
    /// returns its payload together with the mute state to restore on refusal.
    pub fn begin_volume_commit(&mut self, requested_muted: bool) -> (r: (isize, bool))
        requires
            old(self).wf(),
        ensures
            final(self).wf(),
            final(self).muted == requested_muted,
            r.1 == old(self).muted,
            r.0 == volume_payload(old(self).volume_percent, requested_muted),
            final(self).volume_percent == old(self).volume_percent,
            final(self).focus_choice == old(self).focus_choice,
            final(self).outputs == old(self).outputs,
            final(self).dpi == old(self).dpi,
    {
        let previous_muted = self.muted;
        self.muted = requested_muted;
        (encode_volume_message(self.volume_percent, self.muted), previous_muted)
    }

    /// Keeps the committed state if the owner accepted it, else restores the
    /// previous volume and mute state.
    pub fn finish_volume_commit(&mut self, previous_volume: u8, previous_muted: bool, accepted: bool)
        requires
            old(self).wf(),
            previous_volume <= 100,
        ensures
            final(self).wf(),
            accepted ==> final(self).volume_percent == old(self).volume_percent && final(self).muted
                == old(self).muted,
            !accepted ==> final(self).volume_percent == previous_volume && final(self).muted
                == previous_muted,
            final(self).focus_choice == old(self).focus_choice,
            final(self).outputs == old(self).outputs,
            final(self).dpi == old(self).dpi,
    {
        if !accepted {
            self.volume_percent = previous_volume;
            self.muted = previous_muted;
        }
    }

    /// Whether a choice index denotes a row that can be activated.
    pub fn can_activate(&self, choice: usize) -> (r: bool)
        requires
            self.wf(),
        ensures
            r == (choice < self.outputs@.len() + 1),
    {
        choice < self.choice_count()
    }
}

/// The text beside the volume slider: the muted label, or the percentage.
pub fn volume_label(locale: Locale, volume_percent: u8, muted: bool) -> (s: String)
    ensures
        s@ == (if muted {
            text_of(locale, Text::Muted)
        } else {
            crate::text::decimal(volume_percent as nat) + "%"@
        }),
{
    if muted {
        String::from_str(text(locale, Text::Muted))
    } else {
        let s = crate::text::decimal_text(volume_percent as u64);
        s.concat("%")
    }
}

/// The horizontal position of the slider's thumb for a volume percentage
/// (at most a hundred) on a track from `left` to `right`.
pub open spec fn thumb_x_of(left: int, right: int, volume_percent: int) -> int {
    left + (right - left) * volume_percent / 100
}

/// Places the slider's thumb.
pub fn thumb_x(left: i32, right: i32, volume_percent: u8) -> (x: i32)
    requires
        left <= right,
        right - left <= i32::MAX,
        (right - left) * volume_percent <= i32::MAX,
        volume_percent <= 100,
    ensures
        x == thumb_x_of(left as int, right as int, volume_percent as int),
        left <= x <= right,
{
    let width = right as i64 - left as i64;
    assert(0 <= width * volume_percent <= 0x7fff_ffff * 100) by (nonlinear_arith)
        requires
            0 <= width <= 0x7fff_ffff,
            0 <= volume_percent <= 100,
    ;
    let offset = width * (volume_percent as i64) / 100;
    assert(0 <= offset <= width) by (nonlinear_arith)
        requires
            offset == width * volume_percent / 100,
            0 <= width,
            0 <= volume_percent <= 100,
    ;
    left + offset as i32
}

} // verus!
