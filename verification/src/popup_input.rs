//! Keyboard and pointer input of the popup window.
//!
//! The window procedure hands each input to [`PopupInput`] and performs the
//! action it returns (repainting, activating an element, switching pages,
//! hiding the popup). Elements are located by [`crate::layout`].

use vstd::prelude::*;

use crate::geometry::{Rect, scale, scaled};
use crate::layout::{
    Page, Target, APPLICATION_ROW_HEIGHT, CONTENT_TOP_PADDING, HEADER_HEIGHT, MAX_LAYOUT_ROWS,
    clamp_focus, index_for_target, navigation_count, navigation_count_of, navigation_index_for_target,
    target_for_view_navigation_index, view_target_for_index,
};

verus! {

/// `VK_TAB`.
pub const VK_TAB: u16 = 0x09;

/// `VK_RETURN`.
pub const VK_RETURN: u16 = 0x0D;

/// `VK_ESCAPE`.
pub const VK_ESCAPE: u16 = 0x1B;

/// `VK_SPACE`.
pub const VK_SPACE: u16 = 0x20;

/// `VK_UP`.
pub const VK_UP: u16 = 0x26;

/// `VK_RIGHT`.
pub const VK_RIGHT: u16 = 0x27;

/// `VK_DOWN`.
pub const VK_DOWN: u16 = 0x28;

/// `WA_INACTIVE`: the window is being deactivated.
pub const WA_INACTIVE: u32 = 0;

/// How many times the taskbar companion looks again for the native menu.
pub const TASKBAR_COMPANION_MAX_ATTEMPTS: u8 = 3;

/// What the window must do after a key went down.
#[derive(Clone, Copy, Debug, Eq, PartialEq, Structural)]
pub enum KeyAction {
    /// Hide the popup (the tray icon keeps the program alive).
    Hide,
    /// Return to the main page.
    ShowMain,
    /// Return to the settings page.
    ShowSettings,
    /// The focus moved: repaint.
    Repaint,
    /// Activate an element, then repaint.
    Activate(Target),
    /// Open the output selector of an application row.
    OpenSelector(usize),
    /// Nothing to do.
    Nothing,
}

/// The input state of the popup.
pub struct PopupInput {
    pub view: Page,
    pub application_count: usize,
    /// The keyboard position.
    pub focus_index: usize,
    /// Whether the keyboard focus is drawn.
    pub keyboard_focus_visible: bool,
    /// The element under the pointer.
    pub hovered: Option<Target>,
    /// The element the primary button went down on.
    pub pressed: Option<Target>,
}

impl PopupInput {
    /// The state's invariant: the row count stays within the layout's bound.
    pub open spec fn wf(&self) -> bool {
        self.application_count <= MAX_LAYOUT_ROWS
    }

    /// The element at the keyboard position, if any.
    pub open spec fn focused(&self) -> Option<Target> {
        view_target_for_index(self.focus_index as int, self.view, self.application_count as int)
    }

    /// A key went down: Escape leaves the page (hiding the popup from the
    /// main page), Tab and Down move forward, Up moves back (both wrapping),
    /// Enter and Space activate the focused element, Right opens the focused
    /// row's selector. Any key shows the keyboard focus.
    pub fn key_pressed(&mut self, key: u16) -> (action: KeyAction)
        requires
            old(self).wf(),
        ensures
            final(self).wf(),
            final(self).keyboard_focus_visible,
            final(self).view == old(self).view,
            final(self).application_count == old(self).application_count,
            final(self).hovered == old(self).hovered,
            final(self).pressed == old(self).pressed,
            key == VK_ESCAPE ==> action == (match old(self).view {
                Page::Main => KeyAction::Hide,
                Page::Settings => KeyAction::ShowMain,
                Page::Languages => KeyAction::ShowSettings,
            }) && final(self).focus_index == old(self).focus_index,
            key == VK_TAB || key == VK_DOWN ==> action == KeyAction::Repaint && final(self).focus_index
                == (old(self).focus_index + 1) % navigation_count_of(
                old(self).view,
                old(self).application_count as int,
            ),
            key == VK_UP ==> action == KeyAction::Repaint && final(self).focus_index == (if old(
                self).focus_index == 0 {
                navigation_count_of(old(self).view, old(self).application_count as int) - 1
            } else {
                old(self).focus_index - 1
            }),
            key == VK_RETURN || key == VK_SPACE ==> final(self).focus_index == old(self).focus_index
                && action == (match old(self).focused() {
                Some(t) => KeyAction::Activate(t),
                None => KeyAction::Nothing,
            }),
            key == VK_RIGHT ==> final(self).focus_index == old(self).focus_index && action == (
            match old(self).focused() {
                Some(Target::Application(i)) => KeyAction::OpenSelector(i),
                _ => KeyAction::Nothing,
            }),
            !(key == VK_ESCAPE || key == VK_TAB || key == VK_DOWN || key == VK_UP || key == VK_RETURN
                || key == VK_SPACE || key == VK_RIGHT) ==> action == KeyAction::Nothing
                && final(self).focus_index == old(self).focus_index,
    {
        self.keyboard_focus_visible = true;
        let count = navigation_count(self.view, self.application_count);
        if key == VK_ESCAPE {
            match self.view {
                Page::Main => KeyAction::Hide,
                Page::Settings => KeyAction::ShowMain,
                Page::Languages => KeyAction::ShowSettings,
            }
        } else if key == VK_TAB || key == VK_DOWN {
            self.focus_index = if self.focus_index < usize::MAX {
                (self.focus_index + 1) % count
            } else {
                ((self.focus_index % count) + 1) % count
            };
            proof {
                if old(self).focus_index == usize::MAX {
                    let f = old(self).focus_index as int;
                    let c = count as int;
                    vstd::arithmetic::div_mod::lemma_add_mod_noop(f, 1, c);
                    vstd::arithmetic::div_mod::lemma_add_mod_noop(f % c, 1, c);
                    vstd::arithmetic::div_mod::lemma_mod_twice(f, c);
                }
            }
            KeyAction::Repaint
        } else if key == VK_UP {
            self.focus_index = if self.focus_index == 0 {
                count - 1
            } else {
                self.focus_index - 1
            };
            KeyAction::Repaint
        } else if key == VK_RETURN || key == VK_SPACE {
            match target_for_view_navigation_index(self.focus_index, self.view, self.application_count) {
                Some(target) => KeyAction::Activate(target),
                None => KeyAction::Nothing,
            }
        } else if key == VK_RIGHT {
            match target_for_view_navigation_index(self.focus_index, self.view, self.application_count) {
                Some(Target::Application(index)) => KeyAction::OpenSelector(index),
                _ => KeyAction::Nothing,
            }
        } else {
            KeyAction::Nothing
        }
    }

    /// The pointer moved over `target`; returns whether the hover changed
    /// and a repaint is needed. Pointer use hides the keyboard focus.
    pub fn pointer_moved(&mut self, target: Option<Target>) -> (repaint: bool)
        ensures
            !final(self).keyboard_focus_visible,
            final(self).hovered == target,
            repaint == (target != old(self).hovered),
            final(self).pressed == old(self).pressed,
            final(self).focus_index == old(self).focus_index,
            final(self).view == old(self).view,
            final(self).application_count == old(self).application_count,
    {
        self.keyboard_focus_visible = false;
        let changed = !same_target(target, self.hovered);
        if changed {
            self.hovered = target;
        }
        changed
    }

    /// The pointer left the window: nothing is hovered.
    pub fn pointer_left(&mut self)
        ensures
            final(self).hovered is None,
            final(self).pressed == old(self).pressed,
            final(self).focus_index == old(self).focus_index,
            final(self).keyboard_focus_visible == old(self).keyboard_focus_visible,
            final(self).view == old(self).view,
            final(self).application_count == old(self).application_count,
    {
        self.hovered = None;
    }

    /// The primary button went down over `target`: it becomes the pressed
    /// element and the keyboard position moves to it. Returns whether the
    /// pointer must be captured.
    pub fn pointer_pressed(&mut self, target: Option<Target>) -> (capture: bool)
        requires
            old(self).wf(),
            target matches Some(Target::Application(i)) ==> i < usize::MAX,
        ensures
            final(self).wf(),
            !final(self).keyboard_focus_visible,
            capture == target is Some,
            target is Some ==> final(self).pressed == target,
            target is None ==> final(self).pressed == old(self).pressed,
            final(self).focus_index == (match target {
                Some(t) => match index_for_target(t, old(self).view, old(self).application_count as int) {
                    Some(i) => i as usize,
                    None => old(self).focus_index,
                },
                None => old(self).focus_index,
            }),
            final(self).hovered == old(self).hovered,
            final(self).view == old(self).view,
            final(self).application_count == old(self).application_count,
    {
        self.keyboard_focus_visible = false;
        match target {
            Some(t) => {
                if let Some(index) = navigation_index_for_target(t, self.view, self.application_count) {
                    self.focus_index = index;
                }
                self.pressed = Some(t);
                true
            },
            None => false,
        }
    }

    /// The primary button went up over `target`: the pressed element is
    /// released and returned for activation when the pointer is still on it.
    pub fn pointer_released(&mut self, target: Option<Target>) -> (activate: Option<Target>)
        ensures
            final(self).pressed is None,
            activate == (if old(self).pressed is Some && old(self).pressed == target {
                old(self).pressed
            } else {
                None
            }),
            final(self).hovered == old(self).hovered,
            final(self).focus_index == old(self).focus_index,
            final(self).keyboard_focus_visible == old(self).keyboard_focus_visible,
            final(self).view == old(self).view,
            final(self).application_count == old(self).application_count,
    {
        let pressed = self.pressed;
        self.pressed = None;
        match pressed {
            Some(p) => {
                if same_target(Some(p), target) {
                    Some(p)
                } else {
                    None
                }
            },
            None => None,
        }
    }

    /// The pointer capture was lost: the press is abandoned. Returns whether
    /// a press was pending and a repaint is needed.
    pub fn capture_lost(&mut self) -> (repaint: bool)
        ensures
            final(self).pressed is None,
            repaint == old(self).pressed is Some,
            final(self).hovered == old(self).hovered,
            final(self).focus_index == old(self).focus_index,
            final(self).keyboard_focus_visible == old(self).keyboard_focus_visible,
            final(self).view == old(self).view,
            final(self).application_count == old(self).application_count,
    {
        let had = self.pressed.is_some();
        self.pressed = None;
        had
    }
}

impl PopupInput {
    /// Switches to a page: the keyboard position goes to the page's first
    /// stop, or on the language page to the row of the current language
    /// (`current_language_row`, the first row being 0); nothing is hovered.
    pub fn show_page(&mut self, page: Page, current_language_row: usize)
        requires
            current_language_row < usize::MAX,
        ensures
            final(self).view == page,
            final(self).focus_index == (if page == Page::Languages {
                current_language_row + 1
            } else {
                0
            }),
            final(self).hovered is None,
            final(self).pressed == old(self).pressed,
            final(self).keyboard_focus_visible == old(self).keyboard_focus_visible,
            final(self).application_count == old(self).application_count,
    {
        self.view = page;
        self.focus_index = match page {
            Page::Languages => current_language_row + 1,
            _ => 0,
        };
        self.hovered = None;
    }

    /// The application list was rebuilt with `application_count` rows: the
    /// keyboard position stays on the page, nothing is hovered.
    pub fn model_refreshed(&mut self, application_count: usize)
        requires
            application_count <= MAX_LAYOUT_ROWS,
        ensures
            final(self).wf(),
            final(self).application_count == application_count,
            final(self).focus_index == (if old(self).focus_index < navigation_count_of(
                old(self).view,
                application_count as int,
            ) {
                old(self).focus_index as int
            } else {
                navigation_count_of(old(self).view, application_count as int) - 1
            }),
            final(self).hovered is None,
            final(self).view == old(self).view,
            final(self).pressed == old(self).pressed,
            final(self).keyboard_focus_visible == old(self).keyboard_focus_visible,
    {
        self.application_count = application_count;
        let count = navigation_count(self.view, application_count);
        self.focus_index = clamp_focus(self.focus_index, count);
        self.hovered = None;
    }
}

/// What activating an element does.
#[derive(Clone, Copy, Debug, Eq, PartialEq, Structural)]
pub enum Activation {
    /// Open the output selector of an application row.
    OpenSelector(usize),
    /// Start or stop the Sound Locator.
    ToggleLocator,
    /// Show the settings page.
    ShowSettings,
    /// Close the program.
    Exit,
    /// Show the main page.
    ShowMain,
    /// Turn starting at sign-in on or off.
    ToggleStartup,
    /// Open the Windows volume mixer.
    OpenWindowsMixer,
    /// Show the language page.
    ShowLanguages,
    /// Choose the language of a row of the language page.
    SelectLanguage(usize),
}

/// What activating `target` on page `view` does; `Back` returns from the
/// language page to the settings page, and from any other page to the main
/// page.
pub fn activation_for(target: Target, view: Page) -> (r: Activation)
    ensures
        r == (match target {
            Target::Application(i) => Activation::OpenSelector(i),
            Target::HeaderLocator => Activation::ToggleLocator,
            Target::Settings => Activation::ShowSettings,
            Target::Exit => Activation::Exit,
            Target::Back => if view == Page::Languages {
                Activation::ShowSettings
            } else {
                Activation::ShowMain
            },
            Target::Startup => Activation::ToggleStartup,
            Target::WindowsMixer => Activation::OpenWindowsMixer,
            Target::Language => Activation::ShowLanguages,
            Target::Locale(i) => Activation::SelectLanguage(i),
        }),
{
    match target {
        Target::Application(i) => Activation::OpenSelector(i),
        Target::HeaderLocator => Activation::ToggleLocator,
        Target::Settings => Activation::ShowSettings,
        Target::Exit => Activation::Exit,
        Target::Back => match view {
            Page::Languages => Activation::ShowSettings,
            _ => Activation::ShowMain,
        },
        Target::Startup => Activation::ToggleStartup,
        Target::WindowsMixer => Activation::OpenWindowsMixer,
        Target::Language => Activation::ShowLanguages,
        Target::Locale(i) => Activation::SelectLanguage(i),
    }
}

/// How a request to open an application's selector is met.
#[derive(Clone, Copy, Debug, Eq, PartialEq, Structural)]
pub enum SelectorOpening {
    /// No selector is open: open one.
    Open,
    /// The application's selector is already open: bring it forward.
    Focus(isize),
    /// Another application's selector is open: close it, then open one.
    Replace(isize),
}

/// Decides how to open the selector of `application_index` while
/// `open_selector` (showing `shown_application`) may be open; two selectors
/// are never open at once.
pub fn selector_opening(open_selector: Option<isize>, shown_application: Option<usize>, application_index: usize) -> (r:
    SelectorOpening)
    ensures
        r == (match open_selector {
            None => SelectorOpening::Open,
            Some(w) => if shown_application == Some(application_index) {
                SelectorOpening::Focus(w)
            } else {
                SelectorOpening::Replace(w)
            },
        }),
{
    match open_selector {
        None => SelectorOpening::Open,
        Some(w) => match shown_application {
            Some(a) => if a == application_index {
                SelectorOpening::Focus(w)
            } else {
                SelectorOpening::Replace(w)
            },
            None => SelectorOpening::Replace(w),
        },
    }
}

/// The top of an application row below the popup's top, in pixels at `dpi`.
pub open spec fn row_top_of(application_index: int, dpi: int) -> int {
    scaled(HEADER_HEIGHT + CONTENT_TOP_PADDING + APPLICATION_ROW_HEIGHT * application_index, dpi)
}

/// The screen rectangle of an application row of a popup whose window
/// rectangle is `owner`: the selector opens beside it.
pub open spec fn selector_anchor_of(owner: Rect, application_index: int, dpi: int) -> Rect {
    let top = row_top_of(application_index, dpi);
    Rect {
        left: owner.left,
        top: (owner.top + top) as i32,
        right: owner.right,
        bottom: (owner.top + top + scaled(APPLICATION_ROW_HEIGHT as int, dpi)) as i32,
    }
}

/// Whether the selector anchor of an application row lies in 32-bit
/// coordinates.
pub fn selector_anchor_fits(owner: Rect, application_index: usize, dpi: u32) -> (b: bool)
    ensures
        b == (application_index <= MAX_LAYOUT_ROWS && (HEADER_HEIGHT + CONTENT_TOP_PADDING
            + APPLICATION_ROW_HEIGHT * application_index) * dpi <= i32::MAX && owner.top
            + row_top_of(application_index as int, dpi as int) + scaled(
            APPLICATION_ROW_HEIGHT as int,
            dpi as int,
        ) <= i32::MAX),
{
    if application_index > MAX_LAYOUT_ROWS {
        return false;
    }
    let offset: i128 = 72 + 44 * (application_index as i128);
    assert(offset * dpi <= 0x1_0000_0000 * 0x1_0000_0000) by (nonlinear_arith)
        requires
            0 <= offset <= 0x1_0000_0000,
            0 <= dpi <= 0x1_0000_0000,
    ;
    let product = offset * (dpi as i128);
    if product > 0x7FFF_FFFF {
        return false;
    }
    let row_top = product / 96;
    let row_height = 44 * (dpi as i128) / 96;
    owner.top as i128 + row_top + row_height <= 0x7FFF_FFFF
}

/// The anchor of the selector of an application row.
pub fn selector_anchor(owner: Rect, application_index: usize, dpi: u32) -> (r: Rect)
    requires
        application_index <= MAX_LAYOUT_ROWS,
        (HEADER_HEIGHT + CONTENT_TOP_PADDING + APPLICATION_ROW_HEIGHT * application_index) * dpi
            <= i32::MAX,
        owner.top + row_top_of(application_index as int, dpi as int) + scaled(
            APPLICATION_ROW_HEIGHT as int,
            dpi as int,
        ) <= i32::MAX,
    ensures
        r == selector_anchor_of(owner, application_index as int, dpi as int),
        r.top == owner.top + row_top_of(application_index as int, dpi as int),
        r.bottom == owner.top + row_top_of(application_index as int, dpi as int) + scaled(
            APPLICATION_ROW_HEIGHT as int,
            dpi as int,
        ),
{
    let offset = (HEADER_HEIGHT + CONTENT_TOP_PADDING) as i64 + (APPLICATION_ROW_HEIGHT as i64)
        * (application_index as i64);
    assert(0 <= offset <= i32::MAX) by (nonlinear_arith)
        requires
            offset == 72 + 44 * application_index,
            (72 + 44 * application_index) * dpi <= i32::MAX,
            dpi >= 0,
            application_index <= MAX_LAYOUT_ROWS,
    ;
    assert(APPLICATION_ROW_HEIGHT * dpi <= i32::MAX) by (nonlinear_arith)
        requires
            (72 + 44 * application_index) * dpi <= i32::MAX,
            dpi >= 0,
            application_index >= 0,
    ;
    let row_top = scale(offset as i32, dpi);
    let row_height = scale(APPLICATION_ROW_HEIGHT, dpi);
    assert(0 <= row_top && 0 <= row_height) by (nonlinear_arith)
        requires
            row_top == (offset * dpi) / 96,
            row_height == (44 * dpi) / 96,
            offset >= 0,
            dpi >= 0,
    ;
    Rect {
        left: owner.left,
        top: owner.top + row_top,
        right: owner.right,
        bottom: owner.top + row_top + row_height,
    }
}

/// Whether two optional elements are the same.
pub fn same_target(a: Option<Target>, b: Option<Target>) -> (r: bool)
    ensures
        r == (a == b),
{
    match (a, b) {
        (None, None) => true,
        (Some(x), Some(y)) => match (x, y) {
            (Target::HeaderLocator, Target::HeaderLocator) => true,
            (Target::Application(i), Target::Application(j)) => i == j,
            (Target::Settings, Target::Settings) => true,
            (Target::Exit, Target::Exit) => true,
            (Target::Back, Target::Back) => true,
            (Target::Startup, Target::Startup) => true,
            (Target::WindowsMixer, Target::WindowsMixer) => true,
            (Target::Language, Target::Language) => true,
            (Target::Locale(i), Target::Locale(j)) => i == j,
            _ => false,
        },
        _ => false,
    }
}

/// Whether a `WM_ACTIVATE` message announces deactivation: its low word is
/// `WA_INACTIVE`.
pub fn is_deactivation(wparam: usize) -> (r: bool)
    ensures
        r == (((wparam as u32) & 0xFFFF) == WA_INACTIVE),
{
    ((wparam as u32) & 0xFFFF) == WA_INACTIVE
}

/// Whether the popup must hide once the deactivation delay passed: focus
/// went neither to the popup itself nor to its open selector.
pub fn should_hide_after_deactivation(foreground: isize, window: isize, selector: Option<isize>) -> (r:
    bool)
    ensures
        r == (foreground != window && selector != Some(foreground)),
{
    foreground != window && match selector {
        Some(s) => s != foreground,
        None => true,
    }
}

/// Whether the taskbar companion looks for the native menu once more after
/// `attempts` misses, and the new count when it does.
pub fn companion_retry(attempts: u8) -> (r: Option<u8>)
    ensures
        attempts < TASKBAR_COMPANION_MAX_ATTEMPTS ==> r == Some((attempts + 1) as u8),
        attempts >= TASKBAR_COMPANION_MAX_ATTEMPTS ==> r is None,
{
    if attempts < TASKBAR_COMPANION_MAX_ATTEMPTS {
        Some(attempts + 1)
    } else {
        None
    }
}

} // verus!
