//! The notification-area icon that opens the popup.
//!
//! The shell registers the icon with Windows; this module holds what it hands
//! Windows (the owner window, icon, callback message and tooltip buffer) and
//! reads the callback messages Windows sends back.

use vstd::prelude::*;

use crate::text::{encode_utf16, utf16_of};

verus! {

/// Private message Windows sends for notification-area icon events.
pub const CALLBACK_MESSAGE: u32 = 0x8000 + 42;

/// The identifier of the icon among its window's notification icons.
pub const ICON_ID: u32 = 1;

/// `WM_LBUTTONUP`: the primary button was released.
pub const WM_LBUTTONUP: u32 = 0x0202;

/// `WM_RBUTTONUP`: the secondary button was released.
pub const WM_RBUTTONUP: u32 = 0x0205;

/// The capacity of a notification icon's tooltip, in UTF-16 units.
pub const TOOLTIP_CAPACITY: usize = 128;

/// What a notification-area icon message asks for.
#[derive(Clone, Copy, Debug, Eq, PartialEq, Structural)]
pub enum TrayEvent {
    Activate,
}

/// The contents of a fixed UTF-16 buffer after copying `units` into it:
/// as many units as fit before a final terminator, the rest zero.
pub open spec fn buffer_after_copy(n: int, units: Seq<u16>) -> Seq<u16> {
    Seq::new(
        n as nat,
        |k: int|
            if k < n - 1 && k < units.len() {
                units[k]
            } else {
                0u16
            },
    )
}

/// Copies `value` into a fixed UTF-16 buffer, truncated so that the last
/// unit stays a terminator, and clears the rest.
pub fn write_utf16<const N: usize>(target: &mut [u16; N], value: &str)
    ensures
        final(target)@ == buffer_after_copy(N as int, utf16_of(value@)),
{
    let units = encode_utf16(value);
    let mut k: usize = 0;
    while k < N
        invariant
            k <= N,
            target@.len() == N,
            units@ == utf16_of(value@),
            forall|j: int| 0 <= j < k ==> target@[j] == buffer_after_copy(N as int, units@)[j],
        decreases N - k,
    {
        let v = if k + 1 < N && k < units.len() {
            units[k]
        } else {
            0u16
        };
        target[k] = v;
        k = k + 1;
    }
    assert(target@ =~= buffer_after_copy(N as int, units@));
}

/// What Windows is given for the notification icon.
pub struct TrayIcon {
    pub window: isize,
    pub icon: isize,
    pub tooltip: [u16; 128],
}

impl TrayIcon {
    /// The icon of `window` showing `icon`, with a tooltip.
    pub fn add(window: isize, icon: isize, tooltip: &str) -> (r: Self)
        ensures
            r.window == window,
            r.icon == icon,
            r.tooltip@ == buffer_after_copy(128, utf16_of(tooltip@)),
    {
        let mut buffer = [0u16; 128];
        write_utf16(&mut buffer, tooltip);
        TrayIcon { window, icon, tooltip: buffer }
    }

    /// Replaces the tooltip.
    pub fn set_tooltip(&mut self, tooltip: &str)
        ensures
            final(self).window == old(self).window,
            final(self).icon == old(self).icon,
            final(self).tooltip@ == buffer_after_copy(128, utf16_of(tooltip@)),
    {
        write_utf16(&mut self.tooltip, tooltip);
    }

    /// Reads a callback message's `lparam`: releasing either mouse button on
    /// the icon activates the popup. The event is in the low sixteen bits.
    pub fn event(lparam: isize) -> (r: Option<TrayEvent>)
        ensures
            r == (if ((lparam as u32) & 0xFFFF) == WM_LBUTTONUP || ((lparam as u32) & 0xFFFF)
                == WM_RBUTTONUP {
                Some(TrayEvent::Activate)
            } else {
                None
            }),
    {
        let message = (lparam as u32) & 0xFFFF;
        if message == WM_LBUTTONUP || message == WM_RBUTTONUP {
            Some(TrayEvent::Activate)
        } else {
            None
        }
    }
}

} // verus!
