//! The process-wide keyboard shortcut that opens the quick popup.
//!
//! A registration is tied to the window that receives `WM_HOTKEY`. The shell
//! makes the Windows calls; [`GlobalHotKey`] records what they answered and
//! whether an unregistration is still owed.

use vstd::prelude::*;

verus! {

/// Identifier carried in `WM_HOTKEY` for the quick popup shortcut.
pub const QUICK_POPUP_HOTKEY_ID: i32 = 0x0ADF;

/// Virtual-key code for the `A` in the default `Ctrl+Alt+A` shortcut.
pub const QUICK_POPUP_VIRTUAL_KEY: u32 = 0x41;

/// The `Alt` modifier flag.
pub const MOD_ALT: u32 = 0x0001;

/// The `Ctrl` modifier flag.
pub const MOD_CONTROL: u32 = 0x0002;

/// The flag that suppresses key-repeat messages.
pub const MOD_NOREPEAT: u32 = 0x4000;

/// Modifiers for `Ctrl+Alt+A`, including suppression of key-repeat messages.
pub const QUICK_POPUP_MODIFIERS: u32 = 0x4003;

/// The window message Windows sends for a registered shortcut.
pub const WM_HOTKEY: u32 = 0x0312;

/// Windows' `ERROR_HOTKEY_ALREADY_REGISTERED`.
pub const ERROR_HOTKEY_ALREADY_REGISTERED: u32 = 1409;

/// Human-readable form used in settings and actionable error messages.
pub const QUICK_POPUP_LABEL: &'static str = "Ctrl+Alt+A";

/// Returns whether a window message activates the quick popup shortcut.
pub fn is_quick_popup_hotkey(message: u32, wparam: usize) -> (r: bool)
    ensures
        r == (message == WM_HOTKEY && wparam == QUICK_POPUP_HOTKEY_ID),
{
    message == WM_HOTKEY && wparam == 0x0ADF
}

#[verifier::external_type_specification]
#[verifier::external_body]
pub struct ExWindowsError(windows_core::Error);

/// The `HRESULT` windows-core derives from a Win32 error code: the code
/// itself when it is zero or reads as a non-positive `i32`, else its low 16
/// bits in the Win32 facility with the failure bit set.
pub open spec fn hresult_of_win32(error: u32) -> i32 {
    if error as i32 <= 0 {
        error as i32
    } else {
        ((error % 0x10000) + 0x70000 + 0x8000_0000) as i32
    }
}

/// `windows_core::HRESULT::from_win32`, as its value.
/// Assumed: it returns `error` when that reads as a non-positive `i32`, and
/// otherwise `(error & 0xFFFF) | (7 << 16) | 0x8000_0000`.
#[verifier::external_body]
fn hresult_from_win32(error: u32) -> (code: i32)
    ensures
        code == hresult_of_win32(error),
{
    windows_core::HRESULT::from_win32(error).0
}

/// The `HRESULT` that a windows-core error carries.
pub uninterp spec fn windows_error_code(error: windows_core::Error) -> i32;

/// The `HRESULT` of a windows-core error (`windows_core::Error::code`).
/// Assumed: it depends on the error value alone, so it is named by
/// `windows_error_code`; what that code is is not stated.
#[verifier::external_body]
fn error_code(error: &windows_core::Error) -> (code: i32)
    ensures
        code == windows_error_code(*error),
{
    error.code().0
}

/// The message of a windows-core error, as its `Display` writes it.
/// Nothing is stated of it: it depends on the system's message tables.
#[verifier::external_body]
fn error_text(error: &windows_core::Error) -> (s: String) {
    format!("{}", error)
}

/// Errors from acquiring or explicitly releasing the quick popup shortcut.
#[derive(Debug)]
pub enum HotKeyError {
    /// Another application has already claimed `Ctrl+Alt+A`.
    AlreadyRegistered,
    /// Windows rejected registration for another reason.
    RegistrationFailed(windows_core::Error),
    /// Windows rejected an explicit unregister request.
    UnregistrationFailed(windows_core::Error),
}

/// How a refused registration is reported: as a taken shortcut when its
/// code is `ERROR_HOTKEY_ALREADY_REGISTERED`, else with the error itself.
pub open spec fn registration_error(error: windows_core::Error) -> HotKeyError {
    if windows_error_code(error) == hresult_of_win32(ERROR_HOTKEY_ALREADY_REGISTERED) {
        HotKeyError::AlreadyRegistered
    } else {
        HotKeyError::RegistrationFailed(error)
    }
}

impl HotKeyError {
    /// Classifies a refused registration by its code: the shortcut is taken,
    /// or registration failed for another reason.
    pub fn from_registration_code(error: windows_core::Error, code: i32) -> (r: Self)
        ensures
            code == hresult_of_win32(ERROR_HOTKEY_ALREADY_REGISTERED) ==> r is AlreadyRegistered,
            code != hresult_of_win32(ERROR_HOTKEY_ALREADY_REGISTERED) ==> r == HotKeyError::RegistrationFailed(error),
    {
        let already_registered = hresult_from_win32(ERROR_HOTKEY_ALREADY_REGISTERED);
        if code == already_registered {
            HotKeyError::AlreadyRegistered
        } else {
            HotKeyError::RegistrationFailed(error)
        }
    }

    /// Classifies a refused registration by the code the error carries.
    pub fn registration(error: windows_core::Error) -> (r: Self)
        ensures
            r == registration_error(error),
    {
        let code = error_code(&error);
        HotKeyError::from_registration_code(error, code)
    }

    /// The user-facing description of this error.
    pub fn message(&self) -> (s: String)
        ensures
            self is AlreadyRegistered ==> s@ == QUICK_POPUP_LABEL@
                + " is already used by another application"@,
            self is RegistrationFailed ==> exists|t: Seq<char>|
                s@ == "Windows could not register "@ + QUICK_POPUP_LABEL@ + ": "@ + t,
            self is UnregistrationFailed ==> exists|t: Seq<char>|
                s@ == "Windows could not unregister "@ + QUICK_POPUP_LABEL@ + ": "@ + t,
    {
        match self {
            HotKeyError::AlreadyRegistered => {
                let s = String::from_str(QUICK_POPUP_LABEL);
                s.concat(" is already used by another application")
            },
            HotKeyError::RegistrationFailed(error) => {
                let s = String::from_str("Windows could not register ");
                let mut s = s.concat(QUICK_POPUP_LABEL);
                s.append(": ");
                let t = error_text(error);
                let r = s.concat(t.as_str());
                assert(r@ == "Windows could not register "@ + QUICK_POPUP_LABEL@ + ": "@ + t@);
                r
            },
            HotKeyError::UnregistrationFailed(error) => {
                let s = String::from_str("Windows could not unregister ");
                let mut s = s.concat(QUICK_POPUP_LABEL);
                s.append(": ");
                let t = error_text(error);
                let r = s.concat(t.as_str());
                assert(r@ == "Windows could not unregister "@ + QUICK_POPUP_LABEL@ + ": "@ + t@);
                r
            },
        }
    }
}

/// One native global-hotkey registration, owned until it is released.
#[derive(Debug)]
pub struct GlobalHotKey {
    window: isize,
    id: i32,
    registered: bool,
}

impl GlobalHotKey {
    /// The window the shortcut is registered for.
    pub closed spec fn owner(&self) -> isize {
        self.window
    }

    /// The shortcut's identifier.
    pub closed spec fn identifier(&self) -> i32 {
        self.id
    }

    /// Whether Windows still holds the registration.
    pub closed spec fn is_registered(&self) -> bool {
        self.registered
    }

    /// Takes Windows' answer to registering `Ctrl+Alt+A` (identifier
    /// `QUICK_POPUP_HOTKEY_ID`, modifiers `QUICK_POPUP_MODIFIERS`, key
    /// `QUICK_POPUP_VIRTUAL_KEY`) for `window`.
    pub fn register_quick_popup(window: isize, registered: Result<(), windows_core::Error>) -> (r:
        Result<Self, HotKeyError>)
        ensures
            registered is Ok ==> (r matches Ok(key) && key.owner() == window && key.identifier()
                == QUICK_POPUP_HOTKEY_ID && key.is_registered()),
            registered matches Err(error) ==> r == Err::<Self, HotKeyError>(registration_error(error)),
    {
        match registered {
            Ok(()) => Ok(GlobalHotKey { window, id: QUICK_POPUP_HOTKEY_ID, registered: true }),
            Err(error) => Err(HotKeyError::registration(error)),
        }
    }

    /// The window and identifier Windows must be asked to unregister, if the
    /// registration is still held.
    pub fn pending_unregistration(&self) -> (r: Option<(isize, i32)>)
        ensures
            self.is_registered() ==> r == Some((self.owner(), self.identifier())),
            !self.is_registered() ==> r is None,
    {
        if self.registered {
            Some((self.window, self.id))
        } else {
            None
        }
    }

    /// Takes Windows' answer to unregistering (`None` when it was not asked
    /// because nothing is registered) and reports a refusal.
    pub fn unregister(self, answer: Option<Result<(), windows_core::Error>>) -> (r: Result<
        (),
        HotKeyError,
    >)
        ensures
            !self.is_registered() ==> r is Ok,
            self.is_registered() ==> match answer {
                Some(Err(error)) => r == Err::<(), HotKeyError>(HotKeyError::UnregistrationFailed(error)),
                _ => r is Ok,
            },
    {
        if !self.registered {
            return Ok(());
        }
        match answer {
            Some(Err(error)) => Err(HotKeyError::UnregistrationFailed(error)),
            _ => Ok(()),
        }
    }
}

} // verus!
