use adufa::hotkeys::{
    is_quick_popup_hotkey, GlobalHotKey, HotKeyError, MOD_ALT, MOD_CONTROL, MOD_NOREPEAT,
    QUICK_POPUP_HOTKEY_ID, QUICK_POPUP_MODIFIERS, QUICK_POPUP_VIRTUAL_KEY, WM_HOTKEY,
};

#[test]
fn quick_popup_message_requires_both_message_and_identifier() {
    assert!(is_quick_popup_hotkey(WM_HOTKEY, QUICK_POPUP_HOTKEY_ID as usize));
    assert!(!is_quick_popup_hotkey(
        WM_HOTKEY,
        (QUICK_POPUP_HOTKEY_ID + 1) as usize
    ));
    assert!(!is_quick_popup_hotkey(
        WM_HOTKEY + 1,
        QUICK_POPUP_HOTKEY_ID as usize
    ));
}

#[test]
fn default_shortcut_includes_no_repeat() {
    assert_ne!(QUICK_POPUP_MODIFIERS & MOD_CONTROL, 0);
    assert_ne!(QUICK_POPUP_MODIFIERS & MOD_ALT, 0);
    assert_ne!(QUICK_POPUP_MODIFIERS & MOD_NOREPEAT, 0);
    assert_eq!(QUICK_POPUP_VIRTUAL_KEY, u32::from(b'A'));
}

#[test]
fn collision_error_is_actionable() {
    assert_eq!(
        HotKeyError::AlreadyRegistered.message(),
        "Ctrl+Alt+A is already used by another application"
    );
}

#[test]
fn registration_refusals_are_classified_by_code() {
    let taken = windows_core::Error::from_hresult(windows_core::HRESULT::from_win32(1409));
    assert!(matches!(
        HotKeyError::registration(taken),
        HotKeyError::AlreadyRegistered
    ));
    let other = windows_core::Error::from_hresult(windows_core::HRESULT(0x8000_4005_u32 as i32));
    let classified = HotKeyError::registration(other);
    assert!(matches!(classified, HotKeyError::RegistrationFailed(_)));
    assert!(classified.message().starts_with("Windows could not register Ctrl+Alt+A: "));
}

#[test]
fn registration_is_held_until_unregistered() {
    let key = GlobalHotKey::register_quick_popup(99, Ok(())).expect("registered");
    assert_eq!(key.pending_unregistration(), Some((99, QUICK_POPUP_HOTKEY_ID)));
    assert!(key.unregister(Some(Ok(()))).is_ok());
    let key = GlobalHotKey::register_quick_popup(99, Ok(())).expect("registered");
    let refused = windows_core::Error::from_hresult(windows_core::HRESULT(0x8000_4005_u32 as i32));
    assert!(matches!(
        key.unregister(Some(Err(refused))),
        Err(HotKeyError::UnregistrationFailed(_))
    ));
}

#[test]
fn taken_shortcut_is_reported_as_a_collision() {
    let taken = windows_core::Error::from_hresult(windows_core::HRESULT::from_win32(1409));
    let refused = GlobalHotKey::register_quick_popup(99, Err(taken)).unwrap_err();
    assert_eq!(
        refused.message(),
        "Ctrl+Alt+A is already used by another application"
    );
    let other = windows_core::Error::from_hresult(windows_core::HRESULT(0x8000_4005_u32 as i32));
    let refused = GlobalHotKey::register_quick_popup(99, Err(other)).unwrap_err();
    assert!(matches!(refused, HotKeyError::RegistrationFailed(_)));
}
