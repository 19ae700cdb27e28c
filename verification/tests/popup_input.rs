use adufa::geometry::Rect;
use adufa::layout::{Page, Target};
use adufa::popup_input::{
    activation_for, selector_anchor, selector_opening, Activation, SelectorOpening, companion_retry, is_deactivation, same_target, should_hide_after_deactivation, KeyAction,
    PopupInput, TASKBAR_COMPANION_MAX_ATTEMPTS, VK_DOWN, VK_ESCAPE, VK_RETURN, VK_RIGHT, VK_SPACE,
    VK_TAB, VK_UP,
};

fn main_page(application_count: usize) -> PopupInput {
    PopupInput {
        view: Page::Main,
        application_count,
        focus_index: 0,
        keyboard_focus_visible: false,
        hovered: None,
        pressed: None,
    }
}

#[test]
fn tab_and_arrows_cycle_through_the_main_page() {
    let mut input = main_page(2);
    assert_eq!(input.key_pressed(VK_TAB), KeyAction::Repaint);
    assert!(input.keyboard_focus_visible);
    assert_eq!(input.focus_index, 1);
    assert_eq!(input.key_pressed(VK_DOWN), KeyAction::Repaint);
    assert_eq!(input.focus_index, 2);
    input.focus_index = 4;
    assert_eq!(input.key_pressed(VK_TAB), KeyAction::Repaint);
    assert_eq!(input.focus_index, 0);
    assert_eq!(input.key_pressed(VK_UP), KeyAction::Repaint);
    assert_eq!(input.focus_index, 4);
}

#[test]
fn enter_space_and_right_act_on_the_focused_element() {
    let mut input = main_page(2);
    input.focus_index = 1;
    assert_eq!(input.key_pressed(VK_RETURN), KeyAction::Activate(Target::Application(0)));
    assert_eq!(input.key_pressed(VK_SPACE), KeyAction::Activate(Target::Application(0)));
    assert_eq!(input.key_pressed(VK_RIGHT), KeyAction::OpenSelector(0));
    input.focus_index = 3;
    assert_eq!(input.key_pressed(VK_RETURN), KeyAction::Activate(Target::Settings));
    assert_eq!(input.key_pressed(VK_RIGHT), KeyAction::Nothing);
    assert_eq!(input.key_pressed(0x41), KeyAction::Nothing);
    assert_eq!(input.focus_index, 3);
}

#[test]
fn escape_walks_back_through_the_pages() {
    let mut input = main_page(0);
    assert_eq!(input.key_pressed(VK_ESCAPE), KeyAction::Hide);
    input.view = Page::Settings;
    assert_eq!(input.key_pressed(VK_ESCAPE), KeyAction::ShowMain);
    input.view = Page::Languages;
    assert_eq!(input.key_pressed(VK_ESCAPE), KeyAction::ShowSettings);
}

#[test]
fn a_click_activates_only_when_released_on_the_pressed_element() {
    let mut input = main_page(2);
    input.keyboard_focus_visible = true;
    assert!(input.pointer_moved(Some(Target::Application(1))));
    assert!(!input.keyboard_focus_visible);
    assert!(!input.pointer_moved(Some(Target::Application(1))));
    assert!(input.pointer_pressed(Some(Target::Application(1))));
    assert_eq!(input.pressed, Some(Target::Application(1)));
    assert_eq!(input.focus_index, 2);
    assert_eq!(input.pointer_released(Some(Target::Application(1))), Some(Target::Application(1)));
    assert_eq!(input.pressed, None);

    assert!(input.pointer_pressed(Some(Target::Exit)));
    assert_eq!(input.pointer_released(Some(Target::Settings)), None);
    assert!(!input.pointer_pressed(None));
    assert_eq!(input.pointer_released(None), None);

    assert!(input.pointer_pressed(Some(Target::Settings)));
    assert!(input.capture_lost());
    assert!(!input.capture_lost());
    input.pointer_left();
    assert_eq!(input.hovered, None);
}

#[test]
fn deactivation_and_companion_decisions() {
    assert!(is_deactivation(0));
    assert!(is_deactivation(0x1_0000));
    assert!(!is_deactivation(1));
    assert!(should_hide_after_deactivation(7, 1, None));
    assert!(!should_hide_after_deactivation(1, 1, None));
    assert!(!should_hide_after_deactivation(9, 1, Some(9)));
    assert!(should_hide_after_deactivation(9, 1, Some(8)));
    assert_eq!(companion_retry(0), Some(1));
    assert_eq!(companion_retry(TASKBAR_COMPANION_MAX_ATTEMPTS - 1), Some(TASKBAR_COMPANION_MAX_ATTEMPTS));
    assert_eq!(companion_retry(TASKBAR_COMPANION_MAX_ATTEMPTS), None);
    assert!(same_target(Some(Target::Locale(2)), Some(Target::Locale(2))));
    assert!(!same_target(Some(Target::Locale(2)), Some(Target::Locale(3))));
    assert!(!same_target(None, Some(Target::Back)));
}

#[test]
fn activating_elements_maps_to_actions() {
    assert_eq!(activation_for(Target::Application(2), Page::Main), Activation::OpenSelector(2));
    assert_eq!(activation_for(Target::HeaderLocator, Page::Main), Activation::ToggleLocator);
    assert_eq!(activation_for(Target::Back, Page::Languages), Activation::ShowSettings);
    assert_eq!(activation_for(Target::Back, Page::Settings), Activation::ShowMain);
    assert_eq!(activation_for(Target::Locale(4), Page::Languages), Activation::SelectLanguage(4));
    assert_eq!(activation_for(Target::Exit, Page::Main), Activation::Exit);
}

#[test]
fn one_selector_is_open_at_a_time() {
    assert_eq!(selector_opening(None, None, 1), SelectorOpening::Open);
    assert_eq!(selector_opening(Some(77), Some(1), 1), SelectorOpening::Focus(77));
    assert_eq!(selector_opening(Some(77), Some(0), 1), SelectorOpening::Replace(77));
}

#[test]
fn selector_anchor_is_the_application_row() {
    let owner = Rect { left: 100, top: 200, right: 404, bottom: 600 };
    assert_eq!(
        selector_anchor(owner, 1, 96),
        Rect { left: 100, top: 316, right: 404, bottom: 360 }
    );
    assert_eq!(
        selector_anchor(owner, 0, 192),
        Rect { left: 100, top: 344, right: 404, bottom: 432 }
    );
}

#[test]
fn pages_and_refreshes_move_the_keyboard_position() {
    let mut input = main_page(3);
    input.hovered = Some(Target::Settings);
    input.focus_index = 5;
    input.show_page(Page::Languages, 2);
    assert_eq!(input.focus_index, 3);
    assert_eq!(input.hovered, None);
    input.show_page(Page::Main, 2);
    assert_eq!(input.focus_index, 0);

    input.focus_index = 5;
    input.hovered = Some(Target::Exit);
    input.model_refreshed(1);
    assert_eq!(input.application_count, 1);
    assert_eq!(input.focus_index, 3);
    assert_eq!(input.hovered, None);
}
