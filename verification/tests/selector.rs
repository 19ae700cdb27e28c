use adufa::geometry::{Point, Rect};
use adufa::i18n::Locale;
use adufa::selector::{
    adjacent_popup_rect, choice_for_selected_output, decode_volume_message,
    encode_volume_message, should_dismiss_for_pointer, volume_percent_from_x, OutputChoice,
    SelectorEffect, SelectorState, ADJACENT_GAP, CHOICES_TOP, HEADER_HEIGHT, OUTPUT_LABEL_TOP,
    OUTPUT_RULE_TOP, ROW_HEIGHT, SECTION_LABEL_HEIGHT, VK_DOWN, VK_ESCAPE, VK_RIGHT, VK_UP,
    VOLUME_BOTTOM, VOLUME_TOP, WINDOW_WIDTH,
};
use adufa::selector::{thumb_x, volume_label};

fn state() -> SelectorState {
    SelectorState {
        application_index: 0,
        application_name: "Player".to_owned(),
        outputs: vec![OutputChoice {
            id: "speakers".to_owned(),
            name: "Speakers".to_owned(),
        }],
        selected_choice: Some(0),
        focus_choice: 0,
        volume_percent: 50,
        muted: false,
        volume_focused: false,
        volume_dragging: false,
        drag_start_volume: 50,
        hovered_choice: None,
        tracking_mouse: false,
        dpi: 96,
        locale: Locale::En,
    }
}

#[test]
fn selected_output_maps_default_and_real_outputs_to_choice_indices() {
    let outputs = ["speakers", "headset"];
    assert_eq!(choice_for_selected_output(None, &outputs), Some(0));
    assert_eq!(
        choice_for_selected_output(Some("headset"), &outputs),
        Some(2)
    );
    assert_eq!(choice_for_selected_output(Some("missing"), &outputs), None);
}

#[test]
fn volume_slider_maps_and_clamps_pointer_positions() {
    assert_eq!(volume_percent_from_x(40, 40, 180), 0);
    assert_eq!(volume_percent_from_x(110, 40, 180), 50);
    assert_eq!(volume_percent_from_x(180, 40, 180), 100);
    assert_eq!(volume_percent_from_x(4, 40, 180), 0);
    assert_eq!(volume_percent_from_x(240, 40, 180), 100);
}

#[test]
fn volume_message_round_trips_percent_and_mute_state() {
    for (percent, muted) in [(0, false), (37, true), (100, false)] {
        assert_eq!(
            decode_volume_message(encode_volume_message(percent, muted)),
            (percent, muted)
        );
    }
}

#[test]
fn volume_section_has_explicit_spacing_and_dividers() {
    assert_eq!(VOLUME_TOP - HEADER_HEIGHT, 8);
    assert_eq!(OUTPUT_RULE_TOP - VOLUME_BOTTOM, 8);
    assert_eq!(OUTPUT_LABEL_TOP - OUTPUT_RULE_TOP, 8);
    assert_eq!(CHOICES_TOP - OUTPUT_LABEL_TOP, SECTION_LABEL_HEIGHT);
}

#[test]
fn first_choice_respects_the_same_edge_padding_as_the_other_sides() {
    let state = state();

    assert_eq!(state.choice_at(16, CHOICES_TOP - 1), None);
    assert_eq!(state.choice_at(16, CHOICES_TOP), Some(0));
    assert_eq!(state.choice_at(16, CHOICES_TOP + ROW_HEIGHT), Some(1));
}

#[test]
fn geometry_prefers_the_right_side_when_it_fits() {
    let anchor = Rect {
        left: 100,
        top: 80,
        right: 200,
        bottom: 120,
    };
    let work = Rect {
        left: 0,
        top: 0,
        right: 800,
        bottom: 600,
    };

    assert_eq!(
        adjacent_popup_rect(anchor, work, WINDOW_WIDTH, 200, ADJACENT_GAP),
        Rect {
            left: 208,
            top: 80,
            right: 440,
            bottom: 280,
        }
    );
}

#[test]
fn geometry_falls_back_left_and_clamps_to_the_work_area() {
    let work = Rect {
        left: 0,
        top: 0,
        right: 800,
        bottom: 600,
    };
    let near_right_bottom = Rect {
        left: 650,
        top: 540,
        right: 790,
        bottom: 580,
    };

    assert_eq!(
        adjacent_popup_rect(near_right_bottom, work, WINDOW_WIDTH, 200, ADJACENT_GAP,),
        Rect {
            left: 410,
            top: 400,
            right: 642,
            bottom: 600,
        }
    );
}

#[test]
fn geometry_clamps_when_neither_adjacent_side_fits() {
    let work = Rect {
        left: 100,
        top: 100,
        right: 500,
        bottom: 500,
    };
    let anchor = Rect {
        left: 180,
        top: 40,
        right: 420,
        bottom: 80,
    };

    assert_eq!(
        adjacent_popup_rect(anchor, work, 300, 120, 6),
        Rect {
            left: 200,
            top: 100,
            right: 500,
            bottom: 220,
        }
    );
}

#[test]
fn pointer_dismissal_only_accepts_clicks_outside_the_selector() {
    let selector = Rect {
        left: 100,
        top: 100,
        right: 332,
        bottom: 420,
    };

    assert!(!should_dismiss_for_pointer(Point { x: 100, y: 100 }, selector));
    assert!(!should_dismiss_for_pointer(Point { x: 331, y: 419 }, selector));
    assert!(should_dismiss_for_pointer(Point { x: 99, y: 100 }, selector));
    assert!(should_dismiss_for_pointer(Point { x: 332, y: 420 }, selector));
}

#[test]
fn keyboard_moves_focus_and_adjusts_volume() {
    let mut state = state();
    assert_eq!(state.key_pressed(VK_UP), SelectorEffect::Repaint);
    assert!(state.volume_focused);
    assert_eq!(
        state.key_pressed(VK_RIGHT),
        SelectorEffect::CommitVolume { previous_volume: 50, muted: false }
    );
    assert_eq!(state.volume_percent, 55);
    assert_eq!(state.key_pressed(VK_DOWN), SelectorEffect::Repaint);
    assert!(!state.volume_focused);
    assert_eq!(state.focus_choice, 0);
    assert_eq!(state.key_pressed(VK_ESCAPE), SelectorEffect::Close);
}

#[test]
fn volume_label_and_thumb_follow_the_level() {
    assert_eq!(volume_label(Locale::En, 35, false), "35%");
    assert_eq!(volume_label(Locale::En, 35, true), "Muted");
    assert_eq!(thumb_x(44, 180, 0), 44);
    assert_eq!(thumb_x(44, 180, 50), 112);
    assert_eq!(thumb_x(44, 180, 100), 180);
}
