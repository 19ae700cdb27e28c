use adufa::i18n::Locale;
use adufa::popup::{
    display_name, executable_path_from_identity, localized_application_name, ApplicationRow,
    OutputChoice, PopupModel,
};

fn routing_model() -> PopupModel {
    PopupModel {
        applications: vec![ApplicationRow {
            application_id: "player".to_owned(),
            name: "Player".to_owned(),
            icon_path: None,
            process_ids: vec![42],
            selected_output_id: None,
            volume_percent: 50,
            muted: false,
        }],
        outputs: vec![OutputChoice {
            id: "headset".to_owned(),
            name: "Headset".to_owned(),
            is_system_default: false,
        }],
    }
}

#[test]
fn executable_identity_becomes_a_human_label() {
    assert_eq!(
        display_name(r"windows:path:C:\Apps\Spotify\Spotify.exe"),
        "Spotify"
    );
}

#[test]
fn executable_identity_also_supplies_an_icon_source() {
    assert_eq!(
        executable_path_from_identity(r"windows:path:C:\Apps\Spotify.exe").as_deref(),
        Some(r"C:\Apps\Spotify.exe")
    );
}

#[test]
fn packaged_identity_uses_its_application_segment() {
    assert_eq!(
        display_name("windows:aumid:Publisher.Product_123!Player"),
        "Player"
    );
}

#[test]
fn system_sounds_has_a_stable_label() {
    assert_eq!(display_name("windows:system-sounds"), "System sounds");
}

#[test]
fn taskbar_application_can_be_added_without_audio_session() {
    let mut model = PopupModel {
        applications: Vec::new(),
        outputs: Vec::new(),
    };

    let index = model.upsert_application(
        r"windows:path:C:\Apps\Player.exe".to_owned(),
        "Player".to_owned(),
        Some(r"C:\Apps\Player.exe".to_owned()),
        vec![42],
    );

    assert_eq!(index, 0);
    assert_eq!(model.applications[0].process_ids, [42]);
    assert_eq!(model.applications[0].volume_percent, 100);
}

#[test]
fn labels_of_unusual_identities() {
    assert_eq!(display_name("windows:path:C:/Tools/run.EXE"), "run");
    assert_eq!(display_name("windows:path:C:\\Apps\\"), "");
    assert_eq!(display_name("windows:aumid:Publisher.App!"), "App");
    assert_eq!(display_name("windows:aumid:!."), "Application");
    assert_eq!(display_name("linux:whatever"), "Application");
    assert_eq!(executable_path_from_identity("windows:aumid:X"), None);
}

#[test]
fn upsert_refreshes_an_existing_row_and_keeps_its_route() {
    let mut model = routing_model();
    model.applications[0].selected_output_id = Some("headset".to_owned());
    let index = model.upsert_application("player".to_owned(), "Player 2".to_owned(), None, vec![7]);
    assert_eq!(index, 0);
    assert_eq!(model.applications.len(), 1);
    assert_eq!(model.applications[0].name, "Player 2");
    assert_eq!(model.applications[0].process_ids, vec![7]);
    assert_eq!(model.applications[0].selected_output_id.as_deref(), Some("headset"));
    assert_eq!(model.applications[0].volume_percent, 50);
}

#[test]
fn destination_names_follow_the_selected_output() {
    let mut model = routing_model();
    assert_eq!(model.destination_name(0), "System default");
    assert_eq!(model.destination_name(5), "System default");
    model.applications[0].selected_output_id = Some("headset".to_owned());
    assert_eq!(model.destination_name(0), "Headset");
    model.applications[0].selected_output_id = Some("gone".to_owned());
    assert_eq!(model.destination_name(0), "Unavailable output");
}

#[test]
fn requests_carry_the_row_identity_and_processes() {
    let model = routing_model();
    let route = model.route_request(0, Some("headset".to_owned())).expect("row exists");
    assert_eq!(route.application_id, "player");
    assert_eq!(route.process_ids, vec![42]);
    assert_eq!(route.output_id.as_deref(), Some("headset"));
    assert!(model.route_request(1, None).is_none());
    let volume = model.volume_request(0, 250, true).expect("row exists");
    assert_eq!(volume.volume_percent, 100);
    assert!(volume.muted);
    assert!(model.volume_request(3, 10, false).is_none());
}

#[test]
fn selector_choice_updates_ui_only_after_routing_succeeds() {
    let mut model = routing_model();
    let output = model.output_for_choice(1).expect("choice exists");
    let request = model.route_request(0, output.clone()).expect("row exists");
    assert_eq!(request.output_id.as_deref(), Some("headset"));
    assert_eq!(model.output_for_choice(0), Some(None));
    assert_eq!(model.output_for_choice(2), None);

    model.route_answered(0, output.clone(), false);
    assert_eq!(model.applications[0].selected_output_id, None);
    model.route_answered(0, output, true);
    assert_eq!(model.applications[0].selected_output_id.as_deref(), Some("headset"));
}

#[test]
fn volume_control_updates_the_model_only_after_windows_accepts_it() {
    let mut model = routing_model();
    let request = model.volume_request(0, 35, true).expect("row exists");
    assert_eq!(request.volume_percent, 35);
    assert!(request.muted);
    model.volume_answered(0, 35, true, false);
    assert_eq!(model.applications[0].volume_percent, 50);
    assert!(!model.applications[0].muted);
    model.volume_answered(0, 35, true, true);
    assert_eq!(model.applications[0].volume_percent, 35);
    assert!(model.applications[0].muted);
}

#[test]
fn fallback_labels_follow_the_popup_language() {
    let mut model = routing_model();
    assert_eq!(model.localized_destination_name(Locale::PtBr, 0), "Padrão do sistema");
    assert_eq!(model.localized_destination_name(Locale::En, 0), "System default");
    model.applications[0].selected_output_id = Some("gone".to_owned());
    assert_eq!(model.localized_destination_name(Locale::PtBr, 0), "Saída indisponível");
    model.applications[0].selected_output_id = Some("headset".to_owned());
    assert_eq!(model.localized_destination_name(Locale::PtBr, 0), "Headset");

    assert_eq!(localized_application_name(Locale::PtBr, &model.applications[0]), "Player");
    model.applications[0].application_id = "windows:system-sounds".to_owned();
    assert_eq!(localized_application_name(Locale::PtBr, &model.applications[0]), "Sons do sistema");
    model.applications[0].application_id = "windows:aumid:Example".to_owned();
    model.applications[0].name = "Application".to_owned();
    assert_eq!(localized_application_name(Locale::En, &model.applications[0]), "Application");
}
