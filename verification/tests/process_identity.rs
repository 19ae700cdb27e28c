use adufa::process_identity::{
    aumid_from_automation, build_application_id, labels_match, labels_match_path,
    may_have_branded_install_path, normalize_label, snapshot_entry_matches, snapshot_entry_plan,
    ApplicationSearch, ProcessIdentity,
};
use adufa::ApplicationId;

#[test]
fn packaged_identity_wins_over_executable_path() {
    let id = build_application_id(
        Some("Publisher.App_123!Player"),
        Some(r"C:\Program Files\App\player.exe"),
    )
    .unwrap();

    assert_eq!(id.as_str(), "windows:aumid:Publisher.App_123!Player");
}

#[test]
fn executable_path_fallback_normalizes_separator_without_losing_case() {
    let first = build_application_id(None, Some(r"C:\Apps\Player.EXE")).unwrap();
    let second = build_application_id(None, Some("C:/Apps/Player.EXE")).unwrap();

    assert_eq!(first, second);
    assert_eq!(first.as_str(), r"windows:path:C:\Apps\Player.EXE");
}

#[test]
fn taskbar_label_matches_chrome_without_active_audio() {
    assert!(labels_match(&normalize_label("Google Chrome"), "chrome"));
}

#[test]
fn taskbar_label_matches_edge_alias() {
    assert!(labels_match(&normalize_label("Microsoft Edge"), "msedge"));
}

#[test]
fn taskbar_label_matches_a_chromium_browser_from_its_install_path() {
    assert!(labels_match_path(
        &normalize_label("Helium"),
        r"C:\Users\Lucas\AppData\Local\imput\Helium\Application\chrome.exe"
    ));
}

#[test]
fn taskbar_app_id_strips_the_ui_automation_prefix() {
    assert_eq!(
        aumid_from_automation("Appid: Chrome._crx_hnpfjngllnfapefoaidbinmjnm"),
        "Chrome._crx_hnpfjngllnfapefoaidbinmjnm"
    );
    assert_eq!(aumid_from_automation("  Plain.App!Id  "), "Plain.App!Id");
}

#[test]
fn identities_are_absent_without_packaged_id_or_path() {
    assert_eq!(build_application_id(None, None), None);
    assert_eq!(build_application_id(Some(""), Some("")), None);
    assert_eq!(
        build_application_id(Some(""), Some("D:/x.exe")).unwrap().as_str(),
        r"windows:path:D:\x.exe"
    );
}

#[test]
fn labels_are_normalized_and_aliases_are_known() {
    assert_eq!(normalize_label("Visual Studio Code 2!"), "visualstudiocode2");
    assert!(labels_match("visualstudiocode", "Code"));
    assert!(labels_match("fileexplorer", "explorer"));
    assert!(!labels_match("spotify", "chrome"));
    assert!(!labels_match("anything", "---"));
    assert!(may_have_branded_install_path("ApplicationFrameHost"));
    assert!(!may_have_branded_install_path("spotify"));
    assert_eq!(snapshot_entry_plan("helium", "chrome"), (false, true));
    assert_eq!(snapshot_entry_plan("spotify", "Spotify"), (true, true));
    assert!(snapshot_entry_matches("helium", false, Some(r"C:\Helium\chrome.exe")));
    assert!(!snapshot_entry_matches("helium", false, None));
}

#[test]
fn search_groups_processes_and_returns_the_first_identity() {
    let mut search = ApplicationSearch::new();
    let b = ApplicationId::new("windows:path:b".to_owned()).unwrap();
    let a = ApplicationId::new("windows:path:a".to_owned()).unwrap();
    search.add(
        ProcessIdentity { application_id: b.clone(), executable_path: Some("b.exe".to_owned()) },
        5,
    );
    search.add(
        ProcessIdentity { application_id: a.clone(), executable_path: Some("a.exe".to_owned()) },
        6,
    );
    search.add(
        ProcessIdentity { application_id: a.clone(), executable_path: Some("other.exe".to_owned()) },
        7,
    );
    let first = search.first().expect("two applications were found");
    assert_eq!(first.application_id, a);
    assert_eq!(first.executable_path.as_deref(), Some("a.exe"));
    assert_eq!(first.process_ids, vec![6, 7]);
    assert!(ApplicationSearch::new().first().is_none());
}
