use adufa::audio::{build_output_metadata, system_sounds_identity, ApplicationVolume, ScanStats};
use adufa::process_identity::ProcessIdentity;
use adufa::volume::{should_signal_volume_change, volume_targets, VolumeTally, EVENT_CONTEXT};
use adufa::{ApplicationId, CapabilityAvailability, OutputId};

fn level_percent(level: f32) -> u8 {
    (level * 100.0).round().clamp(0.0, 100.0) as u8
}

#[test]
fn sessions_with_one_identity_form_one_application_group() {
    let id = ApplicationId::new("windows:path:c:\\apps\\browser.exe".to_owned()).unwrap();
    let mut stats = ScanStats::new();

    for pid in [100, 100, 200] {
        stats.record_session(
            ProcessIdentity {
                application_id: id.clone(),
                executable_path: Some(r"C:\Apps\browser.exe".to_owned()),
            },
            pid,
            None,
        );
    }

    assert_eq!(stats.group_count(), 1);
    assert_eq!(stats.sessions_for(id.as_str()), 3);
    assert_eq!(stats.processes_for(id.as_str()).len(), 2);
    assert_eq!(
        stats.executable_path_for(id.as_str()),
        Some(r"C:\Apps\browser.exe")
    );
}

#[test]
fn scan_stats_exposes_owned_metadata_for_one_application_group() {
    let id = ApplicationId::new("windows:path:c:\\apps\\player.exe".to_owned()).unwrap();
    let mut stats = ScanStats::new();
    for pid in [42, 7, 42] {
        stats.record_session(
            ProcessIdentity {
                application_id: id.clone(),
                executable_path: Some(r"C:\Apps\player.exe".to_owned()),
            },
            pid,
            Some((level_percent(0.42), pid == 7)),
        );
    }

    assert_eq!(stats.processes_for(id.as_str()), vec![7, 42]);
    assert_eq!(
        stats.executable_path_for(id.as_str()),
        Some(r"C:\Apps\player.exe")
    );
    assert_eq!(
        stats.volume_for(id.as_str()),
        Some(ApplicationVolume {
            percent: 42,
            muted: false,
        })
    );
}

#[test]
fn output_metadata_uses_friendly_name_and_marks_exact_default() {
    let id = OutputId::new("endpoint-a".to_owned()).unwrap();
    let output =
        build_output_metadata(id.clone(), Some("Studio Speakers".to_owned()), Some(&id));

    assert_eq!(output.name, "Studio Speakers");
    assert!(output.is_default);
}

#[test]
fn output_metadata_falls_back_to_stable_id_when_name_is_empty() {
    let id = OutputId::new("endpoint-b".to_owned()).unwrap();
    let output = build_output_metadata(id, Some("   ".to_owned()), None);

    assert_eq!(output.name, "endpoint-b");
    assert!(!output.is_default);
}

#[test]
fn group_volume_is_the_loudest_session_and_muted_only_when_all_are() {
    let id = ApplicationId::new("windows:aumid:Example!App".to_owned()).unwrap();
    let mut stats = ScanStats::new();
    let identity = || ProcessIdentity {
        application_id: id.clone(),
        executable_path: None,
    };
    stats.record_session(identity(), 1, Some((30, true)));
    assert_eq!(
        stats.volume_for(id.as_str()),
        Some(ApplicationVolume { percent: 30, muted: true })
    );
    stats.record_session(identity(), 2, None);
    stats.record_session(identity(), 3, Some((80, true)));
    stats.record_session(identity(), 4, Some((10, false)));
    assert_eq!(
        stats.volume_for(id.as_str()),
        Some(ApplicationVolume { percent: 80, muted: false })
    );
    assert_eq!(stats.executable_path_for(id.as_str()), None);
    assert_eq!(stats.volume_for("windows:aumid:Other"), None);
    assert!(stats.processes_for("windows:aumid:Other").is_empty());
}

#[test]
fn observation_lists_groups_in_identity_order() {
    let mut stats = ScanStats::new();
    for name in ["windows:path:b", "windows:path:a", "windows:path:b"] {
        stats.record_session(
            ProcessIdentity {
                application_id: ApplicationId::new(name.to_owned()).unwrap(),
                executable_path: None,
            },
            1,
            None,
        );
    }
    stats.record_session(system_sounds_identity(), 0, None);
    let output = OutputId::new("out".to_owned()).unwrap();
    let observation = stats.observation(vec![output.clone()], Some(output));
    let names: Vec<&str> = observation.applications.iter().map(|id| id.as_str()).collect();
    assert_eq!(
        names,
        vec!["windows:path:a", "windows:path:b", "windows:system-sounds"]
    );
    assert_eq!(
        observation.capabilities.application_routing,
        CapabilityAvailability::Available
    );
}

#[test]
fn adufa_volume_events_do_not_trigger_a_full_model_refresh() {
    assert!(!should_signal_volume_change(Some(EVENT_CONTEXT)));
    assert!(should_signal_volume_change(None));
    assert!(should_signal_volume_change(Some(
        0x8b8c65ec_794d_4be5_9012_59af48e32412
    )));
}

#[test]
fn volume_targets_are_unique_sorted_and_clamped() {
    let targets = volume_targets(&[9, 3, 9], 150, true).expect("processes were given");
    assert_eq!(targets.process_ids, vec![3, 9]);
    assert_eq!(targets.volume_percent, 100);
    assert!(targets.muted);
    assert!(targets.includes(3));
    assert!(!targets.includes(4));
    assert_eq!(
        volume_targets(&[], 50, false).err().as_deref(),
        Some("The application has no active audio sessions")
    );
}

#[test]
fn volume_tally_reports_success_or_the_latest_failure() {
    let mut tally = VolumeTally::new();
    tally.session_failed("first".to_owned());
    tally.session_updated();
    assert_eq!(tally.finish(), Ok(()));

    let mut failed = VolumeTally::new();
    failed.session_failed("first".to_owned());
    failed.session_failed("second".to_owned());
    assert_eq!(
        failed.finish().err().as_deref(),
        Some("Windows could not update the audio session: second")
    );
    assert_eq!(
        VolumeTally::new().finish().err().as_deref(),
        Some("The application no longer has an active audio session")
    );
}
