use adufa::locator::{rows_to_repaint, process_index, session_row, system_sounds_index, MonitoredApplication, SourceSelection};

const MS: u64 = 1_000_000;

#[test]
fn strongest_source_requires_stable_challenger() {
    let start = 1_000;
    let mut state = SourceSelection::new();
    state.update(Some(0), start);
    assert_eq!(state.strongest(), Some(0));

    state.update(Some(1), start + MS);
    state.update(Some(1), start + 300 * MS);
    assert_eq!(state.strongest(), Some(0));
    state.update(Some(1), start + 301 * MS);
    assert_eq!(state.strongest(), Some(1));
}

#[test]
fn last_source_survives_one_second_of_silence() {
    let start = 1_000;
    let mut state = SourceSelection::new();
    state.update(Some(0), start);
    state.update(None, start + 999 * MS);
    assert_eq!(state.strongest(), Some(0));
    assert!(state.is_listening());

    state.update(None, start + 1_000 * MS);
    assert_eq!(state.strongest(), None);
}

#[test]
fn application_uses_maximum_session_level_not_sum() {
    let applications = [MonitoredApplication {
        is_system_sounds: false,
        process_ids: vec![10, 20],
    }];
    assert_eq!(process_index(&applications).get(10), Some(0));
    assert_eq!(process_index(&applications).get(20), Some(0));
}

#[test]
fn sessions_find_their_rows() {
    let applications = [
        MonitoredApplication { is_system_sounds: false, process_ids: vec![1, 2] },
        MonitoredApplication { is_system_sounds: true, process_ids: vec![] },
        MonitoredApplication { is_system_sounds: false, process_ids: vec![2] },
    ];
    let index = process_index(&applications);
    assert_eq!(index.get(2), Some(2));
    assert_eq!(index.get(3), None);
    let system = system_sounds_index(&applications);
    assert_eq!(system, Some(1));
    assert_eq!(session_row(&index, system, true, None), Some(1));
    assert_eq!(session_row(&index, system, false, Some(1)), Some(0));
    assert_eq!(session_row(&index, system, false, None), None);
}

#[test]
fn repaints_changed_rows_and_a_moved_source_once_each() {
    assert_eq!(rows_to_repaint(&[3, 1, 3], Some(0), Some(2)), vec![0, 1, 2, 3]);
    assert_eq!(rows_to_repaint(&[3, 1], Some(1), Some(1)), vec![1, 3]);
    assert_eq!(rows_to_repaint(&[], None, Some(4)), vec![4]);
    assert_eq!(rows_to_repaint(&[], Some(2), Some(2)), Vec::<usize>::new());
}
