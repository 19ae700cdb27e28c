use adufa::routing::{
    factory_choice, is_ignorable_assignment_error, persisted_output_for_processes,
    persisted_route_from_path, raw_device_id, render_device_path, route_processes,
    runtime_initialization, validate_request, AudioRole, FactoryVersion, RoutingError,
    E_INVALIDARG, RPC_E_CHANGED_MODE,
};

#[test]
fn builds_render_interface_path_without_changing_raw_device_id() {
    let raw_id = "{0.0.0.00000000}.{01234567-89ab-cdef-0123-456789abcdef}";

    assert_eq!(
        render_device_path(raw_id),
        r"\\?\SWD#MMDEVAPI#{0.0.0.00000000}.{01234567-89ab-cdef-0123-456789abcdef}#{e6327cad-dcec-4949-ae8a-991e976a79d2}"
    );
}

#[test]
fn extracts_raw_device_id_from_windows_policy_path() {
    let path = r"\\?\SWD#MMDEVAPI#{0.0.0.00000000}.{01234567-89ab-cdef-0123-456789abcdef}#{E6327CAD-DCEC-4949-AE8A-991E976A79D2}";
    assert_eq!(
        raw_device_id(path).as_deref(),
        Some("{0.0.0.00000000}.{01234567-89ab-cdef-0123-456789abcdef}")
    );
}

#[test]
fn rejects_unrelated_policy_paths() {
    assert_eq!(raw_device_id("not-an-mmdevice-path"), None);
}

#[test]
fn rejects_requests_that_cannot_target_an_application() {
    assert_eq!(validate_request(&[], None), Err(RoutingError::NoProcesses));
    assert_eq!(
        validate_request(&[0], None),
        Err(RoutingError::InvalidProcessId)
    );
    assert_eq!(
        validate_request(&[42], Some("")),
        Err(RoutingError::InvalidOutputDeviceId)
    );
}

#[test]
fn accepts_system_default_and_explicit_outputs() {
    assert_eq!(validate_request(&[42, 43], None), Ok(()));
    assert_eq!(validate_request(&[42], Some("raw-mmdevice-id")), Ok(()));
}

#[test]
fn invalid_argument_is_ignorable_for_processes_without_audio_sessions() {
    assert!(is_ignorable_assignment_error(0x8007_0057_u32 as i32));
    assert!(!is_ignorable_assignment_error(0x8007_0005_u32 as i32));
}

#[test]
fn device_path_round_trips_through_the_policy_reader() {
    let path = render_device_path("endpoint");
    assert_eq!(raw_device_id(&path).as_deref(), Some("endpoint"));
    assert_eq!(persisted_route_from_path(&path).as_deref(), Some("endpoint"));
    assert_eq!(persisted_route_from_path(""), None);
    assert_eq!(raw_device_id(&render_device_path("")), None);
}

#[test]
fn assignment_run_covers_both_roles_of_every_process_in_order() {
    let mut run = route_processes(&[7, 9], Some("dev")).expect("valid request");
    assert_eq!(
        run.device_path(),
        Some(r"\\?\SWD#MMDEVAPI#dev#{e6327cad-dcec-4949-ae8a-991e976a79d2}")
    );
    let mut seen = Vec::new();
    while let Some(next) = run.next_assignment() {
        seen.push(next);
        assert_eq!(run.record_assignment(Ok(())), Ok(()));
    }
    assert_eq!(
        seen,
        vec![
            (7, AudioRole::Multimedia),
            (7, AudioRole::Console),
            (9, AudioRole::Multimedia),
            (9, AudioRole::Console),
        ]
    );
}

#[test]
fn assignment_run_ignores_missing_sessions_and_stops_at_a_refusal() {
    let mut run = route_processes(&[7, 9], None).expect("valid request");
    assert_eq!(run.device_path(), None);
    assert_eq!(run.record_assignment(Err(E_INVALIDARG)), Ok(()));
    let denied = 0x8007_0005_u32 as i32;
    assert_eq!(
        run.record_assignment(Err(denied)),
        Err(RoutingError::AssignmentFailed {
            process_id: 7,
            role: AudioRole::Console,
            code: denied,
        })
    );
    assert_eq!(run.next_assignment(), None);
    assert!(route_processes(&[], None).is_err());
}

#[test]
fn persisted_reads_agree_or_report_inconsistency() {
    let mut run = persisted_output_for_processes(&[1, 2]).expect("valid processes");
    assert_eq!(run.record_read(Ok(None)), Ok(()));
    assert_eq!(run.record_read(Ok(Some("a".to_owned()))), Ok(()));
    assert_eq!(run.record_read(Ok(Some("a".to_owned()))), Ok(()));
    assert_eq!(run.selected(), Some("a"));
    assert_eq!(
        run.record_read(Ok(Some("b".to_owned()))),
        Err(RoutingError::InconsistentAssignments)
    );
    assert_eq!(run.next_read(), None);

    let mut failing = persisted_output_for_processes(&[5]).expect("valid processes");
    assert_eq!(
        failing.record_read(Err(-1)),
        Err(RoutingError::ReadFailed {
            process_id: 5,
            role: AudioRole::Multimedia,
            code: -1,
        })
    );
    assert_eq!(
        persisted_output_for_processes(&[0]).err(),
        Some(RoutingError::InvalidProcessId)
    );
}

#[test]
fn runtime_and_factory_answers_are_classified() {
    assert_eq!(runtime_initialization(Ok(())), Ok(true));
    assert_eq!(runtime_initialization(Err(RPC_E_CHANGED_MODE)), Ok(false));
    assert_eq!(
        runtime_initialization(Err(-5)),
        Err(RoutingError::RuntimeInitialization { code: -5 })
    );
    assert_eq!(factory_choice(Ok(()), None), Some(Ok(FactoryVersion::Current)));
    assert_eq!(factory_choice(Err(-1), None), None);
    assert_eq!(
        factory_choice(Err(-1), Some(Ok(()))),
        Some(Ok(FactoryVersion::Downlevel))
    );
    assert_eq!(
        factory_choice(Err(-1), Some(Err(-2))),
        Some(Err(RoutingError::ActivationFactoryUnavailable {
            current_code: -1,
            downlevel_code: -2,
        }))
    );
}

#[test]
fn routing_errors_describe_process_role_and_code() {
    assert_eq!(
        RoutingError::AssignmentFailed {
            process_id: 42,
            role: AudioRole::Console,
            code: 0x8007_0005_u32 as i32,
        }
        .message(),
        "Windows rejected output routing for process 42 (console, HRESULT(0x80070005))"
    );
    assert_eq!(
        RoutingError::RuntimeInitialization { code: 1 }.message(),
        "Windows Runtime initialization failed (HRESULT(0x00000001))"
    );
    assert_eq!(
        RoutingError::NoProcesses.message(),
        "no application processes were supplied"
    );
    assert_eq!(AudioRole::Multimedia.as_abi(), 1);
    assert_eq!(AudioRole::Console.as_abi(), 0);
}
