use adufa::audio::{build_output_metadata, ScanStats};
use adufa::popup::RouteRequest;
use adufa::process_identity::ProcessIdentity;
use adufa::route_store::{ConfigRead, RouteStore};
use adufa::routing::RoutingError;
use adufa::runtime::ApplicationRuntime;
use adufa::{
    ApplicationId, Capabilities, CapabilityAvailability, Observation, OutputId, UnavailableReason,
};

fn observation(routing: CapabilityAvailability) -> Observation {
    Observation {
        capabilities: Capabilities { application_routing: routing },
        applications: vec![ApplicationId::new("player".to_owned()).unwrap()],
        outputs: vec![OutputId::new("headset".to_owned()).unwrap()],
        system_default: None,
    }
}

fn empty_store() -> RouteStore {
    RouteStore::load(ConfigRead::NotFound, ConfigRead::NotFound).unwrap()
}

fn request(output: Option<&str>) -> RouteRequest {
    RouteRequest {
        application_id: "player".to_owned(),
        process_ids: vec![42],
        output_id: output.map(str::to_owned),
    }
}

#[test]
fn accepted_route_is_recorded_and_refused_route_changes_nothing() {
    let mut runtime =
        ApplicationRuntime::new(observation(CapabilityAvailability::Available), empty_store());
    assert_eq!(
        runtime.route(&request(Some("headset")), Err(RoutingError::NoProcesses)),
        Err("no application processes were supplied".to_owned())
    );
    assert_eq!(runtime.saved_output("player"), None);

    assert_eq!(runtime.route(&request(Some("headset")), Ok(())), Ok(()));
    assert_eq!(runtime.saved_output("player"), Some("headset"));
    assert_eq!(runtime.route_saved(request(Some("headset")), Ok(())), Ok(()));

    assert_eq!(runtime.route(&request(None), Ok(())), Ok(()));
    assert_eq!(runtime.saved_output("player"), None);
}

#[test]
fn unavailable_routing_is_reported_without_recording() {
    let mut runtime = ApplicationRuntime::new(
        observation(CapabilityAvailability::Unavailable(
            UnavailableReason::UnsupportedByPlatform,
        )),
        empty_store(),
    );
    assert_eq!(
        runtime.route(&request(Some("headset")), Ok(())),
        Err("application routing is unavailable: Unavailable(UnsupportedByPlatform)".to_owned())
    );
    assert_eq!(runtime.saved_output("player"), None);
    assert_eq!(
        runtime.route(&request(Some("")), Ok(())),
        Err("a stable identity cannot be empty".to_owned())
    );
}

#[test]
fn restore_imports_only_missing_routes_and_reapplies_to_new_processes() {
    let mut runtime =
        ApplicationRuntime::new(observation(CapabilityAvailability::Available), empty_store());
    let player = ApplicationId::new("player".to_owned()).unwrap();

    let mut pass = runtime.begin_restore();
    let step = runtime.restore_application(&mut pass, &player, &[1, 2], Some("headset".to_owned()), true);
    assert!(step.imported);
    assert_eq!(step.reapply, Some(("headset".to_owned(), vec![1, 2])));
    runtime.finish_restore(pass);

    let mut pass = runtime.begin_restore();
    let step = runtime.restore_application(&mut pass, &player, &[2, 3], Some("other".to_owned()), false);
    assert!(!step.imported);
    assert_eq!(step.reapply, Some(("headset".to_owned(), vec![3])));
    assert_eq!(runtime.saved_output("player"), Some("headset"));
    runtime.finish_restore(pass);

    let mut pass = runtime.begin_restore();
    let step = runtime.restore_application(&mut pass, &player, &[2, 3], None, false);
    assert_eq!(step.reapply, None);
    runtime.finish_restore(pass);
}

#[test]
fn model_shows_the_engine_snapshot_with_scan_metadata() {
    let runtime =
        ApplicationRuntime::new(observation(CapabilityAvailability::Available), empty_store());
    let mut stats = ScanStats::new();
    stats.record_session(
        ProcessIdentity {
            application_id: ApplicationId::new("player".to_owned()).unwrap(),
            executable_path: None,
        },
        42,
        Some((64, false)),
    );
    let headset = OutputId::new("headset".to_owned()).unwrap();
    let outputs = vec![build_output_metadata(headset, Some("Headset".to_owned()), None)];
    let model = runtime.model(&stats, &outputs);
    assert_eq!(model.applications.len(), 1);
    assert_eq!(model.applications[0].process_ids, vec![42]);
    assert_eq!(model.applications[0].volume_percent, 64);
    assert_eq!(model.outputs[0].name, "Headset");
    let targets = runtime.set_volume(adufa::popup::VolumeRequest {
        application_id: "player".to_owned(),
        process_ids: vec![42],
        volume_percent: 20,
        muted: false,
    });
    assert_eq!(targets.map(|t| t.process_ids), Ok(vec![42]));
}
