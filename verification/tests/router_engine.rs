use adufa::{
    ApplicationId, Capabilities, CapabilityAvailability, Command, CommandError, Observation,
    OutputId, RouteFailure, RouteStatus, RouterEngine, UnavailableReason,
};

fn app(value: &str) -> ApplicationId {
    ApplicationId::new(value.to_owned()).unwrap()
}

fn output(value: &str) -> OutputId {
    OutputId::new(value.to_owned()).unwrap()
}

fn observation(applications: &[&str], outputs: &[&str], default: Option<&str>) -> Observation {
    Observation {
        capabilities: Capabilities {
            application_routing: CapabilityAvailability::Available,
        },
        applications: applications.iter().map(|value| app(value)).collect(),
        outputs: outputs.iter().map(|value| output(value)).collect(),
        system_default: default.map(output),
    }
}

#[test]
fn setting_a_route_separates_desired_and_effective_output() {
    let mut engine = RouterEngine::new(observation(
        &["browser"],
        &["speakers", "headset"],
        Some("speakers"),
    ));

    let notices = engine
        .dispatch(Command::SetRoute {
            application: app("browser"),
            output: output("headset"),
        })
        .unwrap();

    let application = &engine.snapshot().applications[0];
    assert!(notices.is_empty());
    assert_eq!(application.desired_output, Some(output("headset")));
    assert_eq!(application.effective_output, Some(output("headset")));
    assert_eq!(application.route_status, RouteStatus::Applied);
}

#[test]
fn missing_desired_output_falls_back_without_forgetting_intent() {
    let mut engine = RouterEngine::new(observation(&["browser"], &["speakers"], Some("speakers")));

    let notices = engine
        .dispatch(Command::SetRoute {
            application: app("browser"),
            output: output("headset"),
        })
        .unwrap();

    let application = &engine.snapshot().applications[0];
    assert_eq!(application.desired_output, Some(output("headset")));
    assert_eq!(application.effective_output, Some(output("speakers")));
    assert_eq!(
        application.route_status,
        RouteStatus::Fallback(RouteFailure::DesiredOutputUnavailable(output("headset")))
    );
    assert_eq!(notices.len(), 1);
}

#[test]
fn exact_desired_output_is_restored_when_it_returns() {
    let mut engine = RouterEngine::new(observation(&["browser"], &["speakers"], Some("speakers")));
    engine
        .dispatch(Command::SetRoute {
            application: app("browser"),
            output: output("headset"),
        })
        .unwrap();

    let notices = engine.observe(observation(
        &["browser"],
        &["speakers", "headset"],
        Some("speakers"),
    ));

    let application = &engine.snapshot().applications[0];
    assert!(notices.is_empty());
    assert_eq!(application.desired_output, Some(output("headset")));
    assert_eq!(application.effective_output, Some(output("headset")));
    assert_eq!(application.route_status, RouteStatus::Applied);
}

#[test]
fn following_system_default_clears_the_persistent_route() {
    let mut engine = RouterEngine::new(observation(
        &["browser"],
        &["speakers", "headset"],
        Some("speakers"),
    ));
    engine
        .dispatch(Command::SetRoute {
            application: app("browser"),
            output: output("headset"),
        })
        .unwrap();

    engine
        .dispatch(Command::FollowSystemDefault {
            application: app("browser"),
        })
        .unwrap();
    engine.observe(observation(&["browser"], &["dock"], Some("dock")));

    let application = &engine.snapshot().applications[0];
    assert_eq!(application.desired_output, None);
    assert_eq!(application.effective_output, Some(output("dock")));
    assert_eq!(
        application.route_status,
        RouteStatus::FollowingSystemDefault
    );
}

#[test]
fn configured_application_is_retained_while_inactive() {
    let mut engine = RouterEngine::new(observation(&["browser"], &["headset"], Some("headset")));
    engine
        .dispatch(Command::SetRoute {
            application: app("browser"),
            output: output("headset"),
        })
        .unwrap();

    engine.observe(observation(&[], &["headset"], Some("headset")));

    let application = &engine.snapshot().applications[0];
    assert!(!application.active);
    assert_eq!(application.desired_output, Some(output("headset")));
    assert_eq!(application.effective_output, None);
    assert_eq!(application.route_status, RouteStatus::Inactive);
}

#[test]
fn unsupported_routing_is_rejected_before_mutation() {
    let mut initial = observation(&["browser"], &["speakers"], Some("speakers"));
    initial.capabilities.application_routing =
        CapabilityAvailability::Unavailable(UnavailableReason::UnsupportedByPlatform);
    let mut engine = RouterEngine::new(initial);

    let error = engine
        .dispatch(Command::SetRoute {
            application: app("browser"),
            output: output("speakers"),
        })
        .unwrap_err();

    assert_eq!(
        error,
        CommandError::ApplicationRoutingUnavailable(CapabilityAvailability::Unavailable(
            UnavailableReason::UnsupportedByPlatform
        ))
    );
    assert_eq!(engine.snapshot().applications[0].desired_output, None);
}

#[test]
fn identical_failure_is_not_notified_again_until_it_recovers() {
    let missing = observation(&["browser"], &["speakers"], Some("speakers"));
    let mut engine = RouterEngine::new(missing.clone());

    let first = engine
        .dispatch(Command::SetRoute {
            application: app("browser"),
            output: output("headset"),
        })
        .unwrap();
    let duplicate = engine.observe(missing.clone());
    engine.observe(observation(
        &["browser"],
        &["speakers", "headset"],
        Some("speakers"),
    ));
    let next_episode = engine.observe(missing);

    assert_eq!(first.len(), 1);
    assert!(duplicate.is_empty());
    assert_eq!(next_episode.len(), 1);
}

#[test]
fn following_the_system_default_is_quiet_even_while_failing() {
    let mut engine = RouterEngine::new(observation(&["browser"], &["speakers"], Some("speakers")));
    let first = engine
        .dispatch(Command::SetRoute {
            application: app("browser"),
            output: output("headset"),
        })
        .unwrap();
    assert_eq!(first.len(), 1);

    let notices = engine
        .dispatch(Command::FollowSystemDefault {
            application: app("browser"),
        })
        .unwrap();
    assert!(notices.is_empty());
    let application = &engine.snapshot().applications[0];
    assert_eq!(application.desired_output, None);
    assert_eq!(application.effective_output, Some(output("speakers")));
    assert_eq!(application.route_status, RouteStatus::FollowingSystemDefault);
}

#[test]
fn repeating_a_missing_route_is_quiet_until_intent_is_cleared() {
    let mut engine = RouterEngine::new(observation(&["browser"], &["speakers"], Some("speakers")));
    let set = || Command::SetRoute {
        application: app("browser"),
        output: output("headset"),
    };
    let first = engine.dispatch(set()).unwrap();
    assert_eq!(first.len(), 1);
    assert_eq!(
        first[0].clone(),
        adufa::Notice::RouteFailed {
            application: app("browser"),
            reason: RouteFailure::DesiredOutputUnavailable(output("headset")),
        }
    );
    assert!(engine.dispatch(set()).unwrap().is_empty());

    engine
        .dispatch(Command::FollowSystemDefault {
            application: app("browser"),
        })
        .unwrap();
    assert_eq!(engine.dispatch(set()).unwrap().len(), 1);
}

#[test]
fn observation_announces_only_changed_failures() {
    let mut engine = RouterEngine::new(observation(
        &["browser", "game"],
        &["speakers", "headset"],
        Some("speakers"),
    ));
    for application in ["browser", "game"] {
        engine
            .dispatch(Command::SetRoute {
                application: app(application),
                output: output("headset"),
            })
            .unwrap();
    }
    let notices = engine.observe(observation(&["game", "browser"], &["speakers"], Some("speakers")));
    let named: Vec<_> = notices
        .iter()
        .map(|notice| match notice {
            adufa::Notice::RouteFailed { application, .. } => application.as_str().to_owned(),
        })
        .collect();
    assert_eq!(named, vec!["browser".to_owned(), "game".to_owned()]);

    let again = engine.observe(observation(&["browser", "game", "editor"], &["speakers"], None));
    assert!(again.is_empty());
}

#[test]
fn identities_order_by_their_text() {
    assert!(app("browser") < app("game"));
    assert!(output("headset") < output("speakers"));
    let mut ids = vec![app("game"), app("browser"), app("editor")];
    ids.sort();
    assert_eq!(ids, vec![app("browser"), app("editor"), app("game")]);
}
