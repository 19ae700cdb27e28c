use adufa::route_store::{ConfigRead, Configuration, RouteStore, CONFIG_VERSION};

fn reload(store: &RouteStore) -> RouteStore {
    RouteStore::load(ConfigRead::Loaded(store.configuration()), ConfigRead::NotFound)
        .expect("saved store should reload")
}

#[test]
fn route_survives_loading_a_new_store_instance() {
    let mut first = RouteStore::load(ConfigRead::NotFound, ConfigRead::NotFound)
        .expect("temporary store should load");
    first.record("windows:path:C:\\Apps\\Player.exe", Some("device-id"));

    let second = reload(&first);
    assert_eq!(
        second.output_for("windows:path:C:\\Apps\\Player.exe"),
        Some("device-id")
    );
}

#[test]
fn following_system_default_removes_the_saved_route() {
    let mut store = RouteStore::load(ConfigRead::NotFound, ConfigRead::NotFound)
        .expect("temporary store should load");
    store.record("windows:aumid:Example!Player", Some("headset"));
    store.record("windows:aumid:Example!Player", None);

    let reloaded = reload(&store);
    assert_eq!(reloaded.output_for("windows:aumid:Example!Player"), None);
}

#[test]
fn corrupt_primary_falls_back_to_the_previous_valid_copy() {
    let mut store = RouteStore::load(ConfigRead::NotFound, ConfigRead::NotFound)
        .expect("temporary store should load");
    store.record("app", Some("first"));
    let previous = store.configuration();
    store.record("app", Some("second"));

    let recovered = RouteStore::load(
        ConfigRead::Failed("expected value at line 1 column 1".to_owned()),
        ConfigRead::Loaded(previous),
    )
    .expect("backup should recover");
    assert_eq!(recovered.output_for("app"), Some("first"));
}

#[test]
fn unreadable_configuration_without_copy_is_reported() {
    let error = RouteStore::load(
        ConfigRead::Failed("access denied".to_owned()),
        ConfigRead::NotFound,
    )
    .err()
    .expect("no valid copy");
    assert_eq!(
        error,
        "Adufa could not read a valid configuration: access denied"
    );
}

#[test]
fn unsupported_configuration_versions_are_refused() {
    let configuration = Configuration {
        version: 7,
        routes: vec![("app".to_owned(), "out".to_owned())],
    };
    assert_eq!(
        RouteStore::from_configuration(configuration).err().as_deref(),
        Some("Adufa configuration version 7 is not supported.")
    );
    let legacy = Configuration {
        version: 0,
        routes: vec![
            ("app".to_owned(), "one".to_owned()),
            ("app".to_owned(), "two".to_owned()),
        ],
    };
    let store = RouteStore::from_configuration(legacy).expect("unversioned files are read");
    assert_eq!(store.output_for("app"), Some("two"));
    assert_eq!(store.configuration().version, CONFIG_VERSION);
}

#[test]
fn recording_one_application_keeps_the_routes_of_the_others() {
    let mut store = RouteStore::new();
    store.record("windows:aumid:Example!Player", Some("headset"));
    store.record("windows:aumid:Example!Chat", Some("speakers"));
    store.record("windows:aumid:Example!Player", Some("monitor"));
    assert_eq!(store.output_for("windows:aumid:Example!Player"), Some("monitor"));
    assert_eq!(store.output_for("windows:aumid:Example!Chat"), Some("speakers"));
    store.record("windows:aumid:Example!Chat", None);
    assert_eq!(store.output_for("windows:aumid:Example!Chat"), None);
    assert_eq!(store.output_for("windows:aumid:Example!Player"), Some("monitor"));
    assert_eq!(store.configuration().routes.len(), 1);
}
