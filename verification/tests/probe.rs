use adufa::probe::{escape, parse_options, process_label, state_name, ProbeOptions, PROBE_USAGE};

fn parse(args: &[&str]) -> Result<ProbeOptions, String> {
    let args: Vec<String> = args.iter().map(|a| a.to_string()).collect();
    let accepted: Vec<bool> = args
        .iter()
        .map(|a| a.parse::<f32>().map(|p| (0.0..=100.0).contains(&p)).unwrap_or(false))
        .collect();
    parse_options(&args, &accepted)
}

#[test]
fn no_arguments_list_once() {
    let options = parse(&[]).expect("empty arguments are valid");
    assert_eq!(options.hold, 0);
    assert_eq!(options.pid, None);
    assert_eq!(options.volume_percent, None);
    assert_eq!(options.muted, None);
}

#[test]
fn hold_volume_and_mute_are_read() {
    let options = parse(&["--hold", "+30", "--set-volume", "42", "37.5", "--mute", "42", "on"])
        .expect("valid arguments");
    assert_eq!(options.hold, 30);
    assert_eq!(options.pid, Some(42));
    assert_eq!(options.volume_percent.as_deref(), Some("37.5"));
    assert_eq!(options.muted, Some(true));

    let options = parse(&["--mute", "7", "off", "--hold", "3600"]).expect("valid arguments");
    assert_eq!(options.muted, Some(false));
    assert_eq!(options.hold, 3600);
}

#[test]
fn invalid_arguments_report_usage() {
    for args in [
        &["--hold"][..],
        &["--hold", "3601"],
        &["--hold", "-1"],
        &["--hold", "ten"],
        &["--set-volume", "42", "101"],
        &["--set-volume", "4294967296", "10"],
        &["--mute", "42", "maybe"],
        &["--verbose"],
    ] {
        assert_eq!(parse(args).err().as_deref(), Some(PROBE_USAGE));
    }
}

#[test]
fn changes_must_name_one_process() {
    let error = parse(&["--set-volume", "1", "10", "--mute", "2", "on"]).err().expect("refused");
    assert_eq!(error, format!("Volume and mute must target the same PID.\n{PROBE_USAGE}"));
}

#[test]
fn states_processes_and_fields_are_named() {
    assert_eq!(state_name(0), "inactive");
    assert_eq!(state_name(1), "active");
    assert_eq!(state_name(2), "expired");
    assert_eq!(state_name(7), "unknown");
    assert_eq!(escape("Speakers (Realtek)\r\nx"), "Speakers_(Realtek)__x");
    assert_eq!(process_label(0, Some("C:\\x.exe")), "system-sounds");
    assert_eq!(process_label(5, None), "(unavailable)");
    assert_eq!(process_label(5, Some("C:\\Apps/Player.exe")), "Player.exe");
    assert_eq!(process_label(5, Some("Player.exe")), "Player.exe");
}
