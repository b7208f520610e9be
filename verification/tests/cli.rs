use audio_leveler::cli::{find_device, Cli, Commands, Startup, DEFAULT_TARGET_LOUDNESS};

fn cli(command: Option<Commands>, input: Option<&str>, output: Option<&str>) -> Cli {
    Cli {
        command,
        input_device: input.map(String::from),
        output_device: output.map(String::from),
        target_loudness: DEFAULT_TARGET_LOUDNESS,
        debug: false,
    }
}

fn names(list: &[&str]) -> Vec<String> {
    list.iter().map(|name| name.to_string()).collect()
}

#[test]
fn default_target_is_minus_twenty() {
    assert_eq!(DEFAULT_TARGET_LOUDNESS, -20);
}

#[test]
fn list_subcommand_lists_devices() {
    assert_eq!(cli(Some(Commands::List), None, None).startup(), Startup::ListDevices);
}

#[test]
fn subcommand_wins_over_devices() {
    assert_eq!(cli(Some(Commands::List), Some("mic"), Some("out")).startup(), Startup::ListDevices);
    assert_eq!(cli(Some(Commands::List), Some("mic"), None).startup(), Startup::ListDevices);
}

#[test]
fn no_devices_prints_help() {
    assert_eq!(cli(None, None, None).startup(), Startup::PrintHelp);
}

#[test]
fn one_device_is_not_enough() {
    assert_eq!(cli(None, Some("mic"), None).startup(), Startup::MissingDevice);
    assert_eq!(cli(None, None, Some("out")).startup(), Startup::MissingDevice);
}

#[test]
fn both_devices_stream() {
    assert_eq!(cli(None, Some("mic"), Some("out")).startup(), Startup::Stream);
    assert_eq!(cli(None, Some(""), Some("")).startup(), Startup::Stream);
}

#[test]
fn startup_ignores_level_and_debug() {
    let mut parsed = cli(None, Some("mic"), Some("out"));
    parsed.target_loudness = -35;
    parsed.debug = true;
    assert_eq!(parsed.startup(), Startup::Stream);
}

#[test]
fn device_is_found_by_name() {
    let devices = names(&["Built-in Microphone", "USB Audio", "Speakers"]);
    assert_eq!(find_device(&devices, &"USB Audio".to_string()), Some(1));
    assert_eq!(find_device(&devices, &"Built-in Microphone".to_string()), Some(0));
    assert_eq!(find_device(&devices, &"Speakers".to_string()), Some(2));
}

#[test]
fn first_device_of_a_name_wins() {
    let devices = names(&["hw:0", "hw:1", "hw:1", "hw:0"]);
    assert_eq!(find_device(&devices, &"hw:1".to_string()), Some(1));
    assert_eq!(find_device(&devices, &"hw:0".to_string()), Some(0));
}

#[test]
fn unknown_device_is_not_found() {
    let devices = names(&["Built-in Microphone", "Speakers"]);
    assert_eq!(find_device(&devices, &"speakers".to_string()), None);
    assert_eq!(find_device(&devices, &"Speakers ".to_string()), None);
    assert_eq!(find_device(&devices, &"".to_string()), None);
    assert_eq!(find_device(&Vec::new(), &"Speakers".to_string()), None);
}
