use rust_aec::audio::device::DeviceInfo;
use rust_aec::config::{load, save, Config};
use rust_aec::engine::refresh::DeviceIds;
use rust_aec::startup::{
    failure_report, is_verbose, positional_args, select_devices, StartupError,
};
use rust_aec::tray::{handle_menu_command, MenuAction, TrayState};

fn args(list: &[&str]) -> Vec<String> {
    list.iter().map(|a| a.to_string()).collect()
}

fn device(name: &str, id: &str) -> DeviceInfo {
    DeviceInfo { index: 0, name: name.to_string(), id: id.to_string() }
}

fn capture() -> Vec<DeviceInfo> {
    vec![device("CABLE Output", "co"), device("Realtek Microphone", "rm"), device("Webcam", "w")]
}

fn render() -> Vec<DeviceInfo> {
    vec![device("Speakers (Realtek)", "s"), device("CABLE Input", "ci"), device("TV", "tv")]
}

fn config(mic: Option<&str>, speaker: Option<&str>, output: Option<&str>) -> Config {
    load(Some(&save(mic, speaker, output)))
}

fn select(list: &[&str], saved: Config) -> Result<DeviceIds, StartupError> {
    select_devices(
        &args(list),
        &capture(),
        &render(),
        saved,
        Some("s".to_string()),
    )
}

fn ids(found: DeviceIds) -> (Option<String>, Option<String>, Option<String>) {
    (found.mic, found.speaker, found.output)
}

fn some(id: &str) -> Option<String> {
    Some(id.to_string())
}

#[test]
fn flags_ask_for_diagnostics() {
    assert!(is_verbose(&args(&["rust_aec.exe", "--verbose"])));
    assert!(is_verbose(&args(&["rust_aec.exe", "Realtek", "-v"])));
    assert!(!is_verbose(&args(&["rust_aec.exe", "verbose", "-V", "--v"])));
    assert!(!is_verbose(&[]));
}

#[test]
fn flags_are_no_positional_arguments() {
    let given = args(&["-exe", "--verbose", "Realtek", "-v", "", "CABLE Input", "-"]);
    assert_eq!(positional_args(&given), args(&["Realtek", "", "CABLE Input"]));
    assert!(positional_args(&args(&["rust_aec.exe"])).is_empty());
}

#[test]
fn everything_is_found_by_itself() {
    let found = select(&["exe"], load(None)).unwrap();
    assert_eq!(ids(found), (some("rm"), some("s"), some("ci")));
}

#[test]
fn the_first_real_microphone_is_the_default() {
    let mics = vec![device("Headset Mic", "a"), device("Realtek Mic", "b")];
    let found =
        select_devices(&args(&["rust_aec.exe"]), &mics, &[], load(None), None).unwrap();
    assert_eq!(ids(found), (some("a"), None, None));
    let only_cables =
        select_devices(&args(&["exe"]), &capture()[..1], &[], load(None), None).unwrap();
    assert_eq!(ids(only_cables), (None, None, None));
}

#[test]
fn a_default_speaker_is_taken_as_it_is() {
    let found =
        select_devices(&args(&["exe"]), &[], &render(), load(None), some("tv")).unwrap();
    assert_eq!(ids(found), (None, some("tv"), some("ci")));
}

#[test]
fn a_start_without_devices_waits() {
    let found = select_devices(
        &args(&["exe", "Realtek", "Speakers", "CABLE Input"]),
        &[],
        &[],
        config(Some("rm"), Some("s"), Some("ci")),
        None,
    )
    .unwrap();
    assert_eq!(ids(found), (None, None, None));
    let half = select_devices(&args(&["exe", "Realtek", "Lamp"]), &[], &render(), load(None), None);
    assert!(matches!(half, Err(StartupError::Speaker(_))));
}

#[test]
fn the_command_line_comes_first() {
    let saved = config(Some("rm"), Some("tv"), Some("s"));
    let found = select(&["exe", "-v", "webcam", "SPEAKERS", "cable"], saved).unwrap();
    assert_eq!(ids(found), (some("w"), some("s"), some("ci")));
}

#[test]
fn the_saved_selection_comes_next() {
    let found = select(&["exe"], config(Some("rm"), Some("tv"), Some("s"))).unwrap();
    assert_eq!(ids(found), (some("rm"), some("tv"), some("s")));
    let first_only =
        select(&["exe", "Webcam"], config(Some("rm"), Some("tv"), None)).unwrap();
    assert_eq!(ids(first_only), (some("w"), some("tv"), some("ci")));
}

#[test]
fn saved_devices_that_are_gone_are_replaced() {
    let found = select(&["exe"], config(Some("x"), Some("y"), Some("z"))).unwrap();
    assert_eq!(ids(found), (some("rm"), some("s"), some("ci")));
}

#[test]
fn devices_of_the_command_line_must_be_there() {
    let mic = select(&["exe", "nope", "nope", "nope"], load(None)).err().unwrap();
    assert_eq!(mic.message(), "Mic device not found: No device matching 'nope' found");
    assert!(matches!(mic, StartupError::Mic(_)));
    let speaker = select(&["exe", "Web", "Lamp", "nope"], load(None)).err().unwrap();
    assert_eq!(speaker.message(), "Speaker device not found: No device matching 'Lamp' found");
    assert!(matches!(speaker, StartupError::Speaker(_)));
    let output = select(&["exe", "Web", "TV", "Wire"], load(None)).err().unwrap();
    assert_eq!(
        output.message(),
        "Output virtual cable device not found: No device matching 'Wire' found"
    );
    assert!(matches!(output, StartupError::Output(_)));
}

#[test]
fn failures_are_reported_under_the_name_of_the_program() {
    assert_eq!(failure_report("no device"), "rust_aec error:\nno device");
}

#[test]
fn a_clicked_device_is_selected_after_a_restart() {
    let st = TrayState::new(capture(), render(), some("rm"), some("s"), some("ci"));
    for (click, expected) in [
        (1002, (some("w"), some("s"), some("ci"))),
        (1102, (some("rm"), some("tv"), some("ci"))),
        (1200, (some("rm"), some("s"), some("s"))),
    ] {
        match handle_menu_command(&st, click) {
            MenuAction::Select { file, .. } => {
                let found = select(&["exe"], load(Some(&file))).unwrap();
                assert_eq!(ids(found), expected);
            }
            _ => panic!("no selection"),
        }
    }
}
