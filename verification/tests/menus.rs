use rust_aec::audio::device::DeviceInfo;
use rust_aec::config::load;
use rust_aec::engine::EngineCommand;
use rust_aec::tray::{
    build_menu, handle_menu_command, icon_tip, window_message, DeviceItem, MenuAction, MenuItem,
    TrayMessage, TrayState,
};

fn device(name: &str, id: &str) -> DeviceInfo {
    DeviceInfo { index: 0, name: name.to_string(), id: id.to_string() }
}

fn state() -> TrayState {
    TrayState::new(
        vec![device("Mic A", "a"), device("Mic B", "b")],
        vec![device("Speakers", "s"), device("CABLE Input", "c")],
        Some("b".to_string()),
        Some("s".to_string()),
        None,
    )
}

fn lines(item: &MenuItem) -> (&str, &Vec<DeviceItem>) {
    match item {
        MenuItem::Submenu { label, items } => (label.as_str(), items),
        _ => panic!("no submenu"),
    }
}

#[test]
fn the_menu_lists_devices_and_checks_those_in_use() {
    let menu = build_menu(&state(), true);
    assert_eq!(menu.len(), 7);
    let (label, mics) = lines(&menu[0]);
    assert_eq!(label, "Microphone");
    assert_eq!(mics.len(), 2);
    assert_eq!((mics[0].id, mics[0].label.as_str()), (Some(1000), "Mic A"));
    assert!(!mics[0].checked && mics[0].enabled);
    assert_eq!((mics[1].id, mics[1].label.as_str()), (Some(1001), "Mic B"));
    assert!(mics[1].checked && mics[1].enabled);
    let (label, speakers) = lines(&menu[1]);
    assert_eq!(label, "Speaker (Loopback)");
    assert_eq!(speakers[0].id, Some(1100));
    assert!(speakers[0].checked && !speakers[1].checked);
    let (label, outputs) = lines(&menu[2]);
    assert_eq!(label, "Output (Cable)");
    assert_eq!(outputs[1].id, Some(1201));
    assert!(!outputs[0].checked && !outputs[1].checked);
    assert!(matches!(menu[3], MenuItem::Separator));
    assert!(matches!(
        &menu[4],
        MenuItem::Toggle { id: 2000, label, checked: true } if label == "Start with Windows"
    ));
    assert!(matches!(menu[5], MenuItem::Separator));
    assert!(matches!(&menu[6], MenuItem::Action { id: 9999, label } if label == "Exit"));
}

#[test]
fn a_menu_without_devices_says_so() {
    let menu = build_menu(&TrayState::new(vec![], vec![], None, None, None), false);
    for item in &menu[..3] {
        let (_, items) = lines(item);
        assert_eq!(items.len(), 1);
        assert_eq!(items[0].label, "No devices found");
        assert_eq!(items[0].id, None);
        assert!(!items[0].enabled && !items[0].checked);
    }
    assert!(matches!(menu[4], MenuItem::Toggle { checked: false, .. }));
}

#[test]
fn a_click_on_a_microphone_saves_and_sends() {
    match handle_menu_command(&state(), 1000) {
        MenuAction::Select { file, command } => {
            assert_eq!(file, "mic=a\nspeaker=s");
            assert!(matches!(command, EngineCommand::SetMicDevice(id) if id == "a"));
        }
        _ => panic!("no selection"),
    }
}

#[test]
fn a_click_on_a_speaker_saves_and_sends() {
    match handle_menu_command(&state(), 1101) {
        MenuAction::Select { file, command } => {
            assert_eq!(file, "mic=b\nspeaker=c");
            assert!(matches!(command, EngineCommand::SetSpeakerDevice(id) if id == "c"));
        }
        _ => panic!("no selection"),
    }
}

#[test]
fn a_click_on_an_output_saves_and_sends() {
    match handle_menu_command(&state(), 1201) {
        MenuAction::Select { file, command } => {
            assert_eq!(load(Some(&file)).output.as_deref(), Some("c"));
            assert_eq!(load(Some(&file)).mic.as_deref(), Some("b"));
            assert!(matches!(command, EngineCommand::SetOutputDevice(id) if id == "c"));
        }
        _ => panic!("no selection"),
    }
}

#[test]
fn the_last_items_toggle_and_exit() {
    assert!(matches!(handle_menu_command(&state(), 2000), MenuAction::ToggleAutostart));
    assert!(matches!(handle_menu_command(&state(), 9999), MenuAction::Exit));
}

#[test]
fn other_ids_do_nothing() {
    for id in [0, 999, 1002, 1099, 1102, 1202, 1299, 1300, 2001, 9998, u32::MAX] {
        assert!(matches!(handle_menu_command(&state(), id), MenuAction::Nothing), "{}", id);
    }
}

#[test]
fn ids_of_a_crowded_list_run_into_the_next() {
    let mut st = state();
    st.capture_devices = (0..101).map(|i| device("Mic", &format!("m{}", i))).collect();
    let menu = build_menu(&st, false);
    let (_, mics) = lines(&menu[0]);
    assert_eq!(mics[99].id, Some(1099));
    assert_eq!(mics[100].id, Some(1100));
    assert!(matches!(
        handle_menu_command(&st, 1099),
        MenuAction::Select { command: EngineCommand::SetMicDevice(id), .. } if id == "m99"
    ));
    assert!(matches!(
        handle_menu_command(&st, 1100),
        MenuAction::Select { command: EngineCommand::SetSpeakerDevice(id), .. } if id == "s"
    ));
}

#[test]
fn fresh_lists_are_taken_over_together() {
    let mut st = state();
    st.update_lists(Some(vec![]), None);
    assert_eq!(st.capture_devices.len(), 2);
    st.update_lists(Some(vec![device("New", "n")]), Some(vec![]));
    assert_eq!(st.capture_devices[0].id, "n");
    assert!(st.render_devices.is_empty());
    assert_eq!(st.current_mic_id.as_deref(), Some("b"));
}

#[test]
fn window_messages_are_understood() {
    assert_eq!(window_message(0x8001, 1, 0x0205), TrayMessage::ShowMenu);
    assert_eq!(window_message(0x8001, 1, 0xABCD_0205), TrayMessage::ShowMenu);
    assert_eq!(window_message(0x8001, 1, 0x0201), TrayMessage::Ignore);
    assert_eq!(window_message(0x0111, 0x5_03E8, 0), TrayMessage::MenuCommand(1000));
    assert_eq!(window_message(0x02B1, 0x1, 0), TrayMessage::RefreshDevices);
    assert_eq!(window_message(0x02B1, 0x8, 0), TrayMessage::RefreshDevices);
    assert_eq!(window_message(0x02B1, 0x1_0000_0008, 0), TrayMessage::RefreshDevices);
    assert_eq!(window_message(0x02B1, 0x7, 0), TrayMessage::Ignore);
    assert_eq!(window_message(0x0002, 0, 0), TrayMessage::Quit);
    assert_eq!(window_message(0x0010, 0, 0), TrayMessage::Default);
}

#[test]
fn the_tip_is_cut_to_its_room() {
    let tip = "Rust AEC - Echo Cancellation";
    let all: Vec<u16> = tip.encode_utf16().collect();
    assert_eq!(icon_tip(tip, 128), all);
    assert_eq!(icon_tip(tip, all.len() + 1), all);
    assert_eq!(icon_tip(tip, all.len()), all[..all.len() - 1].to_vec());
    assert_eq!(icon_tip(tip, 5), all[..4].to_vec());
    assert!(icon_tip(tip, 1).is_empty());
}
