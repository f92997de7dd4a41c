use rust_aec::audio::device::{
    describe_device, device_name_by_id, find_device_id_by_name, find_real_capture_device,
    find_real_render_device, first_holding, first_lacking, is_auto_speaker_excluded, is_listed,
    is_virtual_cable, DeviceError, DeviceInfo,
};

fn device(index: usize, name: &str, id: &str) -> DeviceInfo {
    DeviceInfo { index, name: name.to_string(), id: id.to_string() }
}

fn devices() -> Vec<DeviceInfo> {
    vec![
        device(0, "CABLE Output (VB-Audio)", "{cable}"),
        device(1, "Microphone (Realtek Audio)", "{realtek}"),
        device(2, "Headset (Realtek Audio)", "{headset}"),
    ]
}

#[test]
fn names_match_whatever_their_case() {
    let list = devices();
    assert_eq!(find_device_id_by_name(&list, "REALTEK").unwrap(), "{realtek}");
    assert_eq!(find_device_id_by_name(&list, "headset").unwrap(), "{headset}");
    assert_eq!(find_device_id_by_name(&list, "cable output").unwrap(), "{cable}");
    assert_eq!(find_device_id_by_name(&list, "").unwrap(), "{cable}");
}

#[test]
fn letters_beyond_ascii_are_lowered_too() {
    let list = vec![device(0, "LAUTSPRECHER ÄÖÜ", "{de}")];
    assert_eq!(find_device_id_by_name(&list, "äöü").unwrap(), "{de}");
    assert!(is_virtual_cable("cÄbLe CABLE"));
    assert!(!is_virtual_cable("CÂBLE"));
}

#[test]
fn a_name_that_no_device_holds_is_an_error() {
    let error = find_device_id_by_name(&devices(), "Webcam").unwrap_err();
    assert_eq!(error.message(), "No device matching 'Webcam' found");
    assert!(matches!(error, DeviceError::NoMatch(query) if query == "Webcam"));
    assert!(find_device_id_by_name(&[], "").is_err());
}

#[test]
fn the_first_real_device_is_found() {
    assert_eq!(find_real_capture_device(&devices()).unwrap(), "{realtek}");
    assert_eq!(find_real_render_device(&devices()).unwrap(), "{realtek}");
}

#[test]
fn a_list_of_cables_holds_no_real_device() {
    let cables = vec![device(0, "Cable A", "a"), device(1, "My CABLE", "b")];
    let mic = find_real_capture_device(&cables).unwrap_err();
    assert_eq!(
        mic.message(),
        "No real microphone found (all capture devices appear to be virtual cables)"
    );
    assert!(matches!(mic, DeviceError::NoRealMicrophone));
    let speaker = find_real_render_device(&cables).unwrap_err();
    assert_eq!(
        speaker.message(),
        "No real speaker found (all render devices appear to be virtual cables)"
    );
    assert!(matches!(speaker, DeviceError::NoRealSpeaker));
}

#[test]
fn cables_are_told_by_their_name() {
    assert!(is_virtual_cable("CABLE Input (VB-Audio Virtual Cable)"));
    assert!(is_virtual_cable("table cable"));
    assert!(!is_virtual_cable("Microphone"));
    assert!(!is_virtual_cable("cabl"));
    assert!(is_auto_speaker_excluded("Cable"));
    assert!(!is_auto_speaker_excluded("Speakers"));
}

#[test]
fn names_are_looked_up_by_id() {
    let mut list = devices();
    assert_eq!(device_name_by_id(&list, "{headset}"), "Headset (Realtek Audio)");
    assert_eq!(device_name_by_id(&list, "{gone}"), "Unknown");
    list.push(device(3, "Second", "{headset}"));
    assert_eq!(device_name_by_id(&list, "{headset}"), "Headset (Realtek Audio)");
    assert!(is_listed(&list, "{cable}"));
    assert!(!is_listed(&list, "{CABLE}"));
}

#[test]
fn a_device_without_a_name_is_called_after_its_index() {
    let unnamed = describe_device(107, None, "{x}".to_string());
    assert_eq!(unnamed.name, "Device 107");
    assert_eq!(unnamed.index, 107);
    assert_eq!(unnamed.id, "{x}");
    let named = describe_device(0, Some("Mic".to_string()), "{y}".to_string());
    assert_eq!(named.name, "Mic");
    assert_eq!(describe_device(0, None, String::new()).name, "Device 0");
}

#[test]
fn the_first_text_that_holds_a_part_is_found() {
    let names: Vec<String> =
        ["cable input", "mic", "speakers", "mic 2"].iter().map(|n| n.to_string()).collect();
    assert_eq!(first_holding(&names, "mic"), Some(1));
    assert_eq!(first_holding(&names, "2"), Some(3));
    assert_eq!(first_holding(&names, "Mic"), None);
    assert_eq!(first_lacking(&names, "cable"), Some(1));
    assert_eq!(first_lacking(&names, "i"), Some(2));
    assert_eq!(first_lacking(&names, ""), None);
    assert_eq!(first_holding(&vec![], ""), None);
}

#[test]
fn queries_that_differ_in_case_find_the_same_device() {
    for query in ["realtek", "REALTEK", "ReAlTeK"] {
        assert_eq!(find_device_id_by_name(&devices(), query).unwrap(), "{realtek}");
    }
    let greek = vec![device(0, "aΣ BΣb ΣΑΣ", "{gr}")];
    for query in ["Aς bΣB", "aΣ BσB"] {
        assert_eq!(find_device_id_by_name(&greek, query).is_ok(), {
            greek[0].name.to_lowercase().contains(&query.to_lowercase())
        });
    }
}

#[test]
fn devices_listed_later_change_no_answer() {
    let mut list = devices();
    list.push(device(3, "Realtek Line In", "{line}"));
    assert_eq!(find_device_id_by_name(&list, "rEALTEK").unwrap(), "{realtek}");
    assert_eq!(find_real_capture_device(&list).unwrap(), "{realtek}");
}

#[test]
fn a_cable_in_a_longer_name_is_a_cable() {
    for name in ["CABLE", "cable", "cAbLe Input", "Câble CABLE", "ΣCABLEΣ"] {
        assert!(is_virtual_cable(name));
        for (before, after) in [("", " 2"), ("My ", ""), ("x", "y"), ("Ä", "Σ"), ("Σ", "É")] {
            assert!(is_virtual_cable(&format!("{}{}{}", before, name, after)));
        }
        assert!(is_virtual_cable(&name.to_ascii_uppercase()));
        assert!(is_virtual_cable(&name.to_ascii_lowercase()));
    }
}

#[test]
fn a_cable_is_one_whatever_the_case_of_ascii_letters() {
    for name in ["CABLE", "Kabel", "Câble", "c a b l e", "ta\u{212A}cable", "", "ÀÇcABLe"] {
        let expected = name.to_ascii_lowercase().contains("cable");
        assert_eq!(is_virtual_cable(name), expected);
        assert_eq!(is_virtual_cable(&name.to_ascii_uppercase()), expected);
    }
}
