use rust_aec::autostart::{
    check, disable_autostart, enable_autostart, is_autostart_enabled, run_value, subkey, toggle,
    value_name, AutostartChange,
};

#[test]
fn the_value_stands_under_the_run_key() {
    assert_eq!(subkey(), r"Software\Microsoft\Windows\CurrentVersion\Run");
    assert_eq!(value_name(), "RustAEC");
}

#[test]
fn zero_is_success() {
    assert!(check(0, "RegOpenKeyExW").is_ok());
    let error = check(5, "RegOpenKeyExW").unwrap_err();
    assert_eq!(error.code, 5);
    assert_eq!(error.message(), "RegOpenKeyExW: error code 5");
}

#[test]
fn the_program_is_enabled_where_its_value_is() {
    assert!(is_autostart_enabled(0, 0));
    assert!(!is_autostart_enabled(0, 2));
    assert!(!is_autostart_enabled(2, 0));
}

#[test]
fn enabling_fails_where_a_call_fails() {
    assert!(enable_autostart(0, 0).is_ok());
    assert_eq!(enable_autostart(5, 0).unwrap_err().message(), "RegOpenKeyExW: error code 5");
    assert_eq!(enable_autostart(5, 8).unwrap_err().message(), "RegOpenKeyExW: error code 5");
    assert_eq!(enable_autostart(0, 87).unwrap_err().message(), "RegSetValueExW: error code 87");
}

#[test]
fn disabling_fails_where_the_key_cannot_be_opened() {
    assert!(disable_autostart(0).is_ok());
    assert_eq!(disable_autostart(2).unwrap_err().message(), "RegOpenKeyExW: error code 2");
}

#[test]
fn a_click_turns_it_round() {
    assert_eq!(toggle(true), AutostartChange::Disable);
    assert_eq!(toggle(false), AutostartChange::Enable);
}

#[test]
fn the_path_is_stored_as_wide_text() {
    assert_eq!(run_value("C:"), vec![0x43, 0, 0x3A, 0, 0, 0]);
    let path = "C:\\Prögramme\\😀.exe";
    let units: Vec<u16> = run_value(path)
        .chunks(2)
        .map(|pair| u16::from_le_bytes([pair[0], pair[1]]))
        .collect();
    assert_eq!(units.last(), Some(&0));
    assert_eq!(String::from_utf16(&units[..units.len() - 1]).unwrap(), path);
}

#[test]
fn two_clicks_restore_it() {
    for enabled in [false, true] {
        let once = toggle(enabled) == AutostartChange::Enable;
        assert_eq!(once, !enabled);
        let twice = toggle(once) == AutostartChange::Enable;
        assert_eq!(twice, enabled);
        assert_ne!(toggle(once), toggle(enabled));
    }
}
