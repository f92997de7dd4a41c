use rust_aec::config::{file_name, load, save};

#[test]
fn the_file_is_named() {
    assert_eq!(file_name(), "rust_aec.cfg");
}

#[test]
fn a_missing_file_gives_nothing() {
    let config = load(None);
    assert!(config.mic.is_none() && config.speaker.is_none() && config.output.is_none());
    let empty = load(Some(""));
    assert!(empty.mic.is_none() && empty.speaker.is_none() && empty.output.is_none());
}

#[test]
fn lines_are_trimmed_and_others_skipped() {
    let config = load(Some("# devices\r\n mic = {a=b} \r\n\r\noutput={c}\nbroken\nother=1"));
    assert_eq!(config.mic.as_deref(), Some("{a=b}"));
    assert_eq!(config.speaker, None);
    assert_eq!(config.output.as_deref(), Some("{c}"));
}

#[test]
fn the_last_line_of_a_key_counts() {
    let config = load(Some("mic=first\nmic=second\nspeaker=\n"));
    assert_eq!(config.mic.as_deref(), Some("second"));
    assert_eq!(config.speaker.as_deref(), Some(""));
    assert_eq!(load(Some("=x\nMic=y")).mic, None);
}

#[test]
fn the_selection_is_written_line_by_line() {
    assert_eq!(save(Some("m"), Some("s"), Some("o")), "mic=m\nspeaker=s\noutput=o");
    assert_eq!(save(None, Some("s"), None), "speaker=s");
    assert_eq!(save(Some("m"), None, Some("o")), "mic=m\noutput=o");
    assert_eq!(save(None, None, None), "");
}

#[test]
fn a_saved_selection_is_restored() {
    let ids = ["{0.0.1.00000000}.{11111111-2222}", "{0.0.0.00000000}.{a=b}", "x y"];
    let file = save(Some(ids[0]), Some(ids[1]), Some(ids[2]));
    let config = load(Some(&file));
    assert_eq!(config.mic.as_deref(), Some(ids[0]));
    assert_eq!(config.speaker.as_deref(), Some(ids[1]));
    assert_eq!(config.output.as_deref(), Some(ids[2]));
    let partial = load(Some(&save(None, Some(ids[1]), None)));
    assert_eq!(partial.mic, None);
    assert_eq!(partial.speaker.as_deref(), Some(ids[1]));
    assert_eq!(partial.output, None);
}
