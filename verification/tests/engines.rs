use rust_aec::audio::device::DeviceInfo;
use rust_aec::engine::refresh::{
    auto_mic_id, auto_output_id, auto_speaker_id, refresh_devices_preserving, DeviceIds,
    DeviceSnapshot,
};
use rust_aec::engine::{
    AudioEngine, Directive, EngineCommand, EngineEvent, Occasion, Release, Request,
};
use rust_aec::tray::TrayState;

fn device(name: &str, id: &str) -> DeviceInfo {
    DeviceInfo { index: 0, name: name.to_string(), id: id.to_string() }
}

fn capture() -> Vec<DeviceInfo> {
    vec![device("CABLE Output", "co"), device("Mic", "m"), device("Webcam", "w")]
}

fn render() -> Vec<DeviceInfo> {
    vec![device("CABLE Input", "ci"), device("Speakers", "s"), device("TV", "tv")]
}

fn some(id: &str) -> Option<String> {
    Some(id.to_string())
}

fn snapshot() -> DeviceSnapshot {
    DeviceSnapshot {
        capture: Some(capture()),
        render: Some(render()),
        default_render: some("s"),
    }
}

fn state() -> TrayState {
    TrayState::new(capture(), render(), some("m"), some("s"), some("ci"))
}

fn empty_state() -> TrayState {
    TrayState::new(vec![], vec![], None, None, None)
}

fn probed() -> EngineEvent {
    EngineEvent::ThreadsProbed { reference_finished: false, mic_finished: false }
}

fn command(command: EngineCommand) -> EngineEvent {
    EngineEvent::Command(command)
}

struct Rig {
    engine: AudioEngine,
    st: TrayState,
    last: Directive,
}

impl Rig {
    fn new(st: TrayState) -> Rig {
        let (engine, last) = AudioEngine::new(&st);
        Rig { engine, st, last }
    }

    fn hand(&mut self, event: EngineEvent) -> &Directive {
        assert!(self.engine.accepts(&event));
        self.last = self.engine.step(&mut self.st, event);
        &self.last
    }

    fn paused(st: TrayState) -> Rig {
        let mut rig = Rig::new(st);
        rig.hand(EngineEvent::ProcessorCreated(true));
        rig.hand(EngineEvent::ReferenceStarted(true));
        assert!(matches!(rig.last.request, Request::WaitCommand));
        rig
    }

    fn running() -> Rig {
        let mut rig = Rig::paused(state());
        rig.hand(command(EngineCommand::Resume));
        rig.hand(probed());
        rig.hand(EngineEvent::MicStarted(true));
        assert!(matches!(rig.last.request, Request::ProcessFrame));
        rig
    }

    fn awaiting() -> Rig {
        let mut rig = Rig::running();
        rig.hand(EngineEvent::FrameProcessed(true));
        rig.hand(probed());
        assert!(matches!(rig.last.request, Request::PollCommand));
        rig
    }
}

fn starts(directive: &Directive, spk: &str, out: &str, when: Occasion) -> bool {
    matches!(
        &directive.request,
        Request::StartReference { speaker, output, occasion }
            if speaker == spk && output == out && *occasion == when
    )
}

fn starts_mic(directive: &Directive, mic: &str) -> bool {
    matches!(&directive.request, Request::StartMic(id) if id == mic)
}

#[test]
fn the_engine_boots_paused() {
    let mut rig = Rig::new(state());
    assert!(matches!(rig.last.request, Request::CreateProcessor));
    assert_eq!(rig.last.pause_flag, Some(true));
    assert_eq!(rig.last.release, Release::Nothing);
    assert!(starts(rig.hand(EngineEvent::ProcessorCreated(true)), "s", "ci", Occasion::Boot));
    let waiting = rig.hand(EngineEvent::ReferenceStarted(true));
    assert!(matches!(waiting.request, Request::WaitCommand));
    assert_eq!(waiting.pause_flag, None);
}

#[test]
fn an_engine_without_devices_waits() {
    let mut rig = Rig::new(empty_state());
    assert!(matches!(
        rig.hand(EngineEvent::ProcessorCreated(true)).request,
        Request::WaitCommand
    ));
}

#[test]
fn an_engine_without_a_canceller_fails() {
    let mut rig = Rig::new(state());
    assert!(matches!(rig.hand(EngineEvent::ProcessorCreated(false)).request, Request::Fail));
    assert!(!rig.engine.accepts(&EngineEvent::Slept));
    assert!(!rig.engine.accepts(&command(EngineCommand::Resume)));
}

#[test]
fn unexpected_events_are_not_accepted() {
    let rig = Rig::new(state());
    assert!(rig.engine.accepts(&EngineEvent::ProcessorCreated(false)));
    assert!(!rig.engine.accepts(&EngineEvent::ReferenceStarted(true)));
    assert!(!rig.engine.accepts(&probed()));
    assert!(!rig.engine.accepts(&EngineEvent::DevicesListed(snapshot())));
    assert!(!rig.engine.accepts(&EngineEvent::MicStarted(true)));
    assert!(!rig.engine.accepts(&EngineEvent::NoCommand));
    assert!(!rig.engine.accepts(&EngineEvent::FrameProcessed(true)));
    assert!(!rig.engine.accepts(&EngineEvent::SilencePlayed));
}

#[test]
fn resuming_starts_the_microphone() {
    let mut rig = Rig::paused(state());
    assert!(matches!(
        rig.hand(command(EngineCommand::Resume)).request,
        Request::ProbeThreads
    ));
    assert!(starts_mic(rig.hand(probed()), "m"));
    let first = rig.hand(EngineEvent::MicStarted(true));
    assert!(matches!(first.request, Request::ProcessFrame));
    assert_eq!(first.pause_flag, Some(false));
    assert_eq!(rig.engine.frames_processed(), 0);
}

#[test]
fn frames_are_counted_since_the_resume() {
    let mut rig = Rig::awaiting();
    assert_eq!(rig.engine.frames_processed(), 1);
    rig.hand(EngineEvent::NoCommand);
    assert!(matches!(
        rig.hand(EngineEvent::FrameProcessed(false)).request,
        Request::Sleep(1)
    ));
    assert_eq!(rig.engine.frames_processed(), 1);
    assert!(matches!(rig.hand(EngineEvent::Slept).request, Request::ProbeThreads));
    rig.hand(probed());
    rig.hand(EngineEvent::NoCommand);
    rig.hand(EngineEvent::FrameProcessed(true));
    assert_eq!(rig.engine.frames_processed(), 2);
    rig.hand(probed());
    rig.hand(command(EngineCommand::Resume));
    assert_eq!(rig.engine.frames_processed(), 2);
    rig.hand(probed());
    assert_eq!(rig.engine.frames_processed(), 0);
}

#[test]
fn a_pause_releases_only_the_microphone() {
    let mut rig = Rig::awaiting();
    let paused = rig.hand(command(EngineCommand::Pause));
    assert_eq!(paused.release, Release::Mic);
    assert_eq!(paused.pause_flag, Some(true));
    assert!(matches!(paused.request, Request::WaitCommand));
    let again = rig.hand(command(EngineCommand::Pause));
    assert_eq!(again.release, Release::Nothing);
    rig.hand(command(EngineCommand::Resume));
    assert!(starts_mic(rig.hand(probed()), "m"));
    assert!(matches!(
        rig.hand(EngineEvent::MicStarted(true)).request,
        Request::ProcessFrame
    ));
}

#[test]
fn a_pause_without_a_reference_rests_first() {
    let mut rig = Rig::new(empty_state());
    rig.hand(EngineEvent::ProcessorCreated(true));
    assert!(matches!(
        rig.hand(command(EngineCommand::Pause)).request,
        Request::Sleep(100)
    ));
    assert!(matches!(rig.hand(EngineEvent::Slept).request, Request::WaitCommand));
}

#[test]
fn a_new_microphone_rebuilds_the_pipeline() {
    let mut rig = Rig::awaiting();
    let changed = rig.hand(command(EngineCommand::SetMicDevice("w".to_string())));
    assert_eq!(changed.release, Release::MicThenReference);
    assert!(starts(changed, "s", "ci", Occasion::NewMic));
    assert_eq!(rig.st.current_mic_id, some("w"));
    assert_eq!(rig.st.preferred_mic_id, some("w"));
    assert!(matches!(
        rig.hand(EngineEvent::ReferenceStarted(true)).request,
        Request::ProbeThreads
    ));
    assert!(starts_mic(rig.hand(probed()), "w"));
    assert!(matches!(
        rig.hand(EngineEvent::MicStarted(true)).request,
        Request::CreateProcessor
    ));
    let going = rig.hand(EngineEvent::ProcessorCreated(true));
    assert!(matches!(going.request, Request::ProcessFrame));
    assert_eq!(going.pause_flag, Some(false));
}

#[test]
fn a_new_speaker_rebuilds_the_pipeline() {
    let mut rig = Rig::awaiting();
    let changed = rig.hand(command(EngineCommand::SetSpeakerDevice("tv".to_string())));
    assert_eq!(changed.release, Release::MicThenReference);
    assert!(starts(changed, "tv", "ci", Occasion::NewSpeaker));
    assert_eq!(rig.st.current_speaker_id, some("tv"));
    assert_eq!(rig.st.preferred_speaker_id, some("tv"));
    assert_eq!(rig.st.preferred_mic_id, None);
}

#[test]
fn a_new_output_rebuilds_the_pipeline() {
    let mut rig = Rig::paused(state());
    let changed = rig.hand(command(EngineCommand::SetOutputDevice("tv".to_string())));
    assert_eq!(changed.release, Release::Reference);
    assert!(starts(changed, "s", "tv", Occasion::NewOutput));
    assert_eq!(rig.st.current_output_id, some("tv"));
    assert!(matches!(
        rig.hand(EngineEvent::ReferenceStarted(true)).request,
        Request::WaitCommand
    ));
}

#[test]
fn a_canceller_that_cannot_be_renewed_is_fatal() {
    let mut rig = Rig::awaiting();
    rig.hand(command(EngineCommand::SetMicDevice("w".to_string())));
    rig.hand(EngineEvent::ReferenceStarted(true));
    rig.hand(probed());
    rig.hand(EngineEvent::MicStarted(true));
    let failed = rig.hand(EngineEvent::ProcessorCreated(false));
    assert!(matches!(failed.request, Request::Fail));
    assert_eq!(failed.release, Release::Nothing);
}

#[test]
fn devices_that_turn_up_are_used() {
    let mut rig = Rig::new(empty_state());
    rig.hand(EngineEvent::ProcessorCreated(true));
    let asked = rig.hand(command(EngineCommand::RefreshDevices));
    assert!(matches!(asked.request, Request::ListDevices));
    assert_eq!(asked.release, Release::Nothing);
    assert!(starts(
        rig.hand(EngineEvent::DevicesListed(snapshot())),
        "s",
        "ci",
        Occasion::Refresh
    ));
    assert_eq!(rig.st.current_mic_id, some("m"));
    assert_eq!(rig.st.preferred_mic_id, some("m"));
    assert_eq!(rig.st.capture_devices.len(), 3);
}

#[test]
fn a_missing_reference_is_looked_for() {
    let mut rig = Rig::new(empty_state());
    rig.hand(EngineEvent::ProcessorCreated(true));
    rig.hand(command(EngineCommand::Resume));
    assert!(matches!(rig.hand(probed()).request, Request::ListDevices));
    assert!(starts(
        rig.hand(EngineEvent::DevicesListed(snapshot())),
        "s",
        "ci",
        Occasion::Rebuild
    ));
    let failed = rig.hand(EngineEvent::ReferenceStarted(false));
    assert!(matches!(failed.request, Request::Sleep(100)));
    assert_eq!(failed.pause_flag, Some(false));
    assert!(matches!(rig.hand(EngineEvent::Slept).request, Request::ProbeThreads));
}

#[test]
fn a_missing_microphone_is_looked_for() {
    let mut rig = Rig::paused(TrayState::new(vec![], render(), None, some("s"), some("ci")));
    rig.hand(command(EngineCommand::Resume));
    assert!(matches!(rig.hand(probed()).request, Request::ListDevices));
    let none = DeviceSnapshot { capture: Some(vec![]), ..snapshot() };
    assert!(matches!(
        rig.hand(EngineEvent::DevicesListed(none)).request,
        Request::PlaySilence
    ));
    assert!(matches!(rig.hand(EngineEvent::SilencePlayed).request, Request::Sleep(10)));
    rig.hand(EngineEvent::Slept);
    rig.hand(probed());
    assert!(starts_mic(rig.hand(EngineEvent::DevicesListed(snapshot())), "m"));
    assert!(matches!(
        rig.hand(EngineEvent::MicStarted(false)).request,
        Request::PollCommand
    ));
    assert!(matches!(rig.hand(EngineEvent::NoCommand).request, Request::PlaySilence));
}

#[test]
fn an_ended_reference_is_rebuilt() {
    let mut rig = Rig::awaiting();
    rig.hand(EngineEvent::NoCommand);
    rig.hand(EngineEvent::FrameProcessed(true));
    let ended = rig.hand(EngineEvent::ThreadsProbed {
        reference_finished: true,
        mic_finished: false,
    });
    assert_eq!(ended.release, Release::ReferenceThenMic);
    assert!(matches!(ended.request, Request::ListDevices));
    assert!(starts(
        rig.hand(EngineEvent::DevicesListed(snapshot())),
        "s",
        "ci",
        Occasion::Rebuild
    ));
    assert!(starts_mic(rig.hand(EngineEvent::ReferenceStarted(true)), "m"));
    assert!(matches!(
        rig.hand(EngineEvent::MicStarted(true)).request,
        Request::CreateProcessor
    ));
}

#[test]
fn an_ended_microphone_is_restarted() {
    let mut rig = Rig::awaiting();
    rig.hand(EngineEvent::NoCommand);
    rig.hand(EngineEvent::FrameProcessed(true));
    let ended = rig.hand(EngineEvent::ThreadsProbed {
        reference_finished: false,
        mic_finished: true,
    });
    assert_eq!(ended.release, Release::Mic);
    assert!(starts_mic(ended, "m"));
}

#[test]
fn a_shutdown_stops_everything() {
    let mut rig = Rig::awaiting();
    let end = rig.hand(command(EngineCommand::Shutdown));
    assert!(matches!(end.request, Request::Exit));
    assert_eq!(end.release, Release::MicThenReference);
    assert!(!rig.engine.accepts(&command(EngineCommand::Resume)));
    let mut idle = Rig::paused(state());
    assert_eq!(idle.hand(command(EngineCommand::Shutdown)).release, Release::Reference);
}

#[test]
fn the_end_of_commands_ends_a_paused_engine() {
    let mut idle = Rig::paused(state());
    let end = idle.hand(EngineEvent::Disconnected);
    assert!(matches!(end.request, Request::Exit));
    assert_eq!(end.release, Release::Nothing);
    let mut busy = Rig::awaiting();
    assert!(matches!(busy.hand(EngineEvent::Disconnected).request, Request::ProcessFrame));
}

#[test]
fn a_wanted_device_is_waited_for() {
    let mut rig = Rig::awaiting();
    rig.hand(command(EngineCommand::SetMicDevice("usb".to_string())));
    rig.hand(EngineEvent::ReferenceStarted(true));
    rig.hand(probed());
    rig.hand(EngineEvent::MicStarted(false));
    rig.hand(EngineEvent::SilencePlayed);
    rig.hand(EngineEvent::Slept);
    rig.hand(probed());
    rig.hand(EngineEvent::MicStarted(false));
    rig.hand(command(EngineCommand::RefreshDevices));
    rig.hand(EngineEvent::DevicesListed(snapshot()));
    assert_eq!(rig.st.current_mic_id, None);
    assert_eq!(rig.st.preferred_mic_id, some("usb"));
    let mut back = snapshot();
    back.capture = Some(vec![device("USB", "usb")]);
    rig.hand(EngineEvent::ReferenceStarted(true));
    rig.hand(probed());
    assert!(starts_mic(rig.hand(EngineEvent::DevicesListed(back)), "usb"));
    assert_eq!(rig.st.current_mic_id, some("usb"));
}

#[test]
fn microphones_are_chosen_unasked() {
    assert_eq!(auto_mic_id(&capture()), some("m"));
    assert_eq!(auto_mic_id(&capture()[2..]), some("w"));
    assert_eq!(auto_mic_id(&capture()[..1]), None);
    assert_eq!(auto_mic_id(&[]), None);
}

#[test]
fn speakers_and_outputs_are_chosen_unasked() {
    assert_eq!(auto_speaker_id(&render(), &some("tv")), some("tv"));
    assert_eq!(auto_speaker_id(&render(), &some("ci")), some("s"));
    assert_eq!(auto_speaker_id(&[], &some("s")), None);
    assert_eq!(auto_output_id(&render()), some("ci"));
    assert_eq!(auto_output_id(&render()[1..]), None);
}

#[test]
fn a_look_keeps_devices_in_use() {
    let mut st = empty_state();
    let ids = DeviceIds { mic: some("m"), speaker: some("tv"), output: some("gone") };
    let new = refresh_devices_preserving(&mut st, snapshot(), &ids);
    assert_eq!((&new.mic, &new.speaker, &new.output), (&some("m"), &some("tv"), &some("ci")));
    assert_eq!(st.preferred_mic_id, some("m"));
    assert_eq!(st.preferred_speaker_id, some("tv"));
    assert_eq!(st.preferred_output_id, some("ci"));
    assert_eq!(st.current_output_id, some("ci"));
}

#[test]
fn lists_that_cannot_be_read_stay_as_they_were() {
    let mut st = state();
    let blind = DeviceSnapshot {
        capture: None,
        render: None,
        default_render: None,
    };
    let ids = DeviceIds { mic: None, speaker: some("s"), output: None };
    let new = refresh_devices_preserving(&mut st, blind, &ids);
    assert_eq!((new.mic, new.speaker, new.output), (some("m"), some("s"), some("ci")));
    assert_eq!(st.capture_devices.len(), 3);
}

#[test]
fn a_second_look_changes_nothing() {
    let mut st = empty_state();
    let none = DeviceIds { mic: None, speaker: None, output: None };
    let once = refresh_devices_preserving(&mut st, snapshot(), &none);
    let twice = refresh_devices_preserving(&mut st, snapshot(), &once);
    assert_eq!(
        (once.mic, once.speaker, once.output),
        (twice.mic, twice.speaker, twice.output)
    );
    assert_eq!(st.preferred_mic_id, some("m"));
}
