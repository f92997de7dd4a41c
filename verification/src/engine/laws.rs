//! What holds of the engine over all its steps.
use crate::audio::device::{
    cable_name, first_real_id, first_where_at, first_where_is_first, found_is_listed, has_id,
    listed, name_holds, real_device, the_first_match_is_found, the_first_real_device_is_chosen,
    DeviceInfo,
};
use crate::engine::refresh::{
    auto_speaker, capture_list, refreshed_ids, refreshed_tray, render_list,
    IdsView, SnapshotView,
};
use crate::engine::{
    accepted, initial, next_step, After, CommandView, EngineView, EventView, Occasion, Phase,
    Release, RequestView, Step, Then,
};
use crate::tray::TrayView;
use vstd::prelude::*;

verus! {

/// The invariant of the engine. The microphone runs only beside the reference
/// pipeline, with an echo canceller, and never while the engine is paused; a
/// paused engine has the pause flag raised.
pub open spec fn valid(e: EngineView) -> bool {
    &&& e.capturing ==> e.reference && !e.paused
    &&& e.capturing ==> e.processor || e.phase is NewProcessor || e.phase is Stopped
    &&& e.paused ==> e.flag
    &&& match e.phase {
        Phase::BootProcessor => e.paused && !e.reference,
        Phase::StartingReference(then) => {
            &&& !e.reference
            &&& then is Loop ==> e.paused
            &&& then is Mic ==> !e.paused
        },
        Phase::Probing(_) => !e.paused,
        Phase::ListingForReference(_) => !e.paused && !e.reference,
        Phase::ListingForMic(_) => !e.paused && e.reference && !e.capturing && e.ids.mic is None,
        Phase::ListingForRefresh => !e.reference,
        Phase::StartingMic(_) => !e.paused && e.reference && !e.capturing,
        Phase::NewProcessor(_) => e.capturing && !e.processor,
        Phase::AwaitingCommand => e.flag == e.paused,
        Phase::Sleeping => true,
        Phase::Framing => e.capturing && !e.flag,
        Phase::Silencing => e.reference && !e.capturing && !e.paused && !e.flag,
        Phase::Stopped => true,
    }
}

/// The engine starts valid, and every step keeps it valid, whatever the request
/// brought.
pub proof fn steps_keep_the_engine_valid(e: EngineView, t: TrayView, event: EventView)
    requires
        accepted(e.phase, event),
    ensures
        valid(initial(t)),
        valid(e) ==> valid(next_step(e, t, event).engine),
{
}

/// The events come one after another, each one that the engine then waits for.
pub open spec fn possible(e: EngineView, t: TrayView, events: Seq<EventView>) -> bool
    decreases events.len(),
{
    events.len() > 0 ==> {
        let step = next_step(e, t, events[0]);
        accepted(e.phase, events[0]) && possible(step.engine, step.tray, events.drop_first())
    }
}

/// The engine and the shared state after events.
pub open spec fn after_events(e: EngineView, t: TrayView, events: Seq<EventView>) -> (
    EngineView,
    TrayView,
)
    decreases events.len(),
{
    if events.len() == 0 {
        (e, t)
    } else {
        let step = next_step(e, t, events[0]);
        after_events(step.engine, step.tray, events.drop_first())
    }
}

/// The engine works with the devices that the shared state shows as in use.
pub open spec fn in_step(e: EngineView, t: TrayView) -> bool {
    &&& e.ids.mic == t.current_mic
    &&& e.ids.speaker == t.current_speaker
    &&& e.ids.output == t.current_output
}

/// Whatever happens, an engine that is valid and in step with the shared state
/// stays so; an engine that has just been started is both.
pub proof fn reachable_states_are_valid(e: EngineView, t: TrayView, events: Seq<EventView>)
    requires
        e == initial(t) || valid(e) && in_step(e, t),
        possible(e, t, events),
    ensures
        valid(after_events(e, t, events).0),
        in_step(after_events(e, t, events).0, after_events(e, t, events).1),
    decreases events.len(),
{
    if events.len() > 0 {
        let step = next_step(e, t, events[0]);
        steps_keep_the_engine_valid(e, t, events[0]);
        assert(in_step(step.engine, step.tray));
        reachable_states_are_valid(step.engine, step.tray, events.drop_first());
    }
}

/// The event can answer the request.
pub open spec fn answers(request: RequestView, event: EventView) -> bool {
    match request {
        RequestView::CreateProcessor => event is ProcessorCreated,
        RequestView::StartReference { .. } => event is ReferenceStarted,
        RequestView::ProbeThreads => event is ThreadsProbed,
        RequestView::ListDevices => event is DevicesListed,
        RequestView::StartMic(_) => event is MicStarted,
        RequestView::WaitCommand | RequestView::PollCommand => event is Command || event
            is NoCommand || event is Disconnected,
        RequestView::Sleep(_) => event is Slept,
        RequestView::ProcessFrame => event is FrameProcessed,
        RequestView::PlaySilence => event is SilencePlayed,
        RequestView::Exit | RequestView::Fail => false,
    }
}

/// The engine waits for just the events that can answer its request; after the
/// request to end it waits for none.
#[verifier::rlimit(30)]
pub proof fn every_answer_is_accepted(
    e: EngineView,
    t: TrayView,
    event: EventView,
    answer: EventView,
)
    requires
        valid(e),
        accepted(e.phase, event),
    ensures
        accepted(initial(t).phase, answer) == answers(RequestView::CreateProcessor, answer),
        accepted(next_step(e, t, event).engine.phase, answer) == answers(
            next_step(e, t, event).directive.request,
            answer,
        ),
{
}

/// Stopping these threads stops the microphone.
pub open spec fn stops_mic(release: Release) -> bool {
    release is Mic || release is MicThenReference || release is ReferenceThenMic
}

/// Stopping these threads stops the reference pipeline.
pub open spec fn stops_reference(release: Release) -> bool {
    release is Reference || release is MicThenReference || release is ReferenceThenMic
}

/// No thread is lost and none is stopped twice: what ran before a step runs on
/// unless the step stops it, what did not run starts only where a start was
/// reported, and only what ran is stopped.
pub proof fn threads_are_accounted_for(e: EngineView, t: TrayView, event: EventView)
    requires
        valid(e),
        accepted(e.phase, event),
    ensures
        ({
            let step = next_step(e, t, event);
            let release = step.directive.release;
            &&& step.engine.capturing == (event == EventView::MicStarted(true) || e.capturing
                && !stops_mic(release))
            &&& step.engine.reference == (event == EventView::ReferenceStarted(true)
                || e.reference && !stops_reference(release))
            &&& stops_mic(release) ==> e.capturing
            &&& stops_reference(release) ==> e.reference
        }),
{
}

/// The pause flag that the audio threads see is the engine's own: a step that
/// names a value sets it, and any other leaves it.
pub proof fn the_pause_flag_is_told(e: EngineView, t: TrayView, event: EventView)
    requires
        valid(e),
        accepted(e.phase, event),
    ensures
        next_step(e, t, event).engine.flag == match next_step(e, t, event).directive.pause_flag {
            Some(raised) => raised,
            None => e.flag,
        },
{
}

/// A frame is processed only with microphone, reference pipeline and echo
/// canceller all there, and with the engine not paused; silence is put out only
/// with the reference pipeline there and no microphone.
pub proof fn frames_need_everything(e: EngineView, t: TrayView, event: EventView)
    requires
        valid(e),
        accepted(e.phase, event),
    ensures
        ({
            let step = next_step(e, t, event);
            let after = step.engine;
            &&& step.directive.request is ProcessFrame ==> after.capturing && after.reference
                && after.processor && !after.paused && !after.flag
            &&& step.directive.request is PlaySilence ==> !after.capturing && after.reference
                && !after.paused && !after.flag
        }),
{
}

/// A pause releases the microphone and raises the flag; the reference pipeline,
/// the echo canceller and the devices stay as they are.
pub proof fn pause_releases_only_the_microphone(e: EngineView, t: TrayView)
    requires
        valid(e),
        e.phase is AwaitingCommand,
    ensures
        ({
            let step = next_step(e, t, EventView::Command(CommandView::Pause));
            &&& step.engine.paused && step.engine.flag && !step.engine.capturing
            &&& step.engine.reference == e.reference
            &&& step.engine.processor == e.processor
            &&& step.engine.ids == e.ids
            &&& step.tray == t
            &&& step.directive.release == if e.capturing {
                Release::Mic
            } else {
                Release::Nothing
            }
            &&& step.directive.pause_flag == Some(true)
        }),
{
}

/// Pausing and resuming restarts the microphone alone: with everything running,
/// a pause, a resume and a look at the threads that finds none ended lead to
/// the start of the same microphone, and from there straight to the next frame,
/// the first since the resume, with the same reference pipeline and the same
/// echo canceller.
pub proof fn resume_restarts_only_the_microphone(e: EngineView, t: TrayView, mic: Seq<char>)
    requires
        valid(e),
        e.phase is AwaitingCommand,
        e.capturing,
        e.ids.mic == Some(mic),
    ensures
        ({
            let paused = next_step(e, t, EventView::Command(CommandView::Pause));
            let resumed = next_step(
                paused.engine,
                paused.tray,
                EventView::Command(CommandView::Resume),
            );
            let probed = next_step(
                resumed.engine,
                resumed.tray,
                EventView::ThreadsProbed { reference_finished: false, mic_finished: false },
            );
            let started = next_step(probed.engine, probed.tray, EventView::MicStarted(true));
            &&& paused.directive.request is WaitCommand
            &&& resumed.directive.request is ProbeThreads
            &&& resumed.directive.release is Nothing
            &&& probed.directive.request == RequestView::StartMic(mic)
            &&& probed.directive.release is Nothing
            &&& started.directive.request is ProcessFrame
            &&& started.directive.release is Nothing
            &&& started.directive.pause_flag == Some(false)
            &&& started.engine == (EngineView { frames: 0, phase: Phase::Framing, ..e })
            &&& started.tray == t
        }),
{
}

/// The whole pipeline is rebuilt on these devices: everything that ran is
/// stopped, the echo canceller with it, and the reference pipeline is asked for
/// at once.
pub open spec fn rebuilds(e: EngineView, step: Step, ids: IdsView, occasion: Occasion) -> bool {
    &&& stops_mic(step.directive.release) == e.capturing
    &&& stops_reference(step.directive.release) == e.reference
    &&& !step.engine.capturing && !step.engine.reference && !step.engine.processor
    &&& step.engine.ids == ids
    &&& step.engine.paused == e.paused
    &&& ids.speaker is Some && ids.output is Some ==> step.directive.request
        == (RequestView::StartReference {
        speaker: ids.speaker->0,
        output: ids.output->0,
        occasion,
    })
}

/// A change of device takes effect at once: the whole pipeline is rebuilt with
/// the new device.
pub proof fn device_changes_rebuild_the_pipeline(e: EngineView, t: TrayView, id: Seq<char>)
    requires
        valid(e),
        e.phase is AwaitingCommand,
    ensures
        rebuilds(
            e,
            next_step(e, t, EventView::Command(CommandView::SetMicDevice(id))),
            IdsView { mic: Some(id), ..e.ids },
            Occasion::NewMic,
        ),
        rebuilds(
            e,
            next_step(e, t, EventView::Command(CommandView::SetSpeakerDevice(id))),
            IdsView { speaker: Some(id), ..e.ids },
            Occasion::NewSpeaker,
        ),
        rebuilds(
            e,
            next_step(e, t, EventView::Command(CommandView::SetOutputDevice(id))),
            IdsView { output: Some(id), ..e.ids },
            Occasion::NewOutput,
        ),
{
}

/// Devices that turn up are put to use: after a command to refresh, a look that
/// finds a speaker and an output to use leads straight to the start of the
/// reference pipeline on them.
pub proof fn devices_that_turn_up_are_used(e: EngineView, t: TrayView, s: SnapshotView)
    requires
        valid(e),
        e.phase is AwaitingCommand,
    ensures
        ({
            let asked = next_step(e, t, EventView::Command(CommandView::RefreshDevices));
            let looked = next_step(asked.engine, asked.tray, EventView::DevicesListed(s));
            let ids = refreshed_ids(t, s, e.ids);
            &&& asked.directive.request is ListDevices
            &&& stops_mic(asked.directive.release) == e.capturing
            &&& stops_reference(asked.directive.release) == e.reference
            &&& looked.engine.ids == ids
            &&& ids.speaker is Some && ids.output is Some ==> looked.directive.request
                == (RequestView::StartReference {
                speaker: ids.speaker->0,
                output: ids.output->0,
                occasion: Occasion::Refresh,
            })
        }),
{
}

/// A reference pipeline that has just been started is followed by the
/// microphone: with the engine not paused and a microphone known, a look at the
/// threads that finds none ended leads to the start of that microphone.
pub proof fn the_microphone_follows_the_reference(e: EngineView, t: TrayView, mic: Seq<char>)
    requires
        valid(e),
        e.phase == Phase::StartingReference(Then::Run),
        !e.paused,
        e.ids.mic == Some(mic),
    ensures
        ({
            let started = next_step(e, t, EventView::ReferenceStarted(true));
            let probed = next_step(
                started.engine,
                started.tray,
                EventView::ThreadsProbed { reference_finished: false, mic_finished: false },
            );
            &&& started.directive.request is ProbeThreads
            &&& probed.directive.request == RequestView::StartMic(mic)
        }),
{
}

/// A command to shut down stops what runs and ends the engine.
pub proof fn shutdown_stops_everything(e: EngineView, t: TrayView)
    requires
        valid(e),
        e.phase is AwaitingCommand,
    ensures
        ({
            let step = next_step(e, t, EventView::Command(CommandView::Shutdown));
            &&& step.directive.request is Exit
            &&& stops_mic(step.directive.release) == e.capturing
            &&& stops_reference(step.directive.release) == e.reference
            &&& forall|answer: EventView| !accepted(step.engine.phase, answer)
        }),
{
}

/// While the engine is paused no frame is processed, no silence is put out and
/// no microphone is started: a paused engine that is handed anything but a
/// command to resume stays paused and asks for none of these.
pub proof fn a_paused_engine_stays_quiet(e: EngineView, t: TrayView, event: EventView)
    requires
        valid(e),
        accepted(e.phase, event),
        e.paused,
        event != EventView::Command(CommandView::Resume),
    ensures
        ({
            let step = next_step(e, t, event);
            &&& step.engine.paused && step.engine.flag && !step.engine.capturing
            &&& !(step.directive.request is ProcessFrame)
            &&& !(step.directive.request is PlaySilence)
            &&& !(step.directive.request is StartMic)
        }),
{
}

/// Only commands pause and resume: a pause pauses, a resume resumes, and nothing
/// else changes whether the engine is paused.
pub proof fn only_commands_pause_and_resume(e: EngineView, t: TrayView, event: EventView)
    requires
        accepted(e.phase, event),
    ensures
        next_step(e, t, event).engine.paused == match event {
            EventView::Command(CommandView::Pause) => true,
            EventView::Command(CommandView::Resume) => false,
            _ => e.paused,
        },
{
}

/// The counter of frames goes up by one for each frame that was processed, goes
/// back to zero where a resume is complete, and stands still otherwise.
pub proof fn frames_are_counted(e: EngineView, t: TrayView, event: EventView)
    requires
        valid(e),
        accepted(e.phase, event),
    ensures
        ({
            let after = next_step(e, t, event).engine;
            if event == EventView::FrameProcessed(true) {
                after.frames == if e.frames == u64::MAX {
                    0
                } else {
                    e.frames + 1
                }
            } else if after.frames != e.frames {
                &&& after.frames == 0
                &&& e.phase == Phase::Probing(After::Resumed) || e.phase
                    == Phase::StartingReference(Then::Mic(After::Resumed)) || e.phase
                    == Phase::ListingForReference(After::Resumed) || e.phase
                    == Phase::ListingForMic(After::Resumed) || e.phase == Phase::StartingMic(
                    After::Resumed,
                ) || e.phase == Phase::NewProcessor(After::Resumed)
            } else {
                true
            }
        }),
{
}

/// What the user once chose stays the wanted device until the user chooses
/// another: no step but the command for that device changes it.
pub proof fn wanted_devices_stay_wanted(e: EngineView, t: TrayView, event: EventView)
    requires
        accepted(e.phase, event),
    ensures
        ({
            let after = next_step(e, t, event).tray;
            &&& match event {
                EventView::Command(CommandView::SetMicDevice(id)) => after.preferred_mic == Some(
                    id,
                ),
                _ => t.preferred_mic is Some ==> after.preferred_mic == t.preferred_mic,
            }
            &&& match event {
                EventView::Command(CommandView::SetSpeakerDevice(id)) => after.preferred_speaker
                    == Some(id),
                _ => t.preferred_speaker is Some ==> after.preferred_speaker
                    == t.preferred_speaker,
            }
            &&& match event {
                EventView::Command(CommandView::SetOutputDevice(id)) => after.preferred_output
                    == Some(id),
                _ => t.preferred_output is Some ==> after.preferred_output == t.preferred_output,
            }
        }),
{
}

/// While the wanted device is away it is not replaced, and when it is back it
/// is used again: after a look at the devices the wanted one is used exactly
/// where it is listed, and otherwise none.
pub proof fn wanted_devices_are_waited_for(t: TrayView, s: SnapshotView, ids: IdsView)
    ensures
        t.preferred_mic matches Some(id) ==> refreshed_ids(t, s, ids).mic == if listed(
            capture_list(t, s),
            id,
        ) {
            Some(id)
        } else {
            None
        },
        t.preferred_speaker matches Some(id) ==> refreshed_ids(t, s, ids).speaker == if listed(
            render_list(t, s),
            id,
        ) {
            Some(id)
        } else {
            None
        },
        t.preferred_output matches Some(id) ==> refreshed_ids(t, s, ids).output == if listed(
            render_list(t, s),
            id,
        ) {
            Some(id)
        } else {
            None
        },
{
}

/// A speaker that is chosen unasked stands in the list.
proof fn auto_speaker_is_listed(devices: Seq<DeviceInfo>, default: Option<Seq<char>>)
    ensures
        auto_speaker(devices, default) matches Some(id) ==> listed(devices, id),
{
    found_is_listed(devices, real_device());
    if let Some(id) = default {
        found_is_listed(devices, has_id(id));
        first_where_is_first(devices, has_id(id));
    }
}

/// Every device that the engine uses after a look at the devices stands in the
/// list that the shared state then shows.
pub proof fn refreshed_devices_are_listed(t: TrayView, s: SnapshotView, ids: IdsView)
    ensures
        ({
            let after = refreshed_tray(t, s, ids);
            &&& after.current_mic matches Some(id) ==> listed(after.capture, id)
            &&& after.current_speaker matches Some(id) ==> listed(after.render, id)
            &&& after.current_output matches Some(id) ==> listed(after.render, id)
        }),
{
    let capture = capture_list(t, s);
    let render = render_list(t, s);
    found_is_listed(capture, real_device());
    auto_speaker_is_listed(render, s.default_render);
    found_is_listed(render, name_holds("cable input"@));
}

/// A speaker that is chosen unasked is no virtual cable, and one is chosen
/// wherever the list holds a device that is none.
pub proof fn unasked_speaker_is_no_cable(devices: Seq<DeviceInfo>, default: Option<Seq<char>>)
    ensures
        match auto_speaker(devices, default) {
            Some(id) => exists|i: int|
                0 <= i < devices.len() && (#[trigger] devices[i]).id@ == id && !cable_name(
                    devices[i].name@,
                ),
            None => forall|i: int|
                0 <= i < devices.len() ==> cable_name((#[trigger] devices[i]).name@),
        },
{
    first_where_is_first(devices, real_device());
    if let Some(id) = default {
        first_where_is_first(devices, has_id(id));
    }
}

/// With nothing wanted and nothing in use, a look at the devices chooses the
/// first microphone that is no virtual cable, whatever the system's default is.
pub proof fn the_first_real_microphone_is_used(t: TrayView, s: SnapshotView, ids: IdsView)
    requires
        t.preferred_mic is None,
        ids.mic is None,
    ensures
        refreshed_ids(t, s, ids).mic == first_real_id(capture_list(t, s)),
{
}

/// A second look that finds the devices as the first one did changes nothing.
pub proof fn refreshing_twice_changes_nothing(t: TrayView, s: SnapshotView, ids: IdsView)
    ensures
        ({
            let once = refreshed_tray(t, s, ids);
            let used = refreshed_ids(t, s, ids);
            &&& refreshed_ids(once, s, used) == used
            &&& refreshed_tray(once, s, used) == once
        }),
{
    refreshed_devices_are_listed(t, s, ids);
}

/// A device in use that is still listed stays in use where none is wanted: no
/// look at the devices moves the engine to another microphone, speaker or output
/// by itself.
pub proof fn devices_in_use_stay_in_use(
    t: TrayView,
    s: SnapshotView,
    ids: IdsView,
    id: Seq<char>,
    i: int,
)
    ensures
        ({
            let capture = match s.capture {
                Some(list) => list,
                None => t.capture,
            };
            let render = match s.render {
                Some(list) => list,
                None => t.render,
            };
            let new = refreshed_ids(t, s, ids);
            &&& t.preferred_mic is None && ids.mic == Some(id) && 0 <= i < capture.len()
                && capture[i].id@ == id ==> new.mic == Some(id)
            &&& t.preferred_speaker is None && ids.speaker == Some(id) && 0 <= i < render.len()
                && render[i].id@ == id ==> new.speaker == Some(id)
            &&& t.preferred_output is None && ids.output == Some(id) && 0 <= i < render.len()
                && render[i].id@ == id ==> new.output == Some(id)
        }),
{
}

/// The device in question, if any, is not in the list.
pub open spec fn gone(current: Option<Seq<char>>, devices: Seq<DeviceInfo>) -> bool {
    forall|j: int| 0 <= j < devices.len() ==> current != Some((#[trigger] devices[j]).id@)
}

/// A device is gone from a list exactly where it is not listed there.
proof fn gone_is_not_listed(current: Option<Seq<char>>, devices: Seq<DeviceInfo>)
    ensures
        current matches Some(id) ==> gone(current, devices) == !listed(devices, id),
{
    if let Some(id) = current {
        if listed(devices, id) {
            let k = choose|k: int| 0 <= k < devices.len() && (#[trigger] devices[k]).id@ == id;
            assert(current == Some(devices[k].id@));
        } else {
            assert forall|j: int| 0 <= j < devices.len() implies current != Some(
                (#[trigger] devices[j]).id@,
            ) by {}
        }
    }
}

/// This is the list after a look: what the look found, or the one before where it
/// could not be read.
pub open spec fn now_listed(
    devices: Seq<DeviceInfo>,
    found: Option<Seq<DeviceInfo>>,
    before: Seq<DeviceInfo>,
) -> bool {
    found == Some(devices) || found is None && before == devices
}

/// A wanted device is used where it is listed, whatever is in use, and none is
/// used in its place where it is not.
pub proof fn wanted_devices_come_first(
    t: TrayView,
    s: SnapshotView,
    ids: IdsView,
    devices: Seq<DeviceInfo>,
    id: Seq<char>,
    i: int,
)
    ensures
        ({
            let new = refreshed_ids(t, s, ids);
            let capture = now_listed(devices, s.capture, t.capture);
            let render = now_listed(devices, s.render, t.render);
            let here = 0 <= i < devices.len() && devices[i].id@ == id;
            &&& t.preferred_mic == Some(id) && capture && here ==> new.mic == Some(id)
            &&& t.preferred_mic == Some(id) && capture && gone(Some(id), devices)
                ==> new.mic is None
            &&& t.preferred_speaker == Some(id) && render && here ==> new.speaker == Some(id)
            &&& t.preferred_speaker == Some(id) && render && gone(Some(id), devices)
                ==> new.speaker is None
            &&& t.preferred_output == Some(id) && render && here ==> new.output == Some(id)
            &&& t.preferred_output == Some(id) && render && gone(Some(id), devices)
                ==> new.output is None
        }),
{
    gone_is_not_listed(Some(id), devices);
}

/// Where no microphone is wanted and the one in use is gone or there is none, the
/// first that is no virtual cable is used, and none where all are cables.
pub proof fn a_microphone_is_chosen_unasked(
    t: TrayView,
    s: SnapshotView,
    ids: IdsView,
    capture: Seq<DeviceInfo>,
    i: int,
)
    requires
        t.preferred_mic is None,
        now_listed(capture, s.capture, t.capture),
        gone(ids.mic, capture),
    ensures
        0 <= i < capture.len() && !cable_name(capture[i].name@) && (forall|j: int|
            0 <= j < i ==> cable_name((#[trigger] capture[j]).name@)) ==> refreshed_ids(
            t,
            s,
            ids,
        ).mic == Some(capture[i].id@),
        (forall|j: int| 0 <= j < capture.len() ==> cable_name((#[trigger] capture[j]).name@))
            ==> refreshed_ids(t, s, ids).mic is None,
{
    gone_is_not_listed(ids.mic, capture);
    the_first_real_device_is_chosen(capture, i);
}

/// The speaker that a look at the devices leads to where none is wanted and the one
/// in use is gone.
proof fn speakers_are_chosen_from_the_list(
    t: TrayView,
    s: SnapshotView,
    ids: IdsView,
    render: Seq<DeviceInfo>,
)
    requires
        t.preferred_speaker is None,
        now_listed(render, s.render, t.render),
        gone(ids.speaker, render),
    ensures
        refreshed_ids(t, s, ids).speaker == auto_speaker(render, s.default_render),
{
    gone_is_not_listed(ids.speaker, render);
}

/// Where no speaker is wanted and the one in use is gone or there is none, the
/// system's default is used where it is listed and no virtual cable.
pub proof fn the_default_speaker_is_used_unasked(
    t: TrayView,
    s: SnapshotView,
    ids: IdsView,
    render: Seq<DeviceInfo>,
    i: int,
)
    requires
        t.preferred_speaker is None,
        now_listed(render, s.render, t.render),
        gone(ids.speaker, render),
        0 <= i < render.len(),
        s.default_render == Some(render[i].id@),
        forall|j: int| 0 <= j < i ==> (#[trigger] render[j]).id@ != render[i].id@,
        !cable_name(render[i].name@),
    ensures
        refreshed_ids(t, s, ids).speaker == Some(render[i].id@),
{
    speakers_are_chosen_from_the_list(t, s, ids, render);
    first_where_at(render, has_id(render[i].id@), Some(i));
}

/// Where no speaker is wanted, the one in use is gone or there is none, and the
/// system's default is not listed or a virtual cable, the first speaker that is no
/// virtual cable is used, and none where all are cables.
pub proof fn the_first_real_speaker_is_used_unasked(
    t: TrayView,
    s: SnapshotView,
    ids: IdsView,
    render: Seq<DeviceInfo>,
    d: int,
    i: int,
)
    requires
        t.preferred_speaker is None,
        now_listed(render, s.render, t.render),
        gone(ids.speaker, render),
        gone(s.default_render, render) || {
            &&& 0 <= d < render.len()
            &&& s.default_render == Some(render[d].id@)
            &&& forall|j: int| 0 <= j < d ==> (#[trigger] render[j]).id@ != render[d].id@
            &&& cable_name(render[d].name@)
        },
    ensures
        0 <= i < render.len() && !cable_name(render[i].name@) && (forall|j: int|
            0 <= j < i ==> cable_name((#[trigger] render[j]).name@)) ==> refreshed_ids(
            t,
            s,
            ids,
        ).speaker == Some(render[i].id@),
        (forall|j: int| 0 <= j < render.len() ==> cable_name((#[trigger] render[j]).name@))
            ==> refreshed_ids(t, s, ids).speaker is None,
{
    speakers_are_chosen_from_the_list(t, s, ids, render);
    the_first_real_device_is_chosen(render, i);
    if let Some(id) = s.default_render {
        if gone(s.default_render, render) {
            first_where_at(render, has_id(id), None);
        } else {
            first_where_at(render, has_id(id), Some(d));
        }
    }
}

/// Where no output is wanted and the one in use is gone or there is none, the
/// first device with "cable input" in its name is used, and none where no name
/// holds it.
pub proof fn an_output_is_chosen_unasked(
    t: TrayView,
    s: SnapshotView,
    ids: IdsView,
    render: Seq<DeviceInfo>,
    i: int,
)
    requires
        t.preferred_output is None,
        now_listed(render, s.render, t.render),
        gone(ids.output, render),
    ensures
        0 <= i < render.len() && name_holds("cable input"@)(render[i]) && (forall|j: int|
            0 <= j < i ==> !name_holds("cable input"@)(#[trigger] render[j])) ==> refreshed_ids(
            t,
            s,
            ids,
        ).output == Some(render[i].id@),
        (forall|j: int|
            0 <= j < render.len() ==> !name_holds("cable input"@)(#[trigger] render[j]))
            ==> refreshed_ids(t, s, ids).output is None,
{
    gone_is_not_listed(ids.output, render);
    the_first_match_is_found(render, "cable input"@, i);
}

/// After a look at the devices the shared state shows the lists that could be
/// read, and those before else; the devices to use as the ones in use; and as
/// wanted what was wanted before, or else what is used now.
pub proof fn the_shared_state_follows(t: TrayView, s: SnapshotView, ids: IdsView)
    ensures
        ({
            let new = refreshed_ids(t, s, ids);
            let after = refreshed_tray(t, s, ids);
            &&& after.capture == match s.capture {
                Some(list) => list,
                None => t.capture,
            }
            &&& after.render == match s.render {
                Some(list) => list,
                None => t.render,
            }
            &&& after.current_mic == new.mic
            &&& after.current_speaker == new.speaker
            &&& after.current_output == new.output
            &&& after.preferred_mic == if t.preferred_mic is Some {
                t.preferred_mic
            } else {
                new.mic
            }
            &&& after.preferred_speaker == if t.preferred_speaker is Some {
                t.preferred_speaker
            } else {
                new.speaker
            }
            &&& after.preferred_output == if t.preferred_output is Some {
                t.preferred_output
            } else {
                new.output
            }
        }),
{
}

} // verus!
