//! What each step of the engine leads to, phase by phase: the whole state, the
//! threads that are stopped, the pause flag and the next request.
use crate::engine::laws::valid;
use crate::engine::refresh::{
    refreshed_ids, refreshed_tray, DeviceSnapshot, IdsView, SnapshotView,
};
use crate::engine::{
    initial, next_step, After, CommandView, Directive, DirectiveView, EngineCommand, EngineEvent,
    EngineView, EventView, Occasion, Phase, Release, Request, RequestView, Step, Then,
};
use crate::tray::TrayView;
use vstd::prelude::*;

verus! {

/// The step leads to this state and this shared state, and asks for this.
pub open spec fn leads_to(
    step: Step,
    e: EngineView,
    t: TrayView,
    pause_flag: Option<bool>,
    release: Release,
    request: RequestView,
) -> bool {
    &&& step.engine == e
    &&& step.tray == t
    &&& step.directive == (DirectiveView { pause_flag, release, request })
}

/// The step ends the check of what should run: the pause flag falls, and the
/// engine takes a command, or, where it was checking on a command, goes on with
/// the audio.
pub open spec fn carries_on(
    step: Step,
    e: EngineView,
    t: TrayView,
    after: After,
    release: Release,
) -> bool {
    let lowered = EngineView { flag: false, ..e };
    let counted = if after == After::Resumed {
        EngineView { frames: 0, ..lowered }
    } else {
        lowered
    };
    if after == After::Command {
        leads_to(
            step,
            EngineView { phase: Phase::AwaitingCommand, ..lowered },
            t,
            Some(false),
            release,
            RequestView::PollCommand,
        )
    } else if !e.reference {
        leads_to(
            step,
            EngineView { phase: Phase::Sleeping, ..counted },
            t,
            Some(false),
            release,
            RequestView::Sleep(100),
        )
    } else if e.capturing {
        leads_to(
            step,
            EngineView { phase: Phase::Framing, ..counted },
            t,
            Some(false),
            release,
            RequestView::ProcessFrame,
        )
    } else {
        leads_to(
            step,
            EngineView { phase: Phase::Silencing, ..counted },
            t,
            Some(false),
            release,
            RequestView::PlaySilence,
        )
    }
}

/// The step asks for the microphone that is known, or else for the devices.
pub open spec fn asks_for_the_mic(
    step: Step,
    e: EngineView,
    t: TrayView,
    after: After,
    release: Release,
) -> bool {
    match e.ids.mic {
        Some(mic) => leads_to(
            step,
            EngineView { phase: Phase::StartingMic(after), ..e },
            t,
            None,
            release,
            RequestView::StartMic(mic),
        ),
        None => leads_to(
            step,
            EngineView { phase: Phase::ListingForMic(after), ..e },
            t,
            None,
            release,
            RequestView::ListDevices,
        ),
    }
}

/// The step asks for the reference pipeline on the devices that are known.
pub open spec fn asks_for_the_reference(
    step: Step,
    e: EngineView,
    t: TrayView,
    then: Then,
    release: Release,
    occasion: Occasion,
) -> bool {
    &&& e.ids.speaker is Some
    &&& e.ids.output is Some
    &&& leads_to(
        step,
        EngineView { phase: Phase::StartingReference(then), ..e },
        t,
        None,
        release,
        RequestView::StartReference { speaker: e.ids.speaker->0, output: e.ids.output->0, occasion },
    )
}

/// The step goes on after a command that has left the engine without a reference
/// pipeline: a paused engine rests, another checks what should run.
pub open spec fn goes_on_without(
    step: Step,
    e: EngineView,
    t: TrayView,
    release: Release,
) -> bool {
    if e.paused {
        leads_to(
            step,
            EngineView { phase: Phase::Sleeping, ..e },
            t,
            None,
            release,
            RequestView::Sleep(100),
        )
    } else {
        leads_to(
            step,
            EngineView { phase: Phase::Probing(After::Audio), ..e },
            t,
            None,
            release,
            RequestView::ProbeThreads,
        )
    }
}

/// The engine starts with the devices in use, paused, with nothing running.
pub proof fn the_engine_starts_paused(t: TrayView)
    ensures
        ({
            let e = initial(t);
            &&& e.ids.mic == t.current_mic
            &&& e.ids.speaker == t.current_speaker
            &&& e.ids.output == t.current_output
            &&& e.paused && e.flag
            &&& !e.reference && !e.capturing && !e.processor
            &&& e.frames == 0
            &&& e.phase is BootProcessor
        }),
{
}

/// After every frame attempt, every frame of silence and every rest, the engine
/// looks at its threads and then for a command before it asks for another frame;
/// a frame that was processed is counted, one that was not there is waited for.
pub proof fn commands_are_heard_between_frames(e: EngineView, t: TrayView)
    requires
        valid(e),
    ensures
        e.phase is Framing ==> leads_to(
            next_step(e, t, EventView::FrameProcessed(true)),
            EngineView {
                frames: if e.frames == 0xffff_ffff_ffff_ffff {
                    0
                } else {
                    (e.frames + 1) as u64
                },
                phase: Phase::Probing(After::Command),
                ..e
            },
            t,
            None,
            Release::Nothing,
            RequestView::ProbeThreads,
        ),
        e.phase is Framing ==> leads_to(
            next_step(e, t, EventView::FrameProcessed(false)),
            EngineView { phase: Phase::Sleeping, ..e },
            t,
            None,
            Release::Nothing,
            RequestView::Sleep(1),
        ),
        e.phase is Silencing ==> leads_to(
            next_step(e, t, EventView::SilencePlayed),
            EngineView { phase: Phase::Sleeping, ..e },
            t,
            None,
            Release::Nothing,
            RequestView::Sleep(10),
        ),
        e.phase is Sleeping && !e.paused ==> leads_to(
            next_step(e, t, EventView::Slept),
            EngineView { phase: Phase::Probing(After::Command), ..e },
            t,
            None,
            Release::Nothing,
            RequestView::ProbeThreads,
        ),
        e.phase is Sleeping && e.paused ==> leads_to(
            next_step(e, t, EventView::Slept),
            EngineView { phase: Phase::AwaitingCommand, ..e },
            t,
            None,
            Release::Nothing,
            RequestView::WaitCommand,
        ),
        e.phase == Phase::Probing(After::Command) && e.capturing ==> leads_to(
            next_step(
                e,
                t,
                EventView::ThreadsProbed { reference_finished: false, mic_finished: false },
            ),
            EngineView { flag: false, phase: Phase::AwaitingCommand, ..e },
            t,
            Some(false),
            Release::Nothing,
            RequestView::PollCommand,
        ),
{
}

/// A frame attempt is followed by a poll for a command, whatever it brought: from
/// a frame that was processed through a look at the threads, and from one that
/// was not there through a rest and a look, if no thread has ended.
pub proof fn a_command_is_polled_after_every_frame(e: EngineView, t: TrayView)
    requires
        valid(e),
        e.phase is Framing,
    ensures
        ({
            let none_ended = EventView::ThreadsProbed {
                reference_finished: false,
                mic_finished: false,
            };
            let done = next_step(e, t, EventView::FrameProcessed(true));
            let polled = next_step(done.engine, done.tray, none_ended);
            let absent = next_step(e, t, EventView::FrameProcessed(false));
            let rested = next_step(absent.engine, absent.tray, EventView::Slept);
            let polled_later = next_step(rested.engine, rested.tray, none_ended);
            &&& done.directive.request is ProbeThreads
            &&& polled.directive.request is PollCommand
            &&& absent.directive.request == RequestView::Sleep(1)
            &&& rested.directive.request is ProbeThreads
            &&& polled_later.directive.request is PollCommand
        }),
{
}

/// A look at the threads. Without a reference pipeline, or where it has ended,
/// the devices are looked at, and what ran with it is stopped; else a microphone
/// that has ended is stopped, and one that does not run is asked for; else all is
/// well.
pub proof fn a_look_at_the_threads(
    e: EngineView,
    t: TrayView,
    after: After,
    reference_finished: bool,
    mic_finished: bool,
)
    requires
        valid(e),
        e.phase == Phase::Probing(after),
    ensures
        ({
            let step = next_step(
                e,
                t,
                EventView::ThreadsProbed { reference_finished, mic_finished },
            );
            if !e.reference {
                leads_to(
                    step,
                    EngineView { phase: Phase::ListingForReference(after), ..e },
                    t,
                    None,
                    Release::Nothing,
                    RequestView::ListDevices,
                )
            } else if reference_finished {
                leads_to(
                    step,
                    EngineView {
                        reference: false,
                        capturing: false,
                        processor: false,
                        phase: Phase::ListingForReference(after),
                        ..e
                    },
                    t,
                    None,
                    if e.capturing {
                        Release::ReferenceThenMic
                    } else {
                        Release::Reference
                    },
                    RequestView::ListDevices,
                )
            } else if !e.capturing {
                asks_for_the_mic(step, e, t, after, Release::Nothing)
            } else if mic_finished {
                asks_for_the_mic(
                    step,
                    EngineView { capturing: false, processor: false, ..e },
                    t,
                    after,
                    Release::Mic,
                )
            } else {
                carries_on(step, e, t, after, Release::Nothing)
            }
        }),
{
}

/// A look at the devices, in order to start the reference pipeline or the
/// microphone or on command: the devices that it settles are started where they
/// are known, and waited for where they are not.
pub proof fn a_look_at_the_devices(e: EngineView, t: TrayView, after: After, s: SnapshotView)
    requires
        valid(e),
    ensures
        ({
            let ids = refreshed_ids(t, s, e.ids);
            let tray = refreshed_tray(t, s, e.ids);
            let changed = EngineView { ids, ..e };
            let step = next_step(e, t, EventView::DevicesListed(s));
            let known = ids.speaker is Some && ids.output is Some;
            &&& e.phase == Phase::ListingForReference(after) && known ==> asks_for_the_reference(
                step,
                changed,
                tray,
                Then::Mic(after),
                Release::Nothing,
                Occasion::Rebuild,
            )
            &&& e.phase == Phase::ListingForReference(after) && !known ==> carries_on(
                step,
                changed,
                tray,
                after,
                Release::Nothing,
            )
            &&& e.phase == Phase::ListingForMic(after) && ids.mic is Some ==> leads_to(
                step,
                EngineView { phase: Phase::StartingMic(after), ..changed },
                tray,
                None,
                Release::Nothing,
                RequestView::StartMic(ids.mic->0),
            )
            &&& e.phase == Phase::ListingForMic(after) && ids.mic is None ==> carries_on(
                step,
                changed,
                tray,
                after,
                Release::Nothing,
            )
            &&& e.phase is ListingForRefresh && known ==> asks_for_the_reference(
                step,
                changed,
                tray,
                Then::Run,
                Release::Nothing,
                Occasion::Refresh,
            )
            &&& e.phase is ListingForRefresh && !known ==> goes_on_without(
                step,
                changed,
                tray,
                Release::Nothing,
            )
        }),
{
}

/// The start of the reference pipeline. At boot the engine then waits for a
/// command; while checking what should run it goes on to the microphone, or
/// without where the start failed; after a command a paused engine waits, and
/// another checks what should run.
pub proof fn a_start_of_the_reference(e: EngineView, t: TrayView, after: After, ok: bool)
    requires
        valid(e),
    ensures
        ({
            let step = next_step(e, t, EventView::ReferenceStarted(ok));
            let changed = EngineView { reference: ok, ..e };
            &&& e.phase == Phase::StartingReference(Then::Loop) ==> leads_to(
                step,
                EngineView { phase: Phase::AwaitingCommand, ..changed },
                t,
                None,
                Release::Nothing,
                RequestView::WaitCommand,
            )
            &&& e.phase == Phase::StartingReference(Then::Mic(after)) && ok ==> asks_for_the_mic(
                step,
                changed,
                t,
                after,
                Release::Nothing,
            )
            &&& e.phase == Phase::StartingReference(Then::Mic(after)) && !ok ==> carries_on(
                step,
                changed,
                t,
                after,
                Release::Nothing,
            )
            &&& e.phase == Phase::StartingReference(Then::Run) && ok && e.paused ==> leads_to(
                step,
                EngineView { phase: Phase::AwaitingCommand, ..changed },
                t,
                None,
                Release::Nothing,
                RequestView::WaitCommand,
            )
            &&& e.phase == Phase::StartingReference(Then::Run) && !(ok && e.paused)
                ==> goes_on_without(step, changed, t, Release::Nothing)
        }),
{
}

/// The start of the microphone. Where it fails, or where there is an echo
/// canceller, the check of what should run is over; else a canceller is asked
/// for.
pub proof fn a_start_of_the_microphone(e: EngineView, t: TrayView, after: After, ok: bool)
    requires
        valid(e),
        e.phase == Phase::StartingMic(after),
    ensures
        ({
            let step = next_step(e, t, EventView::MicStarted(ok));
            if !ok {
                carries_on(step, e, t, after, Release::Nothing)
            } else if e.processor {
                carries_on(
                    step,
                    EngineView { capturing: true, ..e },
                    t,
                    after,
                    Release::Nothing,
                )
            } else {
                leads_to(
                    step,
                    EngineView { capturing: true, phase: Phase::NewProcessor(after), ..e },
                    t,
                    None,
                    Release::Nothing,
                    RequestView::CreateProcessor,
                )
            }
        }),
{
}

/// The echo canceller. Without one the engine fails; with its first one it starts
/// the reference pipeline where its devices are known, and else waits; with a new
/// one the check of what should run is over.
pub proof fn a_new_canceller(e: EngineView, t: TrayView, after: After, ok: bool)
    requires
        valid(e),
        e.phase is BootProcessor || e.phase == Phase::NewProcessor(after),
    ensures
        ({
            let step = next_step(e, t, EventView::ProcessorCreated(ok));
            let changed = EngineView { processor: true, ..e };
            if !ok {
                leads_to(
                    step,
                    EngineView { phase: Phase::Stopped, ..e },
                    t,
                    None,
                    Release::Nothing,
                    RequestView::Fail,
                )
            } else if !(e.phase is BootProcessor) {
                carries_on(step, changed, t, after, Release::Nothing)
            } else if e.ids.speaker is Some && e.ids.output is Some {
                asks_for_the_reference(
                    step,
                    changed,
                    t,
                    Then::Loop,
                    Release::Nothing,
                    Occasion::Boot,
                )
            } else {
                leads_to(
                    step,
                    EngineView { phase: Phase::AwaitingCommand, ..changed },
                    t,
                    None,
                    Release::Nothing,
                    RequestView::WaitCommand,
                )
            }
        }),
{
}

/// Without a command the engine goes on with the audio: a frame with the
/// microphone running, silence without it, a rest without a reference pipeline;
/// where no more commands can come it does the same, unless it is paused, and
/// then it ends.
pub proof fn without_a_command_the_audio_goes_on(e: EngineView, t: TrayView)
    requires
        valid(e),
        e.phase is AwaitingCommand,
    ensures
        ({
            let none = next_step(e, t, EventView::NoCommand);
            let end = next_step(e, t, EventView::Disconnected);
            &&& !e.paused ==> end == none
            &&& e.paused ==> leads_to(
                end,
                EngineView { phase: Phase::Stopped, ..e },
                t,
                None,
                Release::Nothing,
                RequestView::Exit,
            )
            &&& !e.reference ==> leads_to(
                none,
                EngineView { phase: Phase::Sleeping, ..e },
                t,
                None,
                Release::Nothing,
                RequestView::Sleep(100),
            )
            &&& e.reference && e.capturing ==> leads_to(
                none,
                EngineView { phase: Phase::Framing, ..e },
                t,
                None,
                Release::Nothing,
                RequestView::ProcessFrame,
            )
            &&& e.reference && !e.capturing && !e.paused ==> leads_to(
                none,
                EngineView { phase: Phase::Silencing, ..e },
                t,
                None,
                Release::Nothing,
                RequestView::PlaySilence,
            )
        }),
{
}

/// The threads that run, to be stopped with the microphone first.
pub open spec fn all_that_runs(e: EngineView) -> Release {
    if e.capturing && e.reference {
        Release::MicThenReference
    } else if e.capturing {
        Release::Mic
    } else if e.reference {
        Release::Reference
    } else {
        Release::Nothing
    }
}

/// A new device, on command: all that runs is stopped, the device is noted as the
/// one in use and the one that is wanted, the others stay, and everything starts
/// over.
pub proof fn a_new_device(e: EngineView, t: TrayView, id: Seq<char>)
    requires
        valid(e),
        e.phase is AwaitingCommand,
    ensures
        ({
            let stopped = EngineView {
                reference: false,
                capturing: false,
                processor: false,
                ..e
            };
            let mic = EngineView { ids: IdsView { mic: Some(id), ..e.ids }, ..stopped };
            let speaker = EngineView { ids: IdsView { speaker: Some(id), ..e.ids }, ..stopped };
            let output = EngineView { ids: IdsView { output: Some(id), ..e.ids }, ..stopped };
            let mic_tray = TrayView { preferred_mic: Some(id), current_mic: Some(id), ..t };
            let speaker_tray = TrayView {
                preferred_speaker: Some(id),
                current_speaker: Some(id),
                ..t
            };
            let output_tray = TrayView {
                preferred_output: Some(id),
                current_output: Some(id),
                ..t
            };
            let set_mic = next_step(e, t, EventView::Command(CommandView::SetMicDevice(id)));
            let set_speaker = next_step(
                e,
                t,
                EventView::Command(CommandView::SetSpeakerDevice(id)),
            );
            let set_output = next_step(
                e,
                t,
                EventView::Command(CommandView::SetOutputDevice(id)),
            );
            let all = all_that_runs(e);
            &&& if e.ids.speaker is Some && e.ids.output is Some {
                asks_for_the_reference(set_mic, mic, mic_tray, Then::Run, all, Occasion::NewMic)
            } else {
                goes_on_without(set_mic, mic, mic_tray, all)
            }
            &&& if e.ids.output is Some {
                asks_for_the_reference(
                    set_speaker,
                    speaker,
                    speaker_tray,
                    Then::Run,
                    all,
                    Occasion::NewSpeaker,
                )
            } else {
                goes_on_without(set_speaker, speaker, speaker_tray, all)
            }
            &&& if e.ids.speaker is Some {
                asks_for_the_reference(
                    set_output,
                    output,
                    output_tray,
                    Then::Run,
                    all,
                    Occasion::NewOutput,
                )
            } else {
                goes_on_without(set_output, output, output_tray, all)
            }
        }),
{
}

/// The other commands. A refresh stops all that runs and looks at the devices; a
/// pause raises the flag and stops the microphone alone; a resume checks what
/// should run; a shutdown stops all that runs and ends.
pub proof fn other_commands(e: EngineView, t: TrayView)
    requires
        valid(e),
        e.phase is AwaitingCommand,
    ensures
        leads_to(
            next_step(e, t, EventView::Command(CommandView::RefreshDevices)),
            EngineView {
                reference: false,
                capturing: false,
                processor: false,
                phase: Phase::ListingForRefresh,
                ..e
            },
            t,
            None,
            all_that_runs(e),
            RequestView::ListDevices,
        ),
        leads_to(
            next_step(e, t, EventView::Command(CommandView::Shutdown)),
            EngineView { reference: false, capturing: false, phase: Phase::Stopped, ..e },
            t,
            None,
            all_that_runs(e),
            RequestView::Exit,
        ),
        leads_to(
            next_step(e, t, EventView::Command(CommandView::Resume)),
            EngineView { paused: false, phase: Phase::Probing(After::Resumed), ..e },
            t,
            None,
            Release::Nothing,
            RequestView::ProbeThreads,
        ),
        leads_to(
            next_step(e, t, EventView::Command(CommandView::Pause)),
            EngineView {
                paused: true,
                flag: true,
                capturing: false,
                phase: if e.reference {
                    Phase::AwaitingCommand
                } else {
                    Phase::Sleeping
                },
                ..e
            },
            t,
            Some(true),
            if e.capturing {
                Release::Mic
            } else {
                Release::Nothing
            },
            if e.reference {
                RequestView::WaitCommand
            } else {
                RequestView::Sleep(100)
            },
        ),
{
}

/// Each command is itself to the engine, with the whole identifier that it names.
pub proof fn commands_are_taken_as_they_are(id: String)
    ensures
        EngineCommand::SetMicDevice(id)@ == CommandView::SetMicDevice(id@),
        EngineCommand::SetSpeakerDevice(id)@ == CommandView::SetSpeakerDevice(id@),
        EngineCommand::SetOutputDevice(id)@ == CommandView::SetOutputDevice(id@),
        EngineCommand::RefreshDevices@ == CommandView::RefreshDevices,
        EngineCommand::Pause@ == CommandView::Pause,
        EngineCommand::Resume@ == CommandView::Resume,
        EngineCommand::Shutdown@ == CommandView::Shutdown,
{
}

/// Each event is itself to the engine, with all that it reports.
pub proof fn events_are_taken_as_they_are(
    yes: bool,
    also: bool,
    command: EngineCommand,
    snapshot: DeviceSnapshot,
)
    ensures
        EngineEvent::ProcessorCreated(yes)@ == EventView::ProcessorCreated(yes),
        EngineEvent::ReferenceStarted(yes)@ == EventView::ReferenceStarted(yes),
        (EngineEvent::ThreadsProbed { reference_finished: yes, mic_finished: also })@ == (
        EventView::ThreadsProbed { reference_finished: yes, mic_finished: also }),
        EngineEvent::DevicesListed(snapshot)@ == EventView::DevicesListed(snapshot@),
        EngineEvent::MicStarted(yes)@ == EventView::MicStarted(yes),
        EngineEvent::Command(command)@ == EventView::Command(command@),
        EngineEvent::NoCommand@ == EventView::NoCommand,
        EngineEvent::Disconnected@ == EventView::Disconnected,
        EngineEvent::Slept@ == EventView::Slept,
        EngineEvent::FrameProcessed(yes)@ == EventView::FrameProcessed(yes),
        EngineEvent::SilencePlayed@ == EventView::SilencePlayed,
{
}

/// What a step asks for is just what its outcome shows: request by request, with
/// the devices, the occasion and the time that it names, and with the pause flag
/// and the threads to stop.
pub proof fn directives_say_what_is_asked(directive: Directive)
    ensures
        directive@.pause_flag == directive.pause_flag,
        directive@.release == directive.release,
        match directive@.request {
            RequestView::CreateProcessor => directive.request is CreateProcessor,
            RequestView::StartReference { speaker, output, occasion } => {
                &&& directive.request is StartReference
                &&& directive.request->speaker@ == speaker
                &&& directive.request->output@ == output
                &&& directive.request->occasion == occasion
            },
            RequestView::ProbeThreads => directive.request is ProbeThreads,
            RequestView::ListDevices => directive.request is ListDevices,
            RequestView::StartMic(id) => directive.request is StartMic
                && directive.request->StartMic_0@ == id,
            RequestView::WaitCommand => directive.request is WaitCommand,
            RequestView::PollCommand => directive.request is PollCommand,
            RequestView::Sleep(ms) => directive.request == Request::Sleep(ms),
            RequestView::ProcessFrame => directive.request is ProcessFrame,
            RequestView::PlaySilence => directive.request is PlaySilence,
            RequestView::Exit => directive.request is Exit,
            RequestView::Fail => directive.request is Fail,
        },
{
}

} // verus!
