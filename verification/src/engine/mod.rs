//! The audio engine: which audio threads run, on which devices, and when.
//!
//! The engine is a state machine. Each step takes what the last request
//! brought, and gives the next request, together with the threads to stop
//! first. The reference pipeline (loopback capture and render) can stay alive
//! while the engine is paused, so that pausing and resuming does not rebuild
//! it; the microphone is released on every pause.
use crate::engine::refresh::{
    refresh_devices_preserving, refreshed_ids, refreshed_tray, DeviceIds, DeviceSnapshot, IdsView,
    SnapshotView,
};
use crate::tray::{TrayState, TrayView};
use vstd::prelude::*;

pub mod frames;
pub mod laws;
pub mod refresh;
pub mod turns;

verus! {

pub enum EngineCommand {
    SetMicDevice(String),
    SetSpeakerDevice(String),
    SetOutputDevice(String),
    RefreshDevices,
    /// Pause processing and release the real microphone.
    /// Long-lived reference/AEC resources may stay warm to keep memory stable.
    Pause,
    /// Resume processing, restarting the microphone if needed.
    /// Sent by the session monitor when a program begins recording.
    Resume,
    Shutdown,
}

/// A command with its identifier as a text.
pub enum CommandView {
    SetMicDevice(Seq<char>),
    SetSpeakerDevice(Seq<char>),
    SetOutputDevice(Seq<char>),
    RefreshDevices,
    Pause,
    Resume,
    Shutdown,
}

impl View for EngineCommand {
    type V = CommandView;

    open spec fn view(&self) -> CommandView {
        match self {
            EngineCommand::SetMicDevice(id) => CommandView::SetMicDevice(id@),
            EngineCommand::SetSpeakerDevice(id) => CommandView::SetSpeakerDevice(id@),
            EngineCommand::SetOutputDevice(id) => CommandView::SetOutputDevice(id@),
            EngineCommand::RefreshDevices => CommandView::RefreshDevices,
            EngineCommand::Pause => CommandView::Pause,
            EngineCommand::Resume => CommandView::Resume,
            EngineCommand::Shutdown => CommandView::Shutdown,
        }
    }
}

/// Where the engine goes on once it has made sure that what should run runs.
#[derive(Debug, Clone, Copy, PartialEq, Eq, Structural)]
pub enum After {
    /// To the next command.
    Command,
    /// To the next frame of audio.
    Audio,
    /// To the next frame of audio, the first after a resume.
    Resumed,
}

/// Where the engine goes on after an attempt to start the reference pipeline.
#[derive(Debug, Clone, Copy, PartialEq, Eq, Structural)]
pub enum Then {
    /// Into its loop.
    Loop,
    /// To the microphone.
    Mic(After),
    /// To making sure that what should run runs.
    Run,
}

/// What the engine is waiting for.
#[derive(Debug, Clone, Copy, PartialEq, Eq, Structural)]
pub enum Phase {
    /// The first echo canceller.
    BootProcessor,
    /// The start of the reference pipeline.
    StartingReference(Then),
    /// Whether audio threads have ended by themselves.
    Probing(After),
    /// The devices, in order to start the reference pipeline.
    ListingForReference(After),
    /// The devices, in order to start the microphone.
    ListingForMic(After),
    /// The devices, on command.
    ListingForRefresh,
    /// The start of the microphone.
    StartingMic(After),
    /// A new echo canceller.
    NewProcessor(After),
    /// A command.
    AwaitingCommand,
    /// The end of a pause.
    Sleeping,
    /// A frame of audio.
    Framing,
    /// A frame of silence.
    Silencing,
    /// Nothing: the engine has ended.
    Stopped,
}

/// On which occasion the reference pipeline is started.
#[derive(Debug, Clone, Copy, PartialEq, Eq, Structural)]
pub enum Occasion {
    Boot,
    Rebuild,
    NewMic,
    NewSpeaker,
    NewOutput,
    Refresh,
}

/// Which audio threads are to be stopped, in which order.
#[derive(Debug, Clone, Copy, PartialEq, Eq, Structural)]
pub enum Release {
    Nothing,
    Mic,
    Reference,
    MicThenReference,
    ReferenceThenMic,
}

/// What the engine asks for.
pub enum Request {
    /// Make an echo canceller.
    CreateProcessor,
    /// Start the reference pipeline.
    StartReference { speaker: String, output: String, occasion: Occasion },
    /// Say whether audio threads have ended by themselves.
    ProbeThreads,
    /// Look at the system's audio devices.
    ListDevices,
    /// Start the microphone.
    StartMic(String),
    /// Wait for a command.
    WaitCommand,
    /// Take a command if one is there.
    PollCommand,
    /// Let so many milliseconds pass.
    Sleep(u64),
    /// Process a frame of audio if the microphone has delivered one.
    ProcessFrame,
    /// Put out a frame of silence.
    PlaySilence,
    /// End: the engine is done.
    Exit,
    /// End: the echo canceller could not be made.
    Fail,
}

pub enum RequestView {
    CreateProcessor,
    StartReference { speaker: Seq<char>, output: Seq<char>, occasion: Occasion },
    ProbeThreads,
    ListDevices,
    StartMic(Seq<char>),
    WaitCommand,
    PollCommand,
    Sleep(u64),
    ProcessFrame,
    PlaySilence,
    Exit,
    Fail,
}

impl View for Request {
    type V = RequestView;

    open spec fn view(&self) -> RequestView {
        match self {
            Request::CreateProcessor => RequestView::CreateProcessor,
            Request::StartReference { speaker, output, occasion } => RequestView::StartReference {
                speaker: speaker@,
                output: output@,
                occasion: *occasion,
            },
            Request::ProbeThreads => RequestView::ProbeThreads,
            Request::ListDevices => RequestView::ListDevices,
            Request::StartMic(id) => RequestView::StartMic(id@),
            Request::WaitCommand => RequestView::WaitCommand,
            Request::PollCommand => RequestView::PollCommand,
            Request::Sleep(ms) => RequestView::Sleep(*ms),
            Request::ProcessFrame => RequestView::ProcessFrame,
            Request::PlaySilence => RequestView::PlaySilence,
            Request::Exit => RequestView::Exit,
            Request::Fail => RequestView::Fail,
        }
    }
}

/// What a request brought.
pub enum EngineEvent {
    /// Whether an echo canceller was made.
    ProcessorCreated(bool),
    /// Whether the reference pipeline was started.
    ReferenceStarted(bool),
    /// Whether the reference pipeline and the microphone have ended.
    ThreadsProbed { reference_finished: bool, mic_finished: bool },
    /// The devices.
    DevicesListed(DeviceSnapshot),
    /// Whether the microphone was started.
    MicStarted(bool),
    /// A command.
    Command(EngineCommand),
    /// There is no command.
    NoCommand,
    /// There will be no more commands.
    Disconnected,
    /// The time has passed.
    Slept,
    /// Whether a frame was there, and was processed.
    FrameProcessed(bool),
    /// A frame of silence was put out.
    SilencePlayed,
}

pub enum EventView {
    ProcessorCreated(bool),
    ReferenceStarted(bool),
    ThreadsProbed { reference_finished: bool, mic_finished: bool },
    DevicesListed(SnapshotView),
    MicStarted(bool),
    Command(CommandView),
    NoCommand,
    Disconnected,
    Slept,
    FrameProcessed(bool),
    SilencePlayed,
}

impl View for EngineEvent {
    type V = EventView;

    open spec fn view(&self) -> EventView {
        match self {
            EngineEvent::ProcessorCreated(ok) => EventView::ProcessorCreated(*ok),
            EngineEvent::ReferenceStarted(ok) => EventView::ReferenceStarted(*ok),
            EngineEvent::ThreadsProbed { reference_finished, mic_finished } =>
                EventView::ThreadsProbed {
                reference_finished: *reference_finished,
                mic_finished: *mic_finished,
            },
            EngineEvent::DevicesListed(snapshot) => EventView::DevicesListed(snapshot@),
            EngineEvent::MicStarted(ok) => EventView::MicStarted(*ok),
            EngineEvent::Command(command) => EventView::Command(command@),
            EngineEvent::NoCommand => EventView::NoCommand,
            EngineEvent::Disconnected => EventView::Disconnected,
            EngineEvent::Slept => EventView::Slept,
            EngineEvent::FrameProcessed(done) => EventView::FrameProcessed(*done),
            EngineEvent::SilencePlayed => EventView::SilencePlayed,
        }
    }
}

/// The outcome of a step: set the pause flag that the audio threads see, stop
/// threads, then do what is asked.
pub struct Directive {
    pub pause_flag: Option<bool>,
    pub release: Release,
    pub request: Request,
}

pub struct DirectiveView {
    pub pause_flag: Option<bool>,
    pub release: Release,
    pub request: RequestView,
}

impl View for Directive {
    type V = DirectiveView;

    open spec fn view(&self) -> DirectiveView {
        DirectiveView {
            pause_flag: self.pause_flag,
            release: self.release,
            request: self.request@,
        }
    }
}

/// The engine's state: the devices, what runs, whether it is paused, what the
/// pause flag says, the frames since the last resume, and what it waits for.
pub struct AudioEngine {
    ids: DeviceIds,
    reference: bool,
    capturing: bool,
    processor: bool,
    paused: bool,
    flag: bool,
    frames: u64,
    phase: Phase,
}

pub struct EngineView {
    pub ids: IdsView,
    pub reference: bool,
    pub capturing: bool,
    pub processor: bool,
    pub paused: bool,
    pub flag: bool,
    pub frames: u64,
    pub phase: Phase,
}

impl View for AudioEngine {
    type V = EngineView;

    closed spec fn view(&self) -> EngineView {
        EngineView {
            ids: self.ids@,
            reference: self.reference,
            capturing: self.capturing,
            processor: self.processor,
            paused: self.paused,
            flag: self.flag,
            frames: self.frames,
            phase: self.phase,
        }
    }
}

/// Where the engine goes on: the phase and its request, whether the pause flag
/// falls, and whether the frames are counted anew.
pub struct Next {
    pub phase: Phase,
    pub request: RequestView,
    pub unpauses: bool,
    pub recounts: bool,
}

/// Enter a phase with its request.
pub open spec fn enter(phase: Phase, request: RequestView) -> Next {
    Next { phase, request, unpauses: false, recounts: false }
}

/// The head of the loop: a paused engine waits for a command, any other first
/// makes sure that what should run runs.
pub open spec fn loop_head(e: EngineView) -> Next {
    if e.paused {
        enter(Phase::AwaitingCommand, RequestView::WaitCommand)
    } else {
        enter(Phase::Probing(After::Command), RequestView::ProbeThreads)
    }
}

/// The audio part of the loop: without a reference pipeline, rest; while
/// paused, nothing; with a microphone, a frame; without one, silence.
pub open spec fn audio_part(e: EngineView) -> Next {
    if !e.reference {
        enter(Phase::Sleeping, RequestView::Sleep(100))
    } else if e.paused {
        loop_head(e)
    } else if e.capturing {
        enter(Phase::Framing, RequestView::ProcessFrame)
    } else {
        enter(Phase::Silencing, RequestView::PlaySilence)
    }
}

/// What should run has been seen to: the pause flag falls, and the engine goes
/// on.
pub open spec fn ensured(e: EngineView, after: After) -> Next {
    let next = match after {
        After::Command => enter(Phase::AwaitingCommand, RequestView::PollCommand),
        _ => audio_part(e),
    };
    Next { unpauses: true, recounts: after is Resumed, ..next }
}

/// See to the microphone: it needs the reference pipeline, and a device.
pub open spec fn ensure_mic(e: EngineView, after: After) -> Next {
    if e.capturing || !e.reference {
        ensured(e, after)
    } else {
        match e.ids.mic {
            Some(mic) => enter(Phase::StartingMic(after), RequestView::StartMic(mic)),
            None => enter(Phase::ListingForMic(after), RequestView::ListDevices),
        }
    }
}

/// See to what should run; nothing should while the engine is paused.
pub open spec fn ensure_all(e: EngineView, after: After) -> Next {
    if e.paused {
        audio_part(e)
    } else {
        enter(Phase::Probing(after), RequestView::ProbeThreads)
    }
}

/// Go on after an attempt to start the reference pipeline.
pub open spec fn go_on(e: EngineView, then: Then) -> Next {
    match then {
        Then::Loop => loop_head(e),
        Then::Mic(after) => ensure_mic(e, after),
        Then::Run => ensure_all(e, After::Audio),
    }
}

/// Start the reference pipeline where it does not run and both its devices are
/// known, else go on without.
pub open spec fn start_reference(e: EngineView, occasion: Occasion, then: Then) -> Next {
    if e.reference {
        go_on(e, then)
    } else {
        match (e.ids.speaker, e.ids.output) {
            (Some(speaker), Some(output)) => enter(
                Phase::StartingReference(then),
                RequestView::StartReference { speaker, output, occasion },
            ),
            _ => go_on(e, then),
        }
    }
}

/// The threads to stop where both the microphone and the reference pipeline are
/// to be stopped.
pub open spec fn both(e: EngineView) -> Release {
    if e.capturing && e.reference {
        Release::MicThenReference
    } else if e.capturing {
        Release::Mic
    } else if e.reference {
        Release::Reference
    } else {
        Release::Nothing
    }
}

/// The threads to stop where the microphone is to be stopped.
pub open spec fn mic_only(e: EngineView) -> Release {
    if e.capturing {
        Release::Mic
    } else {
        Release::Nothing
    }
}

/// The state after audio threads that ended by themselves are cleared away: the
/// end of the reference pipeline takes the microphone with it, and either end
/// takes the echo canceller.
pub open spec fn reaped(e: EngineView, reference_finished: bool, mic_finished: bool) -> EngineView {
    let no_reference = e.reference && reference_finished;
    let no_mic = no_reference || e.capturing && mic_finished;
    EngineView {
        reference: e.reference && !no_reference,
        capturing: e.capturing && !no_mic,
        processor: e.processor && !no_mic,
        ..e
    }
}

/// The threads to stop when audio threads have ended by themselves.
pub open spec fn reap_release(
    e: EngineView,
    reference_finished: bool,
    mic_finished: bool,
) -> Release {
    if e.reference && reference_finished {
        if e.capturing {
            Release::ReferenceThenMic
        } else {
            Release::Reference
        }
    } else if e.capturing && mic_finished {
        Release::Mic
    } else {
        Release::Nothing
    }
}

/// A whole step: the state, the shared state, and the outcome.
pub struct Step {
    pub engine: EngineView,
    pub tray: TrayView,
    pub directive: DirectiveView,
}

/// The step from a state with its changes made.
pub open spec fn step_to(e: EngineView, next: Next, t: TrayView, release: Release) -> Step {
    Step {
        engine: EngineView {
            phase: next.phase,
            flag: e.flag && !next.unpauses,
            frames: if next.recounts {
                0
            } else {
                e.frames
            },
            ..e
        },
        tray: t,
        directive: DirectiveView {
            pause_flag: if next.unpauses {
                Some(false)
            } else {
                None
            },
            release,
            request: next.request,
        },
    }
}

/// The engine stops what runs, and ends.
pub open spec fn on_shutdown(e: EngineView, t: TrayView) -> Step {
    step_to(
        EngineView { capturing: false, reference: false, ..e },
        enter(Phase::Stopped, RequestView::Exit),
        t,
        both(e),
    )
}

/// The state with nothing running on these devices.
pub open spec fn cleared(e: EngineView, ids: IdsView) -> EngineView {
    EngineView { ids, capturing: false, processor: false, reference: false, ..e }
}

/// The microphone changes: it is the wanted one from now on, and the whole
/// pipeline starts over with it.
pub open spec fn on_set_mic(e: EngineView, t: TrayView, id: Seq<char>) -> Step {
    let changed = cleared(e, IdsView { mic: Some(id), ..e.ids });
    step_to(
        changed,
        start_reference(changed, Occasion::NewMic, Then::Run),
        TrayView { preferred_mic: Some(id), current_mic: Some(id), ..t },
        both(e),
    )
}

/// The speaker changes: the whole pipeline starts over with it.
pub open spec fn on_set_speaker(e: EngineView, t: TrayView, id: Seq<char>) -> Step {
    let changed = cleared(e, IdsView { speaker: Some(id), ..e.ids });
    step_to(
        changed,
        start_reference(changed, Occasion::NewSpeaker, Then::Run),
        TrayView { preferred_speaker: Some(id), current_speaker: Some(id), ..t },
        both(e),
    )
}

/// The output changes: the whole pipeline starts over with it.
pub open spec fn on_set_output(e: EngineView, t: TrayView, id: Seq<char>) -> Step {
    let changed = cleared(e, IdsView { output: Some(id), ..e.ids });
    step_to(
        changed,
        start_reference(changed, Occasion::NewOutput, Then::Run),
        TrayView { preferred_output: Some(id), current_output: Some(id), ..t },
        both(e),
    )
}

/// The whole pipeline starts over after a look at the devices.
pub open spec fn on_refresh(e: EngineView, t: TrayView) -> Step {
    step_to(
        cleared(e, e.ids),
        enter(Phase::ListingForRefresh, RequestView::ListDevices),
        t,
        both(e),
    )
}

/// The microphone is released; the reference pipeline and the echo canceller
/// are kept.
pub open spec fn on_pause(e: EngineView, t: TrayView) -> Step {
    let changed = EngineView { paused: true, flag: true, capturing: false, ..e };
    let step = step_to(changed, audio_part(changed), t, mic_only(e));
    Step { directive: DirectiveView { pause_flag: Some(true), ..step.directive }, ..step }
}

/// What should run is started again.
pub open spec fn on_resume(e: EngineView, t: TrayView) -> Step {
    let changed = EngineView { paused: false, ..e };
    step_to(changed, ensure_all(changed, After::Resumed), t, Release::Nothing)
}

/// What a command does.
pub open spec fn on_command(e: EngineView, t: TrayView, command: CommandView) -> Step {
    match command {
        CommandView::Shutdown => on_shutdown(e, t),
        CommandView::SetMicDevice(id) => on_set_mic(e, t, id),
        CommandView::SetSpeakerDevice(id) => on_set_speaker(e, t, id),
        CommandView::SetOutputDevice(id) => on_set_output(e, t, id),
        CommandView::RefreshDevices => on_refresh(e, t),
        CommandView::Pause => on_pause(e, t),
        CommandView::Resume => on_resume(e, t),
    }
}

/// What the outcome of making an echo canceller leads to.
pub open spec fn on_processor(e: EngineView, t: TrayView, ok: bool) -> Step {
    let changed = EngineView { processor: e.processor || ok, ..e };
    let next = if !ok {
        enter(Phase::Stopped, RequestView::Fail)
    } else {
        match e.phase {
            Phase::NewProcessor(after) => ensured(changed, after),
            _ => start_reference(changed, Occasion::Boot, Then::Loop),
        }
    };
    step_to(changed, next, t, Release::Nothing)
}

/// What the outcome of starting the reference pipeline leads to.
pub open spec fn on_reference(e: EngineView, t: TrayView, ok: bool) -> Step {
    let changed = EngineView { reference: ok, ..e };
    let next = match e.phase {
        Phase::StartingReference(then) => go_on(changed, then),
        _ => loop_head(changed),
    };
    step_to(changed, next, t, Release::Nothing)
}

/// What the look at the audio threads leads to.
pub open spec fn on_probe(
    e: EngineView,
    t: TrayView,
    reference_finished: bool,
    mic_finished: bool,
) -> Step {
    let left = reaped(e, reference_finished, mic_finished);
    let next = match e.phase {
        Phase::Probing(after) => if left.reference {
            ensure_mic(left, after)
        } else {
            enter(Phase::ListingForReference(after), RequestView::ListDevices)
        },
        _ => loop_head(left),
    };
    step_to(left, next, t, reap_release(e, reference_finished, mic_finished))
}

/// What a look at the devices leads to.
pub open spec fn on_devices(e: EngineView, t: TrayView, s: SnapshotView) -> Step {
    let changed = EngineView { ids: refreshed_ids(t, s, e.ids), ..e };
    let next = match e.phase {
        Phase::ListingForReference(after) => start_reference(
            changed,
            Occasion::Rebuild,
            Then::Mic(after),
        ),
        Phase::ListingForMic(after) => match changed.ids.mic {
            Some(mic) => enter(Phase::StartingMic(after), RequestView::StartMic(mic)),
            None => ensured(changed, after),
        },
        Phase::ListingForRefresh => start_reference(changed, Occasion::Refresh, Then::Run),
        _ => loop_head(changed),
    };
    step_to(changed, next, refreshed_tray(t, s, e.ids), Release::Nothing)
}

/// What the outcome of starting the microphone leads to.
pub open spec fn on_mic(e: EngineView, t: TrayView, ok: bool) -> Step {
    let changed = EngineView { capturing: e.capturing || ok, ..e };
    let next = match e.phase {
        Phase::StartingMic(after) => if ok && !e.processor {
            enter(Phase::NewProcessor(after), RequestView::CreateProcessor)
        } else {
            ensured(changed, after)
        },
        _ => loop_head(changed),
    };
    step_to(changed, next, t, Release::Nothing)
}

/// What the end of all commands leads to: a paused engine ends, another goes on
/// as it is.
pub open spec fn on_disconnect(e: EngineView, t: TrayView) -> Step {
    let next = if e.paused {
        enter(Phase::Stopped, RequestView::Exit)
    } else {
        audio_part(e)
    };
    step_to(e, next, t, Release::Nothing)
}

/// What the attempt at a frame leads to: a short rest where there was none.
pub open spec fn on_frame(e: EngineView, t: TrayView, done: bool) -> Step {
    if done {
        let counted = EngineView { frames: next_count(e.frames), ..e };
        step_to(counted, loop_head(counted), t, Release::Nothing)
    } else {
        step_to(e, enter(Phase::Sleeping, RequestView::Sleep(1)), t, Release::Nothing)
    }
}

/// The event is one that the phase waits for.
pub open spec fn accepted(phase: Phase, event: EventView) -> bool {
    match event {
        EventView::ProcessorCreated(_) => phase is BootProcessor || phase is NewProcessor,
        EventView::ReferenceStarted(_) => phase is StartingReference,
        EventView::ThreadsProbed { .. } => phase is Probing,
        EventView::DevicesListed(_) => phase is ListingForReference || phase is ListingForMic
            || phase is ListingForRefresh,
        EventView::MicStarted(_) => phase is StartingMic,
        EventView::Command(_) | EventView::NoCommand | EventView::Disconnected =>
            phase is AwaitingCommand,
        EventView::Slept => phase is Sleeping,
        EventView::FrameProcessed(_) => phase is Framing,
        EventView::SilencePlayed => phase is Silencing,
    }
}

/// The engine's step for an event that it waits for.
pub open spec fn next_step(e: EngineView, t: TrayView, event: EventView) -> Step {
    match event {
        EventView::ProcessorCreated(ok) => on_processor(e, t, ok),
        EventView::ReferenceStarted(ok) => on_reference(e, t, ok),
        EventView::ThreadsProbed { reference_finished, mic_finished } => on_probe(
            e,
            t,
            reference_finished,
            mic_finished,
        ),
        EventView::DevicesListed(s) => on_devices(e, t, s),
        EventView::MicStarted(ok) => on_mic(e, t, ok),
        EventView::Command(command) => on_command(e, t, command),
        EventView::NoCommand => step_to(e, audio_part(e), t, Release::Nothing),
        EventView::Disconnected => on_disconnect(e, t),
        EventView::Slept => step_to(e, loop_head(e), t, Release::Nothing),
        EventView::FrameProcessed(done) => on_frame(e, t, done),
        EventView::SilencePlayed => step_to(
            e,
            enter(Phase::Sleeping, RequestView::Sleep(10)),
            t,
            Release::Nothing,
        ),
    }
}

/// The frame counter after one more frame; it starts over behind its last value.
pub open spec fn next_count(frames: u64) -> u64 {
    if frames == u64::MAX {
        0
    } else {
        (frames + 1) as u64
    }
}

/// The state of an engine that starts with the devices in use.
pub open spec fn initial(t: TrayView) -> EngineView {
    EngineView {
        ids: IdsView {
            mic: t.current_mic,
            speaker: t.current_speaker,
            output: t.current_output,
        },
        reference: false,
        capturing: false,
        processor: false,
        paused: true,
        flag: true,
        frames: 0,
        phase: Phase::BootProcessor,
    }
}

/// Where the engine goes on.
struct Reply {
    phase: Phase,
    request: Request,
    unpauses: bool,
    recounts: bool,
}

impl View for Reply {
    type V = Next;

    closed spec fn view(&self) -> Next {
        Next {
            phase: self.phase,
            request: self.request@,
            unpauses: self.unpauses,
            recounts: self.recounts,
        }
    }
}

/// The state, the shared state and the outcome are those of `step`.
spec fn stepped(engine: AudioEngine, st: TrayState, directive: Directive, step: Step) -> bool {
    &&& engine@ == step.engine
    &&& st@ == step.tray
    &&& directive@ == step.directive
}

/// Enter a phase with its request.
fn entering(phase: Phase, request: Request) -> (reply: Reply)
    ensures
        reply@ == enter(phase, request@),
{
    Reply { phase, request, unpauses: false, recounts: false }
}

impl AudioEngine {
    /// An engine that starts with the devices in use, paused, and its first
    /// request.
    pub fn new(st: &TrayState) -> (started: (AudioEngine, Directive))
        ensures
            started.0@ == initial(st@),
            started.1@ == (DirectiveView {
                pause_flag: Some(true),
                release: Release::Nothing,
                request: RequestView::CreateProcessor,
            }),
    {
        let engine = AudioEngine {
            ids: DeviceIds {
                mic: st.current_mic_id.clone(),
                speaker: st.current_speaker_id.clone(),
                output: st.current_output_id.clone(),
            },
            reference: false,
            capturing: false,
            processor: false,
            paused: true,
            flag: true,
            frames: 0,
            phase: Phase::BootProcessor,
        };
        let first = Directive {
            pause_flag: Some(true),
            release: Release::Nothing,
            request: Request::CreateProcessor,
        };
        (engine, first)
    }

    /// How many frames were processed since the last resume.
    pub fn frames_processed(&self) -> (frames: u64)
        ensures
            frames == self@.frames,
    {
        self.frames
    }

    /// Whether the engine waits for this event.
    pub fn accepts(&self, event: &EngineEvent) -> (yes: bool)
        ensures
            yes == accepted(self@.phase, event@),
    {
        match event {
            EngineEvent::ProcessorCreated(_) => match self.phase {
                Phase::BootProcessor => true,
                Phase::NewProcessor(_) => true,
                _ => false,
            },
            EngineEvent::ReferenceStarted(_) => match self.phase {
                Phase::StartingReference(_) => true,
                _ => false,
            },
            EngineEvent::ThreadsProbed { .. } => match self.phase {
                Phase::Probing(_) => true,
                _ => false,
            },
            EngineEvent::DevicesListed(_) => match self.phase {
                Phase::ListingForReference(_) => true,
                Phase::ListingForMic(_) => true,
                Phase::ListingForRefresh => true,
                _ => false,
            },
            EngineEvent::MicStarted(_) => match self.phase {
                Phase::StartingMic(_) => true,
                _ => false,
            },
            EngineEvent::Command(_) | EngineEvent::NoCommand | EngineEvent::Disconnected =>
                self.phase == Phase::AwaitingCommand,
            EngineEvent::Slept => self.phase == Phase::Sleeping,
            EngineEvent::FrameProcessed(_) => self.phase == Phase::Framing,
            EngineEvent::SilencePlayed => self.phase == Phase::Silencing,
        }
    }

    fn loop_head(&self) -> (reply: Reply)
        ensures
            reply@ == loop_head(self@),
    {
        if self.paused {
            entering(Phase::AwaitingCommand, Request::WaitCommand)
        } else {
            entering(Phase::Probing(After::Command), Request::ProbeThreads)
        }
    }

    fn audio_part(&self) -> (reply: Reply)
        ensures
            reply@ == audio_part(self@),
    {
        if !self.reference {
            entering(Phase::Sleeping, Request::Sleep(100))
        } else if self.paused {
            self.loop_head()
        } else if self.capturing {
            entering(Phase::Framing, Request::ProcessFrame)
        } else {
            entering(Phase::Silencing, Request::PlaySilence)
        }
    }

    fn ensured(&self, after: After) -> (reply: Reply)
        ensures
            reply@ == ensured(self@, after),
    {
        let next = match after {
            After::Command => entering(Phase::AwaitingCommand, Request::PollCommand),
            _ => self.audio_part(),
        };
        Reply {
            phase: next.phase,
            request: next.request,
            unpauses: true,
            recounts: after == After::Resumed,
        }
    }

    /// See to the microphone.
    fn ensure_mic_capture(&self, after: After) -> (reply: Reply)
        ensures
            reply@ == ensure_mic(self@, after),
    {
        if self.capturing || !self.reference {
            return self.ensured(after);
        }
        match self.ids.mic.clone() {
            Some(mic) => entering(Phase::StartingMic(after), Request::StartMic(mic)),
            None => entering(Phase::ListingForMic(after), Request::ListDevices),
        }
    }

    /// See to what should run.
    fn ensure_running(&self, after: After) -> (reply: Reply)
        ensures
            reply@ == ensure_all(self@, after),
    {
        if self.paused {
            self.audio_part()
        } else {
            entering(Phase::Probing(after), Request::ProbeThreads)
        }
    }

    fn go_on(&self, then: Then) -> (reply: Reply)
        ensures
            reply@ == go_on(self@, then),
    {
        match then {
            Then::Loop => self.loop_head(),
            Then::Mic(after) => self.ensure_mic_capture(after),
            Then::Run => self.ensure_running(After::Audio),
        }
    }

    /// Start the reference pipeline where that is possible.
    fn start_ref_pipeline(&self, occasion: Occasion, then: Then) -> (reply: Reply)
        ensures
            reply@ == start_reference(self@, occasion, then),
    {
        if self.reference {
            return self.go_on(then);
        }
        match (self.ids.speaker.clone(), self.ids.output.clone()) {
            (Some(speaker), Some(output)) => entering(
                Phase::StartingReference(then),
                Request::StartReference { speaker, output, occasion },
            ),
            _ => self.go_on(then),
        }
    }

    /// Clear away audio threads that ended by themselves.
    fn reap_finished_audio(&mut self, reference_finished: bool, mic_finished: bool) -> (release:
        Release)
        ensures
            final(self)@ == reaped(old(self)@, reference_finished, mic_finished),
            release == reap_release(old(self)@, reference_finished, mic_finished),
    {
        if self.reference && reference_finished {
            let release = if self.capturing {
                Release::ReferenceThenMic
            } else {
                Release::Reference
            };
            self.reference = false;
            self.capturing = false;
            self.processor = false;
            release
        } else if self.capturing && mic_finished {
            self.capturing = false;
            self.processor = false;
            Release::Mic
        } else {
            Release::Nothing
        }
    }

    /// Stop the microphone.
    fn release_mic(&mut self) -> (release: Release)
        ensures
            final(self)@ == (EngineView { capturing: false, ..old(self)@ }),
            release == mic_only(old(self)@),
    {
        let release = if self.capturing {
            Release::Mic
        } else {
            Release::Nothing
        };
        self.capturing = false;
        release
    }

    /// Stop the microphone and the reference pipeline.
    fn release_both(&mut self) -> (release: Release)
        ensures
            final(self)@ == (EngineView { capturing: false, reference: false, ..old(self)@ }),
            release == both(old(self)@),
    {
        let release = if self.capturing && self.reference {
            Release::MicThenReference
        } else if self.capturing {
            Release::Mic
        } else if self.reference {
            Release::Reference
        } else {
            Release::Nothing
        };
        self.capturing = false;
        self.reference = false;
        release
    }

    /// Go on as the reply says.
    fn step_to(&mut self, reply: Reply, st: &TrayState, release: Release) -> (directive: Directive)
        ensures
            stepped(*final(self), *st, directive, step_to(old(self)@, reply@, st@, release)),
    {
        self.phase = reply.phase;
        if reply.unpauses {
            self.flag = false;
        }
        if reply.recounts {
            self.frames = 0;
        }
        let pause_flag = if reply.unpauses {
            Some(false)
        } else {
            None
        };
        Directive { pause_flag, release, request: reply.request }
    }

    /// Do what a command asks.
    fn handle_command(&mut self, st: &mut TrayState, command: EngineCommand) -> (directive:
        Directive)
        ensures
            stepped(
                *final(self),
                *final(st),
                directive,
                on_command(old(self)@, old(st)@, command@),
            ),
    {
        match command {
            EngineCommand::Shutdown => {
                let release = self.release_both();
                self.step_to(entering(Phase::Stopped, Request::Exit), st, release)
            },
            EngineCommand::SetMicDevice(new_id) => {
                let release = self.release_both();
                self.processor = false;
                self.ids.mic = Some(new_id.clone());
                st.preferred_mic_id = Some(new_id.clone());
                st.current_mic_id = Some(new_id);
                let reply = self.start_ref_pipeline(Occasion::NewMic, Then::Run);
                self.step_to(reply, st, release)
            },
            EngineCommand::SetSpeakerDevice(new_id) => {
                let release = self.release_both();
                self.processor = false;
                self.ids.speaker = Some(new_id.clone());
                st.preferred_speaker_id = Some(new_id.clone());
                st.current_speaker_id = Some(new_id);
                let reply = self.start_ref_pipeline(Occasion::NewSpeaker, Then::Run);
                self.step_to(reply, st, release)
            },
            EngineCommand::SetOutputDevice(new_id) => {
                let release = self.release_both();
                self.processor = false;
                self.ids.output = Some(new_id.clone());
                st.preferred_output_id = Some(new_id.clone());
                st.current_output_id = Some(new_id);
                let reply = self.start_ref_pipeline(Occasion::NewOutput, Then::Run);
                self.step_to(reply, st, release)
            },
            EngineCommand::RefreshDevices => {
                let release = self.release_both();
                self.processor = false;
                self.step_to(entering(Phase::ListingForRefresh, Request::ListDevices), st, release)
            },
            EngineCommand::Pause => {
                self.paused = true;
                self.flag = true;
                let release = self.release_mic();
                let reply = self.audio_part();
                let directive = self.step_to(reply, st, release);
                Directive {
                    pause_flag: Some(true),
                    release: directive.release,
                    request: directive.request,
                }
            },
            EngineCommand::Resume => {
                self.paused = false;
                let reply = self.ensure_running(After::Resumed);
                self.step_to(reply, st, Release::Nothing)
            },
        }
    }

    fn on_processor(&mut self, st: &TrayState, ok: bool) -> (directive: Directive)
        ensures
            stepped(*final(self), *st, directive, on_processor(old(self)@, st@, ok)),
    {
        if !ok {
            return self.step_to(entering(Phase::Stopped, Request::Fail), st, Release::Nothing);
        }
        self.processor = true;
        let reply = match self.phase {
            Phase::NewProcessor(after) => self.ensured(after),
            _ => self.start_ref_pipeline(Occasion::Boot, Then::Loop),
        };
        self.step_to(reply, st, Release::Nothing)
    }

    fn on_reference(&mut self, st: &TrayState, ok: bool) -> (directive: Directive)
        ensures
            stepped(*final(self), *st, directive, on_reference(old(self)@, st@, ok)),
    {
        self.reference = ok;
        let reply = match self.phase {
            Phase::StartingReference(then) => self.go_on(then),
            _ => self.loop_head(),
        };
        self.step_to(reply, st, Release::Nothing)
    }

    fn on_probe(
        &mut self,
        st: &TrayState,
        reference_finished: bool,
        mic_finished: bool,
    ) -> (directive: Directive)
        ensures
            stepped(
                *final(self),
                *st,
                directive,
                on_probe(old(self)@, st@, reference_finished, mic_finished),
            ),
    {
        let release = self.reap_finished_audio(reference_finished, mic_finished);
        let reply = match self.phase {
            Phase::Probing(after) => if self.reference {
                self.ensure_mic_capture(after)
            } else {
                entering(Phase::ListingForReference(after), Request::ListDevices)
            },
            _ => self.loop_head(),
        };
        self.step_to(reply, st, release)
    }

    fn on_devices(&mut self, st: &mut TrayState, snapshot: DeviceSnapshot) -> (directive: Directive)
        ensures
            stepped(
                *final(self),
                *final(st),
                directive,
                on_devices(old(self)@, old(st)@, snapshot@),
            ),
    {
        let new = refresh_devices_preserving(st, snapshot, &self.ids);
        self.ids = new;
        let reply = match self.phase {
            Phase::ListingForReference(after) => self.start_ref_pipeline(
                Occasion::Rebuild,
                Then::Mic(after),
            ),
            Phase::ListingForMic(after) => match self.ids.mic.clone() {
                Some(mic) => entering(Phase::StartingMic(after), Request::StartMic(mic)),
                None => self.ensured(after),
            },
            Phase::ListingForRefresh => self.start_ref_pipeline(Occasion::Refresh, Then::Run),
            _ => self.loop_head(),
        };
        self.step_to(reply, st, Release::Nothing)
    }

    fn on_mic(&mut self, st: &TrayState, ok: bool) -> (directive: Directive)
        ensures
            stepped(*final(self), *st, directive, on_mic(old(self)@, st@, ok)),
    {
        if ok {
            self.capturing = true;
        }
        let reply = match self.phase {
            Phase::StartingMic(after) => if ok && !self.processor {
                entering(Phase::NewProcessor(after), Request::CreateProcessor)
            } else {
                self.ensured(after)
            },
            _ => self.loop_head(),
        };
        self.step_to(reply, st, Release::Nothing)
    }

    fn on_disconnect(&mut self, st: &TrayState) -> (directive: Directive)
        ensures
            stepped(*final(self), *st, directive, on_disconnect(old(self)@, st@)),
    {
        let reply = if self.paused {
            entering(Phase::Stopped, Request::Exit)
        } else {
            self.audio_part()
        };
        self.step_to(reply, st, Release::Nothing)
    }

    fn on_frame(&mut self, st: &TrayState, done: bool) -> (directive: Directive)
        ensures
            stepped(*final(self), *st, directive, on_frame(old(self)@, st@, done)),
    {
        let reply = if done {
            self.frames = self.frames.wrapping_add(1);
            self.loop_head()
        } else {
            entering(Phase::Sleeping, Request::Sleep(1))
        };
        self.step_to(reply, st, Release::Nothing)
    }

    /// Take one step: the event is what the last request brought.
    #[verifier::rlimit(30)]
    pub fn step(&mut self, st: &mut TrayState, event: EngineEvent) -> (directive: Directive)
        requires
            accepted(old(self)@.phase, event@),
        ensures
            final(self)@ == next_step(old(self)@, old(st)@, event@).engine,
            final(st)@ == next_step(old(self)@, old(st)@, event@).tray,
            directive@ == next_step(old(self)@, old(st)@, event@).directive,
    {
        match event {
            EngineEvent::ProcessorCreated(ok) => self.on_processor(st, ok),
            EngineEvent::ReferenceStarted(ok) => self.on_reference(st, ok),
            EngineEvent::ThreadsProbed { reference_finished, mic_finished } => self.on_probe(
                st,
                reference_finished,
                mic_finished,
            ),
            EngineEvent::DevicesListed(snapshot) => self.on_devices(st, snapshot),
            EngineEvent::MicStarted(ok) => self.on_mic(st, ok),
            EngineEvent::Command(command) => self.handle_command(st, command),
            EngineEvent::NoCommand => {
                let reply = self.audio_part();
                self.step_to(reply, st, Release::Nothing)
            },
            EngineEvent::Disconnected => self.on_disconnect(st),
            EngineEvent::Slept => {
                let reply = self.loop_head();
                self.step_to(reply, st, Release::Nothing)
            },
            EngineEvent::FrameProcessed(done) => self.on_frame(st, done),
            EngineEvent::SilencePlayed => {
                let reply = entering(Phase::Sleeping, Request::Sleep(10));
                self.step_to(reply, st, Release::Nothing)
            },
        }
    }
}

} // verus!
