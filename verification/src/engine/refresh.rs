//! Which devices the engine uses: those that were asked for, else those in use,
//! else those that suit by themselves.
use crate::audio::device::{
    cable_name, find_by_id, find_device_id_by_name, find_real_capture_device,
    find_real_render_device, first_real_id, first_where, has_id, id_of, is_auto_speaker_excluded,
    is_listed, listed, name_holds, text_of, DeviceInfo,
};
use crate::tray::{TrayState, TrayView};
use vstd::prelude::*;

verus! {

/// What a look at the system's audio devices brought: the lists, where they
/// could be read, and the default speaker, where there is one.
pub struct DeviceSnapshot {
    pub capture: Option<Vec<DeviceInfo>>,
    pub render: Option<Vec<DeviceInfo>>,
    pub default_render: Option<String>,
}

pub struct SnapshotView {
    pub capture: Option<Seq<DeviceInfo>>,
    pub render: Option<Seq<DeviceInfo>>,
    pub default_render: Option<Seq<char>>,
}

/// The devices of an optional list.
pub open spec fn list_of(list: Option<Vec<DeviceInfo>>) -> Option<Seq<DeviceInfo>> {
    match list {
        Some(l) => Some(l@),
        None => None,
    }
}

impl View for DeviceSnapshot {
    type V = SnapshotView;

    open spec fn view(&self) -> SnapshotView {
        SnapshotView {
            capture: list_of(self.capture),
            render: list_of(self.render),
            default_render: text_of(self.default_render),
        }
    }
}

/// The speaker that is chosen unasked: the system's default where it is listed
/// and no virtual cable, else the first that is no virtual cable.
pub open spec fn auto_speaker(devices: Seq<DeviceInfo>, default: Option<Seq<char>>) -> Option<
    Seq<char>,
> {
    let fallback = first_real_id(devices);
    match default {
        Some(id) => match first_where(devices, has_id(id)) {
            Some(d) => if cable_name(d.name@) {
                fallback
            } else {
                Some(id)
            },
            None => fallback,
        },
        None => fallback,
    }
}

/// The output that is chosen unasked: the first device whose name holds
/// "cable input".
pub open spec fn auto_output(devices: Seq<DeviceInfo>) -> Option<Seq<char>> {
    id_of(first_where(devices, name_holds("cable input"@)))
}

/// The microphone that is chosen unasked: the first that is no virtual cable.
pub fn auto_mic_id(capture: &[DeviceInfo]) -> (id: Option<String>)
    ensures
        text_of(id) == first_real_id(capture@),
{
    find_real_capture_device(capture).ok()
}

/// The speaker that is chosen unasked.
pub fn auto_speaker_id(render: &[DeviceInfo], default: &Option<String>) -> (id: Option<String>)
    ensures
        text_of(id) == auto_speaker(render@, text_of(*default)),
{
    match default {
        Some(default_id) => match find_by_id(render, default_id.as_str()) {
            Some(i) => if !is_auto_speaker_excluded(render[i].name.as_str()) {
                Some(default_id.clone())
            } else {
                find_real_render_device(render).ok()
            },
            None => find_real_render_device(render).ok(),
        },
        None => find_real_render_device(render).ok(),
    }
}

/// The output that is chosen unasked.
pub fn auto_output_id(render: &[DeviceInfo]) -> (id: Option<String>)
    ensures
        text_of(id) == auto_output(render@),
{
    find_device_id_by_name(render, "cable input").ok()
}

/// The device to use after a look at the devices: the wanted one, or none while
/// it is away; where none is wanted, the one in use if it is still there, else
/// the one chosen unasked.
pub open spec fn chosen(
    preferred: Option<Seq<char>>,
    current: Option<Seq<char>>,
    devices: Seq<DeviceInfo>,
    auto: Option<Seq<char>>,
) -> Option<Seq<char>> {
    match preferred {
        Some(id) => if listed(devices, id) {
            Some(id)
        } else {
            None
        },
        None => match current {
            Some(id) => if listed(devices, id) {
                Some(id)
            } else {
                auto
            },
            None => auto,
        },
    }
}

/// Choose the device to use after a look at the devices.
fn choose_device(
    preferred: &Option<String>,
    current: &Option<String>,
    devices: &[DeviceInfo],
    auto: Option<String>,
) -> (id: Option<String>)
    ensures
        text_of(id) == chosen(text_of(*preferred), text_of(*current), devices@, text_of(auto)),
{
    match preferred {
        Some(id) => if is_listed(devices, id.as_str()) {
            Some(id.clone())
        } else {
            None
        },
        None => match current {
            Some(id) => if is_listed(devices, id.as_str()) {
                Some(id.clone())
            } else {
                auto
            },
            None => auto,
        },
    }
}

/// The devices that the engine works with.
pub struct DeviceIds {
    pub mic: Option<String>,
    pub speaker: Option<String>,
    pub output: Option<String>,
}

pub struct IdsView {
    pub mic: Option<Seq<char>>,
    pub speaker: Option<Seq<char>>,
    pub output: Option<Seq<char>>,
}

impl View for DeviceIds {
    type V = IdsView;

    open spec fn view(&self) -> IdsView {
        IdsView {
            mic: text_of(self.mic),
            speaker: text_of(self.speaker),
            output: text_of(self.output),
        }
    }
}

/// The first of two optional identifiers that is there.
pub open spec fn or_else(a: Option<Seq<char>>, b: Option<Seq<char>>) -> Option<Seq<char>> {
    match a {
        Some(id) => Some(id),
        None => b,
    }
}

/// The lists after a look at the devices: a list that could not be read stays
/// as it was.
pub open spec fn capture_list(t: TrayView, s: SnapshotView) -> Seq<DeviceInfo> {
    match s.capture {
        Some(l) => l,
        None => t.capture,
    }
}

pub open spec fn render_list(t: TrayView, s: SnapshotView) -> Seq<DeviceInfo> {
    match s.render {
        Some(l) => l,
        None => t.render,
    }
}

/// The devices to use after a look at the devices.
pub open spec fn refreshed_ids(t: TrayView, s: SnapshotView, ids: IdsView) -> IdsView {
    let capture = capture_list(t, s);
    let render = render_list(t, s);
    IdsView {
        mic: chosen(t.preferred_mic, ids.mic, capture, first_real_id(capture)),
        speaker: chosen(
            t.preferred_speaker,
            ids.speaker,
            render,
            auto_speaker(render, s.default_render),
        ),
        output: chosen(t.preferred_output, ids.output, render, auto_output(render)),
    }
}

/// The shared state after a look at the devices: the new lists, the devices to
/// use, and what was chosen as wanted where nothing was.
pub open spec fn refreshed_tray(t: TrayView, s: SnapshotView, ids: IdsView) -> TrayView {
    let new = refreshed_ids(t, s, ids);
    TrayView {
        capture: capture_list(t, s),
        render: render_list(t, s),
        current_mic: new.mic,
        current_speaker: new.speaker,
        current_output: new.output,
        preferred_mic: or_else(t.preferred_mic, new.mic),
        preferred_speaker: or_else(t.preferred_speaker, new.speaker),
        preferred_output: or_else(t.preferred_output, new.output),
    }
}

/// Take a look at the devices into account, keeping devices in use where that is
/// possible.
pub fn refresh_devices_preserving(
    st: &mut TrayState,
    snapshot: DeviceSnapshot,
    ids: &DeviceIds,
) -> (new: DeviceIds)
    ensures
        new@ == refreshed_ids(old(st)@, snapshot@, ids@),
        final(st)@ == refreshed_tray(old(st)@, snapshot@, ids@),
{
    if let Some(capture) = snapshot.capture {
        st.capture_devices = capture;
    }
    if let Some(render) = snapshot.render {
        st.render_devices = render;
    }
    let auto_mic = auto_mic_id(st.capture_devices.as_slice());
    let mic = choose_device(
        &st.preferred_mic_id,
        &ids.mic,
        st.capture_devices.as_slice(),
        auto_mic,
    );
    let auto_speaker = auto_speaker_id(st.render_devices.as_slice(), &snapshot.default_render);
    let speaker = choose_device(
        &st.preferred_speaker_id,
        &ids.speaker,
        st.render_devices.as_slice(),
        auto_speaker,
    );
    let auto_output = auto_output_id(st.render_devices.as_slice());
    let output = choose_device(
        &st.preferred_output_id,
        &ids.output,
        st.render_devices.as_slice(),
        auto_output,
    );
    if st.preferred_mic_id.is_none() {
        st.preferred_mic_id = mic.clone();
    }
    if st.preferred_speaker_id.is_none() {
        st.preferred_speaker_id = speaker.clone();
    }
    if st.preferred_output_id.is_none() {
        st.preferred_output_id = output.clone();
    }
    st.current_mic_id = mic.clone();
    st.current_speaker_id = speaker.clone();
    st.current_output_id = output.clone();
    DeviceIds { mic, speaker, output }
}

/// A look at the devices counts as it was reported: a list that was read is taken
/// even where it is empty, and only one that was not read is missing; and the
/// devices in use are the ones that are named.
pub proof fn a_look_counts_as_it_was_reported(
    snapshot: DeviceSnapshot,
    ids: DeviceIds,
    list: Vec<DeviceInfo>,
    id: String,
)
    ensures
        snapshot.capture == Some(list) ==> snapshot@.capture == Some(list@),
        snapshot.capture is None ==> snapshot@.capture is None,
        snapshot.render == Some(list) ==> snapshot@.render == Some(list@),
        snapshot.render is None ==> snapshot@.render is None,
        snapshot.default_render == Some(id) ==> snapshot@.default_render == Some(id@),
        snapshot.default_render is None ==> snapshot@.default_render is None,
        ids.mic == Some(id) ==> ids@.mic == Some(id@),
        ids.mic is None ==> ids@.mic is None,
        ids.speaker == Some(id) ==> ids@.speaker == Some(id@),
        ids.speaker is None ==> ids@.speaker is None,
        ids.output == Some(id) ==> ids@.output == Some(id@),
        ids.output is None ==> ids@.output is None,
{
}

} // verus!
