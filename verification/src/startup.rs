//! What the program starts with: the command line, and the devices that follow
//! from it, from the saved selection and from what the system offers.
use crate::audio::device::{
    find_device_id_by_name, first_real_id, first_where, id_of, is_listed, listed, name_holds,
    text_of, the_first_match_is_found, DeviceError, DeviceInfo,
};
use crate::config::{lookup, plain, saved, saved_selection_is_restored, Config};
use crate::engine::refresh::{auto_mic_id, auto_output, auto_output_id, DeviceIds};
use crate::text;
use crate::tray::{
    action_for, MenuActionView, TrayView, ID_MIC_BASE, ID_OUTPUT_BASE, ID_RANGE, ID_SPEAKER_BASE,
};
use vstd::prelude::*;

verus! {

/// The argument asks for diagnostics.
pub open spec fn asks_verbose(arg: Seq<char>) -> bool {
    arg == "--verbose"@ || arg == "-v"@
}

/// Whether the arguments ask for diagnostics.
pub fn is_verbose(args: &[String]) -> (yes: bool)
    ensures
        yes == exists|i: int| 0 <= i < args@.len() && asks_verbose((#[trigger] args@[i])@),
{
    for i in 0..args.len()
        invariant
            forall|j: int| 0 <= j < i ==> !asks_verbose((#[trigger] args@[j])@),
    {
        let arg = args[i].as_str();
        if text::same(arg, "--verbose") || text::same(arg, "-v") {
            assert(asks_verbose(args@[i as int]@));
            return true;
        }
    }
    false
}

/// The argument is a flag.
pub open spec fn flag(arg: Seq<char>) -> bool {
    arg.len() > 0 && arg[0] == '-'
}

/// The texts of arguments.
pub open spec fn texts(args: Seq<String>) -> Seq<Seq<char>> {
    args.map_values(|arg: String| arg@)
}

/// The arguments that are no flags.
pub open spec fn positional(args: Seq<Seq<char>>) -> Seq<Seq<char>> {
    args.filter(|arg: Seq<char>| !flag(arg))
}

/// The arguments behind the program's name that are no flags.
pub fn positional_args(args: &[String]) -> (found: Vec<String>)
    requires
        args@.len() > 0,
    ensures
        texts(found@) == positional(texts(args@).skip(1)),
{
    let mut found: Vec<String> = Vec::new();
    let ghost all = texts(args@).skip(1);
    assert(all.take(0).filter(|arg: Seq<char>| !flag(arg)) =~= Seq::<Seq<char>>::empty()) by {
        reveal(Seq::filter);
    }
    for i in 1..args.len()
        invariant
            all == texts(args@).skip(1),
            texts(found@) == positional(all.take(i - 1)),
    {
        let arg = &args[i];
        proof {
            reveal(Seq::filter);
            assert(all.take(i as int).drop_last() =~= all.take(i - 1));
            assert(all.take(i as int).last() == args@[i as int]@);
        }
        let is_flag = arg.as_str().unicode_len() > 0 && arg.as_str().get_char(0) == '-';
        if !is_flag {
            found.push(arg.clone());
            assert(texts(found@) =~= positional(all.take(i as int)));
        }
    }
    assert(all.take(args@.len() - 1) =~= all);
    found
}

/// Which device of the command line is not there.
#[derive(Debug)]
pub enum StartupError {
    Mic(DeviceError),
    Speaker(DeviceError),
    Output(DeviceError),
}

impl StartupError {
    /// The message for the user: what was looked for, and why it was not found.
    pub open spec fn text(self) -> Seq<char> {
        match self {
            StartupError::Mic(cause) => "Mic device not found: "@ + cause.text(),
            StartupError::Speaker(cause) => "Speaker device not found: "@ + cause.text(),
            StartupError::Output(cause) => "Output virtual cable device not found: "@
                + cause.text(),
        }
    }

    /// The message for the user.
    pub fn message(&self) -> (message: String)
        ensures
            message@ == self.text(),
    {
        match self {
            StartupError::Mic(cause) => {
                let mut message: String = "Mic device not found: ".to_owned();
                message.append(cause.message().as_str());
                message
            },
            StartupError::Speaker(cause) => {
                let mut message: String = "Speaker device not found: ".to_owned();
                message.append(cause.message().as_str());
                message
            },
            StartupError::Output(cause) => {
                let mut message: String = "Output virtual cable device not found: ".to_owned();
                message.append(cause.message().as_str());
                message
            },
        }
    }
}

/// The report of an error that ends the program.
pub fn failure_report(error: &str) -> (report: String)
    ensures
        report@ == "rust_aec error:\n"@ + error@,
{
    let mut report: String = "rust_aec error:\n".to_owned();
    report.append(error);
    report
}

/// The device to start with: the one that the command line names; else the
/// saved one where it is listed; else the one that is chosen unasked.
pub open spec fn selected(
    query: Option<Seq<char>>,
    devices: Seq<DeviceInfo>,
    saved: Option<Seq<char>>,
    auto: Option<Seq<char>>,
) -> Option<Seq<char>> {
    match query {
        Some(q) => id_of(first_where(devices, name_holds(q))),
        None => match saved {
            Some(id) => if listed(devices, id) {
                Some(id)
            } else {
                auto
            },
            None => auto,
        },
    }
}

/// The command line names a device that is not among those that are there. Where
/// there are none at all, it is waited for.
pub open spec fn missing(query: Option<Seq<char>>, devices: Seq<DeviceInfo>) -> bool {
    query matches Some(q) && devices.len() > 0 && first_where(devices, name_holds(q)) is None
}

/// The error says that the device of the query is not there.
pub open spec fn not_found(e: DeviceError, query: Option<Seq<char>>) -> bool {
    e matches DeviceError::NoMatch(q) && query == Some(q@)
}

/// The positional argument in this place.
pub open spec fn argument(args: Seq<Seq<char>>, place: int) -> Option<Seq<char>> {
    if place < positional(args.skip(1)).len() {
        Some(positional(args.skip(1))[place])
    } else {
        None
    }
}

/// The device to start with where the command line names none.
fn saved_or_auto(devices: &[DeviceInfo], saved: Option<String>, auto: Option<String>) -> (id:
    Option<String>)
    ensures
        text_of(id) == selected(None, devices@, text_of(saved), text_of(auto)),
{
    match saved {
        Some(id) => if is_listed(devices, id.as_str()) {
            Some(id)
        } else {
            auto
        },
        None => auto,
    }
}

/// The device to start with, or the text of the command line that names none
/// that is there.
fn select(
    query: Option<&String>,
    devices: &[DeviceInfo],
    saved: Option<String>,
    auto: Option<String>,
) -> (id: Result<Option<String>, DeviceError>)
    ensures
        ({
            let asked = match query {
                Some(q) => Some(q@),
                None => None,
            };
            match id {
                Ok(found) => !missing(asked, devices@) && text_of(found) == selected(
                    asked,
                    devices@,
                    text_of(saved),
                    text_of(auto),
                ),
                Err(e) => missing(asked, devices@) && not_found(e, asked),
            }
        }),
{
    match query {
        Some(_) if devices.len() == 0 => Ok(None),
        Some(q) => match find_device_id_by_name(devices, q.as_str()) {
            Ok(id) => Ok(Some(id)),
            Err(e) => Err(e),
        },
        None => Ok(saved_or_auto(devices, saved, auto)),
    }
}

/// The positional argument in this place.
fn pick(args: &Vec<String>, place: usize) -> (arg: Option<&String>)
    ensures
        match arg {
            Some(a) => place < args@.len() && a@ == args@[place as int]@,
            None => place >= args@.len(),
        },
{
    if place < args.len() {
        Some(&args[place])
    } else {
        None
    }
}

/// Choose the devices to start with. The command line comes first, then the
/// saved selection, then what suits by itself: the first microphone that is no
/// virtual cable, the system's default speaker, and the first device with
/// "cable input" in its name as output. A device of the command line that is not
/// among those listed is an error, and microphone, speaker and output are looked
/// for in this order; where none are listed the program starts without.
pub fn select_devices(
    args: &[String],
    capture: &[DeviceInfo],
    render: &[DeviceInfo],
    config: Config,
    default_render: Option<String>,
) -> (ids: Result<DeviceIds, StartupError>)
    requires
        args@.len() > 0,
    ensures
        ({
            let mic = argument(texts(args@), 0);
            let speaker = argument(texts(args@), 1);
            let output = argument(texts(args@), 2);
            match ids {
                Ok(found) => {
                    &&& !missing(mic, capture@)
                    &&& !missing(speaker, render@)
                    &&& !missing(output, render@)
                    &&& found@.mic == selected(
                        mic,
                        capture@,
                        text_of(config.mic),
                        first_real_id(capture@),
                    )
                    &&& found@.speaker == selected(
                        speaker,
                        render@,
                        text_of(config.speaker),
                        text_of(default_render),
                    )
                    &&& found@.output == selected(
                        output,
                        render@,
                        text_of(config.output),
                        auto_output(render@),
                    )
                },
                Err(StartupError::Mic(e)) => missing(mic, capture@) && not_found(e, mic),
                Err(StartupError::Speaker(e)) => !missing(mic, capture@) && missing(
                    speaker,
                    render@,
                ) && not_found(e, speaker),
                Err(StartupError::Output(e)) => !missing(mic, capture@) && !missing(
                    speaker,
                    render@,
                ) && missing(output, render@) && not_found(e, output),
            }
        }),
{
    let given = positional_args(args);
    assert(forall|k: int|
        0 <= k < given@.len() ==> #[trigger] given@[k]@ == texts(given@)[k]);
    let mic = match select(
        pick(&given, 0),
        capture,
        config.mic,
        auto_mic_id(capture),
    ) {
        Ok(id) => id,
        Err(e) => return Err(StartupError::Mic(e)),
    };
    let speaker = match select(pick(&given, 1), render, config.speaker, default_render) {
        Ok(id) => id,
        Err(e) => return Err(StartupError::Speaker(e)),
    };
    let output = match select(pick(&given, 2), render, config.output, auto_output_id(render)) {
        Ok(id) => id,
        Err(e) => return Err(StartupError::Output(e)),
    };
    Ok(DeviceIds { mic, speaker, output })
}

/// The choice of devices survives a restart: each device that was saved is the
/// one that the next start selects, as long as it is listed and the command line
/// names none.
pub proof fn selection_survives_a_restart(
    mic: Option<Seq<char>>,
    speaker: Option<Seq<char>>,
    output: Option<Seq<char>>,
    capture: Seq<DeviceInfo>,
    render: Seq<DeviceInfo>,
    auto: Option<Seq<char>>,
)
    requires
        plain(mic),
        plain(speaker),
        plain(output),
    ensures
        ({
            let file = saved(mic, speaker, output);
            &&& mic is Some && listed(capture, mic->0) ==> selected(
                None,
                capture,
                lookup(file, "mic"@),
                auto,
            ) == mic
            &&& speaker is Some && listed(render, speaker->0) ==> selected(
                None,
                render,
                lookup(file, "speaker"@),
                auto,
            ) == speaker
            &&& output is Some && listed(render, output->0) ==> selected(
                None,
                render,
                lookup(file, "output"@),
                auto,
            ) == output
        }),
{
    saved_selection_is_restored(mic, speaker, output);
}

/// A click on a microphone lasts beyond a restart: the file that the click asks
/// to be written has the next start select that microphone, if it is listed
/// then.
pub proof fn a_clicked_microphone_is_selected_again(
    st: TrayView,
    i: int,
    capture: Seq<DeviceInfo>,
    auto: Option<Seq<char>>,
)
    requires
        0 <= i < st.capture.len(),
        i < ID_RANGE,
        plain(Some(st.capture[i].id@)),
        plain(st.current_speaker),
        plain(st.current_output),
        listed(capture, st.capture[i].id@),
    ensures
        action_for(st, (ID_MIC_BASE + i) as u32) matches MenuActionView::Select { file, .. }
            && selected(None, capture, lookup(file, "mic"@), auto) == Some(st.capture[i].id@),
{
    saved_selection_is_restored(Some(st.capture[i].id@), st.current_speaker, st.current_output);
}

/// A click on a speaker lasts beyond a restart.
pub proof fn a_clicked_speaker_is_selected_again(
    st: TrayView,
    i: int,
    render: Seq<DeviceInfo>,
    auto: Option<Seq<char>>,
)
    requires
        0 <= i < st.render.len(),
        i < ID_RANGE,
        plain(st.current_mic),
        plain(Some(st.render[i].id@)),
        plain(st.current_output),
        listed(render, st.render[i].id@),
    ensures
        action_for(st, (ID_SPEAKER_BASE + i) as u32) matches MenuActionView::Select { file, .. }
            && selected(None, render, lookup(file, "speaker"@), auto) == Some(st.render[i].id@),
{
    saved_selection_is_restored(st.current_mic, Some(st.render[i].id@), st.current_output);
}

/// A click on an output lasts beyond a restart.
pub proof fn a_clicked_output_is_selected_again(
    st: TrayView,
    i: int,
    render: Seq<DeviceInfo>,
    auto: Option<Seq<char>>,
)
    requires
        0 <= i < st.render.len(),
        i < ID_RANGE,
        plain(st.current_mic),
        plain(st.current_speaker),
        plain(Some(st.render[i].id@)),
        listed(render, st.render[i].id@),
    ensures
        action_for(st, (ID_OUTPUT_BASE + i) as u32) matches MenuActionView::Select { file, .. }
            && selected(None, render, lookup(file, "output"@), auto) == Some(st.render[i].id@),
{
    saved_selection_is_restored(st.current_mic, st.current_speaker, Some(st.render[i].id@));
}

/// The command line outranks what is saved, and what is saved outranks what
/// would be chosen unasked: neither matters where something before it decides.
pub proof fn selection_follows_its_order(
    query: Seq<char>,
    devices: Seq<DeviceInfo>,
    saved_id: Option<Seq<char>>,
    other_saved: Option<Seq<char>>,
    auto: Option<Seq<char>>,
    other_auto: Option<Seq<char>>,
)
    ensures
        selected(Some(query), devices, saved_id, auto) == selected(
            Some(query),
            devices,
            other_saved,
            other_auto,
        ),
        saved_id matches Some(id) && listed(devices, id) ==> selected(
            None,
            devices,
            saved_id,
            auto,
        ) == selected(None, devices, saved_id, other_auto),
        !(saved_id matches Some(id) && listed(devices, id)) ==> selected(
            None,
            devices,
            saved_id,
            auto,
        ) == auto,
{
}

/// A start with no devices at all never fails: whatever the command line names
/// and whatever is saved, there is nothing that is missing, and the microphone
/// and the output are waited for.
pub proof fn a_start_without_devices_waits(
    query: Option<Seq<char>>,
    saved_id: Option<Seq<char>>,
)
    ensures
        !missing(query, Seq::<DeviceInfo>::empty()),
        selected(
            query,
            Seq::<DeviceInfo>::empty(),
            saved_id,
            first_real_id(Seq::<DeviceInfo>::empty()),
        ) is None,
        selected(
            query,
            Seq::<DeviceInfo>::empty(),
            saved_id,
            auto_output(Seq::<DeviceInfo>::empty()),
        ) is None,
{
}

/// The flags for diagnostics are just these two.
pub proof fn two_flags_ask_for_diagnostics(arg: Seq<char>)
    ensures
        asks_verbose(arg) <==> arg == "--verbose"@ || arg == "-v"@,
{
}

/// The arguments that count are those that do not start with a dash, in their
/// order, each as it is.
pub proof fn arguments_without_a_dash_count(args: Seq<Seq<char>>, arg: Seq<char>)
    ensures
        positional(Seq::<Seq<char>>::empty()).len() == 0,
        arg.len() > 0 && arg[0] == '-' ==> positional(args.push(arg)) == positional(args),
        arg.len() == 0 || arg[0] != '-' ==> positional(args.push(arg)) == positional(args).push(
            arg,
        ),
{
    reveal(Seq::filter);
    assert(args.push(arg).drop_last() =~= args);
}

/// The arguments are counted behind the program's name, whatever that is.
pub proof fn arguments_are_counted_behind_the_name(
    name: Seq<char>,
    args: Seq<Seq<char>>,
    place: int,
)
    requires
        0 <= place,
    ensures
        place < positional(args).len() ==> argument(seq![name] + args, place) == Some(
            positional(args)[place],
        ),
        place >= positional(args).len() ==> argument(seq![name] + args, place) is None,
{
    assert((seq![name] + args).skip(1) =~= args);
}

/// The texts of the arguments are those of their strings, in order.
pub proof fn arguments_are_read_as_they_are(args: Seq<String>)
    ensures
        texts(args).len() == args.len(),
        forall|i: int| 0 <= i < args.len() ==> #[trigger] texts(args)[i] == args[i]@,
{
}

/// The first device whose name holds the argument is selected, whatever is saved;
/// without an argument the saved device is where it is listed; and else what is
/// chosen unasked.
pub proof fn selection_goes_by_name_then_by_id(
    devices: Seq<DeviceInfo>,
    query: Seq<char>,
    saved_id: Option<Seq<char>>,
    auto: Option<Seq<char>>,
    i: int,
)
    ensures
        0 <= i < devices.len() && name_holds(query)(devices[i]) && (forall|j: int|
            0 <= j < i ==> !name_holds(query)(#[trigger] devices[j])) ==> {
            &&& selected(Some(query), devices, saved_id, auto) == Some(devices[i].id@)
            &&& !missing(Some(query), devices)
        },
        devices.len() > 0 && (forall|j: int|
            0 <= j < devices.len() ==> !name_holds(query)(#[trigger] devices[j])) ==> missing(
            Some(query),
            devices,
        ),
        !missing(None, devices),
        0 <= i < devices.len() && saved_id == Some(devices[i].id@) ==> selected(
            None,
            devices,
            saved_id,
            auto,
        ) == saved_id,
        (forall|j: int| 0 <= j < devices.len() ==> saved_id != Some((#[trigger] devices[j]).id@))
            ==> selected(None, devices, saved_id, auto) == auto,
{
    the_first_match_is_found(devices, query, i);
}

/// The output that is chosen unasked is the first device with "cable input" in
/// its name.
pub proof fn the_first_cable_input_is_the_output(devices: Seq<DeviceInfo>, i: int)
    ensures
        0 <= i < devices.len() && name_holds("cable input"@)(devices[i]) && (forall|j: int|
            0 <= j < i ==> !name_holds("cable input"@)(#[trigger] devices[j])) ==> auto_output(
            devices,
        ) == Some(devices[i].id@),
        (forall|j: int|
            0 <= j < devices.len() ==> !name_holds("cable input"@)(#[trigger] devices[j]))
            ==> auto_output(devices) is None,
{
    the_first_match_is_found(devices, "cable input"@, i);
}

/// The error is about the argument that found nothing, and its message says which
/// device was looked for and why it was not found.
pub proof fn errors_name_the_argument(e: DeviceError, query: Seq<char>, text: String)
    ensures
        not_found(e, Some(query)) <==> (e matches DeviceError::NoMatch(q) && q@ == query),
        !not_found(e, None),
        StartupError::Mic(DeviceError::NoMatch(text)).text()
            == "Mic device not found: "@ + ("No device matching '"@ + text@ + "' found"@),
        StartupError::Speaker(DeviceError::NoMatch(text)).text()
            == "Speaker device not found: "@ + ("No device matching '"@ + text@ + "' found"@),
        StartupError::Output(DeviceError::NoMatch(text)).text()
            == "Output virtual cable device not found: "@ + ("No device matching '"@ + text@
            + "' found"@),
{
}

} // verus!
