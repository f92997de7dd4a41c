//! Audio endpoints and how one is chosen by name, by identifier or by itself.
use crate::text;
use vstd::prelude::*;

verus! {

/// Information about an audio endpoint.
#[derive(Debug, Clone)]
pub struct DeviceInfo {
    pub index: usize,
    pub name: String,
    pub id: String,
}

/// Why no endpoint was chosen.
#[derive(Debug)]
pub enum DeviceError {
    /// No endpoint's name holds the text that was asked for.
    NoMatch(String),
    /// Every capture endpoint looks like a virtual cable.
    NoRealMicrophone,
    /// Every render endpoint looks like a virtual cable.
    NoRealSpeaker,
}

impl DeviceError {
    /// The message for the user.
    pub open spec fn text(self) -> Seq<char> {
        match self {
            DeviceError::NoMatch(query) => "No device matching '"@ + query@ + "' found"@,
            DeviceError::NoRealMicrophone =>
                "No real microphone found (all capture devices appear to be virtual cables)"@,
            DeviceError::NoRealSpeaker =>
                "No real speaker found (all render devices appear to be virtual cables)"@,
        }
    }

    /// The message for the user.
    pub fn message(&self) -> (message: String)
        ensures
            message@ == self.text(),
    {
        match self {
            DeviceError::NoMatch(query) => {
                let mut message: String = "No device matching '".to_owned();
                message.append(query.as_str());
                message.append("' found");
                message
            },
            DeviceError::NoRealMicrophone =>
                "No real microphone found (all capture devices appear to be virtual cables)".to_owned(),
            DeviceError::NoRealSpeaker =>
                "No real speaker found (all render devices appear to be virtual cables)".to_owned(),
        }
    }
}

/// The text inside an optional string.
pub open spec fn text_of(value: Option<String>) -> Option<Seq<char>> {
    match value {
        Some(s) => Some(s@),
        None => None,
    }
}

/// The text inside an optional string slice.
pub open spec fn slice_of(value: Option<&str>) -> Option<Seq<char>> {
    match value {
        Some(s) => Some(s@),
        None => None,
    }
}

/// The first endpoint of a list that passes a test.
pub open spec fn first_where(
    devices: Seq<DeviceInfo>,
    test: spec_fn(DeviceInfo) -> bool,
) -> Option<DeviceInfo>
    decreases devices.len(),
{
    if devices.len() == 0 {
        None
    } else if test(devices[0]) {
        Some(devices[0])
    } else {
        first_where(devices.drop_first(), test)
    }
}

/// The identifier of an endpoint that may have been found.
pub open spec fn id_of(found: Option<DeviceInfo>) -> Option<Seq<char>> {
    match found {
        Some(d) => Some(d.id@),
        None => None,
    }
}

/// `first_where` finds an endpoint exactly where one passes, and then the one
/// that stands first.
pub proof fn first_where_is_first(devices: Seq<DeviceInfo>, test: spec_fn(DeviceInfo) -> bool)
    ensures
        match first_where(devices, test) {
            Some(d) => exists|i: int|
                0 <= i < devices.len() && devices[i] == d && test(d) && forall|j: int|
                    0 <= j < i ==> !test(devices[j]),
            None => forall|i: int| 0 <= i < devices.len() ==> !test(devices[i]),
        },
    decreases devices.len(),
{
    if devices.len() == 0 {
    } else if test(devices[0]) {
        assert(devices[0] == first_where(devices, test)->0);
    } else {
        let rest = devices.drop_first();
        first_where_is_first(rest, test);
        match first_where(rest, test) {
            Some(d) => {
                let i = choose|i: int|
                    0 <= i < rest.len() && rest[i] == d && test(d) && forall|j: int|
                        0 <= j < i ==> !test(rest[j]);
                assert(devices[i + 1] == d);
                assert forall|j: int| 0 <= j < i + 1 implies !test(devices[j]) by {
                    if j > 0 {
                        assert(rest[j - 1] == devices[j]);
                    }
                }
            },
            None => {
                assert forall|i: int| 0 <= i < devices.len() implies !test(devices[i]) by {
                    if i > 0 {
                        assert(rest[i - 1] == devices[i]);
                    }
                }
            },
        }
    }
}

/// Skipping an endpoint that fails the test does not change what is found.
proof fn first_where_skip(
    devices: Seq<DeviceInfo>,
    test: spec_fn(DeviceInfo) -> bool,
    i: int,
)
    requires
        0 <= i < devices.len(),
    ensures
        test(devices[i]) ==> first_where(devices.skip(i), test) == Some(devices[i]),
        !test(devices[i]) ==> first_where(devices.skip(i), test) == first_where(
            devices.skip(i + 1),
            test,
        ),
{
    assert(devices.skip(i)[0] == devices[i]);
    assert(devices.skip(i).drop_first() =~= devices.skip(i + 1));
}

/// The name of an endpoint holds the query, whatever the case of either.
pub open spec fn name_holds(query: Seq<char>) -> spec_fn(DeviceInfo) -> bool {
    |d: DeviceInfo| text::is_infix(text::lowered(d.name@), text::lowered(query))
}

/// The endpoint carries this identifier.
pub open spec fn has_id(id: Seq<char>) -> spec_fn(DeviceInfo) -> bool {
    |d: DeviceInfo| d.id@ == id
}

/// The name holds "cable", whatever the case of these letters.
pub open spec fn says_cable(name: Seq<char>) -> bool {
    text::is_infix(text::ascii_lowered(name), "cable"@)
}

/// The name looks like that of a virtual audio cable: it, or its lower case,
/// holds "cable". For an ASCII name the two come to the same.
pub open spec fn cable_name(name: Seq<char>) -> bool {
    says_cable(name) || text::is_infix(text::lowered(name), "cable"@)
}

/// The endpoint does not look like a virtual audio cable.
pub open spec fn real_device() -> spec_fn(DeviceInfo) -> bool {
    |d: DeviceInfo| !cable_name(d.name@)
}

/// The identifier of the first endpoint that is no virtual cable.
pub open spec fn first_real_id(devices: Seq<DeviceInfo>) -> Option<Seq<char>> {
    id_of(first_where(devices, real_device()))
}

/// Some endpoint of the list carries this identifier.
pub open spec fn listed(devices: Seq<DeviceInfo>, id: Seq<char>) -> bool {
    exists|i: int| 0 <= i < devices.len() && (#[trigger] devices[i]).id@ == id
}

/// An endpoint as the enumeration reports it; one whose name cannot be read is
/// called after its index.
pub fn describe_device(index: u32, name: Option<String>, id: String) -> (device: DeviceInfo)
    ensures
        device.index == index,
        device.id == id,
        device.name@ == match name {
            Some(n) => n@,
            None => "Device "@ + text::decimal(index as nat),
        },
{
    let name = match name {
        Some(n) => n,
        None => {
            let mut fallback: String = "Device ".to_owned();
            fallback.append(text::decimal_text(index).as_str());
            fallback
        },
    };
    DeviceInfo { index: index as usize, name, id }
}

proof fn cable_is_ascii()
    ensures
        text::ascii_text("cable"@),
{
    reveal_strlit("cable");
}

/// Returns true if the device name looks like a virtual audio cable.
pub fn is_virtual_cable(name: &str) -> (cable: bool)
    ensures
        cable == cable_name(name@),
{
    let lower = name.to_lowercase();
    proof {
        cable_is_ascii();
    }
    text::contains(lower.as_str(), "cable")
}

/// Returns true if a device of this name is never chosen as speaker unasked.
pub fn is_auto_speaker_excluded(name: &str) -> (excluded: bool)
    ensures
        excluded == cable_name(name@),
{
    is_virtual_cable(name)
}

/// The place of the first text that holds a part.
pub fn first_holding(texts: &Vec<String>, part: &str) -> (place: Option<usize>)
    ensures
        match place {
            Some(i) => {
                &&& i < texts@.len()
                &&& text::is_infix(texts@[i as int]@, part@)
                &&& forall|j: int| 0 <= j < i ==> !text::is_infix(#[trigger] texts@[j]@, part@)
            },
            None => forall|j: int|
                0 <= j < texts@.len() ==> !text::is_infix(#[trigger] texts@[j]@, part@),
        },
{
    for i in 0..texts.len()
        invariant
            forall|j: int| 0 <= j < i ==> !text::is_infix(#[trigger] texts@[j]@, part@),
    {
        if text::contains(texts[i].as_str(), part) {
            return Some(i);
        }
    }
    None
}

/// The place of the first text that does not hold a part.
pub fn first_lacking(texts: &Vec<String>, part: &str) -> (place: Option<usize>)
    ensures
        match place {
            Some(i) => {
                &&& i < texts@.len()
                &&& !text::is_infix(texts@[i as int]@, part@)
                &&& forall|j: int| 0 <= j < i ==> text::is_infix(#[trigger] texts@[j]@, part@)
            },
            None => forall|j: int|
                0 <= j < texts@.len() ==> text::is_infix(#[trigger] texts@[j]@, part@),
        },
{
    for i in 0..texts.len()
        invariant
            forall|j: int| 0 <= j < i ==> text::is_infix(#[trigger] texts@[j]@, part@),
    {
        if !text::contains(texts[i].as_str(), part) {
            return Some(i);
        }
    }
    None
}

/// The text is a name in lower case, and says "cable" where the name does.
spec fn lower_of(name: Seq<char>, lower: Seq<char>) -> bool {
    &&& lower == text::lowered(name)
    &&& says_cable(name) ==> text::is_infix(lower, "cable"@)
}

/// The names of devices in lower case.
fn lower_names(devices: &[DeviceInfo]) -> (names: Vec<String>)
    ensures
        names@.len() == devices@.len(),
        forall|i: int|
            0 <= i < devices@.len() ==> lower_of(devices@[i].name@, (#[trigger] names@[i])@),
{
    let mut names: Vec<String> = Vec::new();
    for i in 0..devices.len()
        invariant
            names@.len() == i,
            forall|j: int|
                0 <= j < i ==> lower_of(devices@[j].name@, (#[trigger] names@[j])@),
    {
        proof {
            cable_is_ascii();
        }
        names.push(devices[i].name.as_str().to_lowercase());
    }
    names
}

/// What `first_where` finds, from the place of the first device that passes.
pub proof fn first_where_at(
    devices: Seq<DeviceInfo>,
    test: spec_fn(DeviceInfo) -> bool,
    place: Option<int>,
)
    requires
        match place {
            Some(i) => 0 <= i < devices.len() && test(devices[i]) && forall|j: int|
                0 <= j < i ==> !test(#[trigger] devices[j]),
            None => forall|j: int| 0 <= j < devices.len() ==> !test(#[trigger] devices[j]),
        },
    ensures
        first_where(devices, test) == match place {
            Some(i) => Some(devices[i]),
            None => None,
        },
{
    first_where_is_first(devices, test);
    if let Some(i) = place {
        assert(test(devices[i]));
        let found = first_where(devices, test)->0;
        let k = choose|k: int|
            0 <= k < devices.len() && devices[k] == found && test(found) && forall|j: int|
                0 <= j < k ==> !test(devices[j]);
        assert(k == i) by {
            if k < i {
                assert(!test(devices[k]));
            }
        }
    }
}

/// Find a device by substring of its friendly name (case-insensitive). Returns its ID.
pub fn find_device_id_by_name(devices: &[DeviceInfo], query: &str) -> (found: Result<
    String,
    DeviceError,
>)
    ensures
        match found {
            Ok(id) => id_of(first_where(devices@, name_holds(query@))) == Some(id@),
            Err(e) => {
                &&& first_where(devices@, name_holds(query@)) is None
                &&& e matches DeviceError::NoMatch(q) && q@ == query@
            },
        },
{
    let query_lower = query.to_lowercase();
    let names = lower_names(devices);
    let place = first_holding(&names, query_lower.as_str());
    proof {
        let test = name_holds(query@);
        assert forall|j: int| 0 <= j < devices@.len() implies test(#[trigger] devices@[j])
            == text::is_infix(names@[j]@, query_lower@) by {
            assert(lower_of(devices@[j].name@, names@[j]@));
        }
        first_where_at(
            devices@,
            test,
            match place {
                Some(i) => Some(i as int),
                None => None,
            },
        );
    }
    match place {
        Some(i) => Ok(devices[i].id.clone()),
        None => Err(DeviceError::NoMatch(query.to_owned())),
    }
}

/// Devices that are listed later do not change what has been found.
pub proof fn later_devices_change_nothing(
    devices: Seq<DeviceInfo>,
    more: Seq<DeviceInfo>,
    test: spec_fn(DeviceInfo) -> bool,
)
    requires
        first_where(devices, test) is Some,
    ensures
        first_where(devices + more, test) == first_where(devices, test),
    decreases devices.len(),
{
    assert((devices + more)[0] == devices[0]);
    if !test(devices[0]) {
        assert((devices + more).drop_first() =~= devices.drop_first() + more);
        later_devices_change_nothing(devices.drop_first(), more, test);
    }
}

/// A device that a query has found is found again by a query that differs at
/// most in the case of its letters from A to Z, and whatever devices are listed
/// behind.
pub proof fn an_answer_stands(
    devices: Seq<DeviceInfo>,
    more: Seq<DeviceInfo>,
    query: Seq<char>,
    other: Seq<char>,
)
    requires
        first_where(devices, name_holds(query)) is Some,
        text::same_but_for_case(query, other),
    ensures
        first_where(devices + more, name_holds(other)) == first_where(devices, name_holds(query)),
{
    text::case_is_lost(query, other);
    assert(name_holds(query) =~= name_holds(other));
    later_devices_change_nothing(devices, more, name_holds(query));
}

/// The case of letters from A to Z makes no difference: names that differ in
/// nothing else are found by the same queries and are both a cable's or both
/// not.
pub proof fn case_does_not_matter(a: DeviceInfo, b: DeviceInfo, query: Seq<char>)
    requires
        text::same_but_for_case(a.name@, b.name@),
    ensures
        name_holds(query)(a) == name_holds(query)(b),
        cable_name(a.name@) == cable_name(b.name@),
{
    text::case_is_lost(a.name@, b.name@);
}

/// An ASCII name is a cable's exactly where it holds "cable" in whatever case,
/// and any name that does is a cable's.
pub proof fn cables_say_so(name: Seq<char>)
    ensures
        text::ascii_text(name) ==> cable_name(name) == says_cable(name),
        says_cable(name) ==> cable_name(name),
{
}

/// A name is a cable's wherever a cable's name stands in it. Of the part only
/// ASCII names are considered, and others that hold "cable" in whatever case.
pub proof fn a_longer_name_is_still_a_cable(
    before: Seq<char>,
    name: Seq<char>,
    after: Seq<char>,
)
    requires
        cable_name(name),
        text::ascii_text(name) || says_cable(name),
    ensures
        cable_name(before + name + after),
{
    text::infix_of_longer(
        text::ascii_lowered(before),
        text::ascii_lowered(name),
        text::ascii_lowered(after),
        "cable"@,
    );
    assert(text::ascii_lowered(before + name + after) =~= text::ascii_lowered(before)
        + text::ascii_lowered(name) + text::ascii_lowered(after));
}

/// The identifier of the first device that is no virtual cable.
fn first_real(devices: &[DeviceInfo]) -> (found: Option<String>)
    ensures
        text_of(found) == id_of(first_where(devices@, real_device())),
{
    let names = lower_names(devices);
    let place = first_lacking(&names, "cable");
    proof {
        let test = real_device();
        assert forall|j: int| 0 <= j < devices@.len() implies test(#[trigger] devices@[j])
            == !text::is_infix(names@[j]@, "cable"@) by {
            assert(lower_of(devices@[j].name@, names@[j]@));
        }
        first_where_at(
            devices@,
            test,
            match place {
                Some(i) => Some(i as int),
                None => None,
            },
        );
    }
    match place {
        Some(i) => Some(devices[i].id.clone()),
        None => None,
    }
}

/// Find the first real (non-virtual-cable) capture device. Returns its ID.
pub fn find_real_capture_device(devices: &[DeviceInfo]) -> (found: Result<String, DeviceError>)
    ensures
        match found {
            Ok(id) => id_of(first_where(devices@, real_device())) == Some(id@),
            Err(e) => first_where(devices@, real_device()) is None && e
                == DeviceError::NoRealMicrophone,
        },
{
    match first_real(devices) {
        Some(id) => Ok(id),
        None => Err(DeviceError::NoRealMicrophone),
    }
}

/// Find the first real (non-virtual-cable) render device. Returns its ID.
pub fn find_real_render_device(devices: &[DeviceInfo]) -> (found: Result<String, DeviceError>)
    ensures
        match found {
            Ok(id) => id_of(first_where(devices@, real_device())) == Some(id@),
            Err(e) => first_where(devices@, real_device()) is None && e
                == DeviceError::NoRealSpeaker,
        },
{
    match first_real(devices) {
        Some(id) => Ok(id),
        None => Err(DeviceError::NoRealSpeaker),
    }
}

/// The name that the list gives an identifier, or "Unknown".
pub open spec fn name_by_id(devices: Seq<DeviceInfo>, id: Seq<char>) -> Seq<char> {
    match first_where(devices, has_id(id)) {
        Some(d) => d.name@,
        None => "Unknown"@,
    }
}

/// Find a device by its ID. Returns its place.
pub(crate) fn find_by_id(devices: &[DeviceInfo], id: &str) -> (found: Option<usize>)
    ensures
        match found {
            Some(i) => i < devices@.len() && first_where(devices@, has_id(id@)) == Some(
                devices@[i as int],
            ),
            None => first_where(devices@, has_id(id@)) is None,
        },
{
    assert(devices@.skip(0) =~= devices@);
    for i in 0..devices.len()
        invariant
            first_where(devices@, has_id(id@)) == first_where(
                devices@.skip(i as int),
                has_id(id@),
            ),
    {
        proof {
            first_where_skip(devices@, has_id(id@), i as int);
        }
        if text::same(devices[i].id.as_str(), id) {
            return Some(i);
        }
    }
    None
}

/// Get the device name for a given device ID, or "Unknown" if not found.
pub fn device_name_by_id(devices: &[DeviceInfo], id: &str) -> (name: String)
    ensures
        name@ == name_by_id(devices@, id@),
{
    match find_by_id(devices, id) {
        Some(i) => devices[i].name.clone(),
        None => "Unknown".to_owned(),
    }
}

/// Whether some device of the list carries this ID.
pub fn is_listed(devices: &[DeviceInfo], id: &str) -> (found: bool)
    ensures
        found == listed(devices@, id@),
{
    for i in 0..devices.len()
        invariant
            forall|j: int| 0 <= j < i ==> (#[trigger] devices@[j]).id@ != id@,
    {
        if text::same(devices[i].id.as_str(), id) {
            return true;
        }
    }
    false
}

/// The identifier of an endpoint that was found in a list stands in that list.
pub proof fn found_is_listed(devices: Seq<DeviceInfo>, test: spec_fn(DeviceInfo) -> bool)
    ensures
        first_where(devices, test) matches Some(d) ==> listed(devices, d.id@),
{
    first_where_is_first(devices, test);
}

/// The microphone that is chosen unasked is no virtual cable, and one is chosen
/// wherever the list holds one that is none.
pub proof fn unasked_microphone_is_no_cable(capture: Seq<DeviceInfo>)
    ensures
        match first_real_id(capture) {
            Some(id) => exists|i: int|
                0 <= i < capture.len() && (#[trigger] capture[i]).id@ == id && !cable_name(
                    capture[i].name@,
                ) && forall|j: int| 0 <= j < i ==> cable_name((#[trigger] capture[j]).name@),
            None => forall|i: int|
                0 <= i < capture.len() ==> cable_name((#[trigger] capture[i]).name@),
        },
{
    first_where_is_first(capture, real_device());
    if let Some(d) = first_where(capture, real_device()) {
        let i = choose|i: int|
            0 <= i < capture.len() && capture[i] == d && real_device()(d) && forall|j: int|
                0 <= j < i ==> !real_device()(capture[j]);
        assert forall|j: int| 0 <= j < i implies cable_name((#[trigger] capture[j]).name@) by {
            assert(!real_device()(capture[j]));
        }
        assert(capture[i].id@ == d.id@);
    }
}

/// A query finds a name where the name repeats the query's characters in a row,
/// both in lower case; between ASCII texts, where it repeats its letters in
/// whatever case.
pub proof fn a_query_is_spelled_in_the_name(device: DeviceInfo, query: Seq<char>)
    ensures
        name_holds(query)(device) <==> exists|at: int|
            text::runs_at(text::lowered(device.name@), text::lowered(query), at),
        text::ascii_text(device.name@) && text::ascii_text(query) ==> (name_holds(query)(device)
            <==> exists|at: int| text::spelled_at(device.name@, query, at)),
{
    text::a_part_is_a_run(text::lowered(device.name@), text::lowered(query));
    text::a_lowered_part_is_spelled(device.name@, query);
}

/// The first device whose name holds the query is found, and none is where no
/// name does.
pub proof fn the_first_match_is_found(devices: Seq<DeviceInfo>, query: Seq<char>, i: int)
    ensures
        0 <= i < devices.len() && name_holds(query)(devices[i]) && (forall|j: int|
            0 <= j < i ==> !name_holds(query)(#[trigger] devices[j])) ==> first_where(
            devices,
            name_holds(query),
        ) == Some(devices[i]),
        (forall|j: int| 0 <= j < devices.len() ==> !name_holds(query)(#[trigger] devices[j]))
            ==> first_where(devices, name_holds(query)) is None,
{
    let test = name_holds(query);
    if 0 <= i < devices.len() && test(devices[i]) && (forall|j: int|
        0 <= j < i ==> !test(#[trigger] devices[j])) {
        first_where_at(devices, test, Some(i));
    }
    if forall|j: int| 0 <= j < devices.len() ==> !test(#[trigger] devices[j]) {
        first_where_at(devices, test, None);
    }
}

/// An ASCII name is a cable's exactly where the letters of "cable" stand in it in
/// a row, in whatever case; any other name is where they do, or where they stand
/// in its lower case.
pub proof fn a_cable_spells_cable(name: Seq<char>)
    ensures
        ({
            let cable = seq!['c', 'a', 'b', 'l', 'e'];
            let spelled = exists|at: int| text::spelled_at(name, cable, at);
            &&& text::ascii_text(name) ==> (cable_name(name) <==> spelled)
            &&& spelled ==> cable_name(name)
            &&& !spelled && cable_name(name) ==> exists|at: int|
                text::runs_at(text::lowered(name), cable, at)
            &&& (exists|at: int| text::runs_at(text::lowered(name), cable, at)) ==> cable_name(name)
        }),
{
    let cable = seq!['c', 'a', 'b', 'l', 'e'];
    reveal_strlit("cable");
    assert("cable"@ =~= cable);
    assert(text::ascii_lowered(cable) =~= cable);
    text::a_lowered_part_is_spelled(name, cable);
    text::a_part_is_a_run(text::lowered(name), cable);
}

/// A device is real exactly where its name is no cable's; it has an identifier
/// exactly where that is its own; an identifier is listed exactly where some
/// device of the list has it.
pub proof fn devices_are_told_by_name_and_id(
    devices: Seq<DeviceInfo>,
    device: DeviceInfo,
    id: Seq<char>,
)
    ensures
        real_device()(device) <==> !cable_name(device.name@),
        has_id(id)(device) <==> device.id@ == id,
        listed(devices, id) <==> exists|i: int|
            0 <= i < devices.len() && (#[trigger] devices[i]).id@ == id,
        id_of(Some(device)) == Some(device.id@),
        id_of(None) is None,
{
}

/// An identifier's name is that of the first device with it; one that no device
/// has is "Unknown".
pub proof fn a_name_is_that_of_the_first(devices: Seq<DeviceInfo>, id: Seq<char>, i: int)
    ensures
        0 <= i < devices.len() && devices[i].id@ == id && (forall|j: int|
            0 <= j < i ==> (#[trigger] devices[j]).id@ != id) ==> name_by_id(devices, id)
            == devices[i].name@,
        (forall|j: int| 0 <= j < devices.len() ==> (#[trigger] devices[j]).id@ != id) ==> name_by_id(
            devices,
            id,
        ) == "Unknown"@,
{
    let test = has_id(id);
    if 0 <= i < devices.len() && devices[i].id@ == id && (forall|j: int|
        0 <= j < i ==> (#[trigger] devices[j]).id@ != id) {
        assert forall|j: int| 0 <= j < i implies !test(#[trigger] devices[j]) by {}
        first_where_at(devices, test, Some(i));
    }
    if forall|j: int| 0 <= j < devices.len() ==> (#[trigger] devices[j]).id@ != id {
        assert forall|j: int| 0 <= j < devices.len() implies !test(#[trigger] devices[j]) by {}
        first_where_at(devices, test, None);
    }
}

/// The first device that is no virtual cable is the one that is chosen unasked.
pub proof fn the_first_real_device_is_chosen(devices: Seq<DeviceInfo>, i: int)
    ensures
        0 <= i < devices.len() && !cable_name(devices[i].name@) && (forall|j: int|
            0 <= j < i ==> cable_name((#[trigger] devices[j]).name@)) ==> first_real_id(devices)
            == Some(devices[i].id@),
        (forall|j: int| 0 <= j < devices.len() ==> cable_name((#[trigger] devices[j]).name@))
            ==> first_real_id(devices) is None,
{
    let test = real_device();
    if 0 <= i < devices.len() && !cable_name(devices[i].name@) && (forall|j: int|
        0 <= j < i ==> cable_name((#[trigger] devices[j]).name@)) {
        assert forall|j: int| 0 <= j < i implies !test(#[trigger] devices[j]) by {}
        first_where_at(devices, test, Some(i));
    }
    if forall|j: int| 0 <= j < devices.len() ==> cable_name((#[trigger] devices[j]).name@) {
        assert forall|j: int| 0 <= j < devices.len() implies !test(#[trigger] devices[j]) by {}
        first_where_at(devices, test, None);
    }
}

/// The message of each error, with the text that was looked for in full.
pub proof fn errors_say_what_is_wrong(query: String)
    ensures
        DeviceError::NoMatch(query).text() == "No device matching '"@ + query@ + "' found"@,
        DeviceError::NoRealMicrophone.text()
            == "No real microphone found (all capture devices appear to be virtual cables)"@,
        DeviceError::NoRealSpeaker.text()
            == "No real speaker found (all render devices appear to be virtual cables)"@,
{
}

/// An optional text is there exactly where its string is, an empty one too.
pub proof fn texts_are_there_with_their_strings(string: String, part: &str)
    ensures
        text_of(Some(string)) == Some(string@),
        text_of(None) is None,
        slice_of(Some(part)) == Some(part@),
        slice_of(None) is None,
{
}

} // verus!
