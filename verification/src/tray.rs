//! The tray icon's state, its menu, and what a click on an item does.
use crate::audio::device::{text_of, DeviceInfo};
use crate::autostart::{carried_out, toggled, two_clicks_restore};
use crate::config;
use crate::engine::{CommandView, EngineCommand};
use crate::text;
use vstd::prelude::*;

verus! {

// Menu item ID ranges.
pub const ID_MIC_BASE: u32 = 1000;

pub const ID_SPEAKER_BASE: u32 = 1100;

pub const ID_OUTPUT_BASE: u32 = 1200;

pub const ID_AUTOSTART: u32 = 2000;

pub const ID_EXIT: u32 = 9999;

/// How many items of one submenu can be told apart by their IDs.
pub const ID_RANGE: u32 = 100;

/// The message that the tray icon sends: the second of those that are free for
/// an application's own use.
pub const WM_TRAYICON: u32 = 0x8001;

pub const WM_RBUTTONUP: u32 = 0x0205;

pub const WM_COMMAND: u32 = 0x0111;

pub const WM_WTSSESSION_CHANGE: u32 = 0x02B1;

pub const WM_DESTROY: u32 = 0x0002;

pub const WTS_CONSOLE_CONNECT: u32 = 0x1;

pub const WTS_SESSION_UNLOCK: u32 = 0x8;

/// What the tray and the engine share: the devices that were last seen, the
/// devices in use, and the devices that are wanted.
pub struct TrayState {
    pub capture_devices: Vec<DeviceInfo>,
    pub render_devices: Vec<DeviceInfo>,
    pub current_mic_id: Option<String>,
    pub current_speaker_id: Option<String>,
    pub current_output_id: Option<String>,
    pub preferred_mic_id: Option<String>,
    pub preferred_speaker_id: Option<String>,
    pub preferred_output_id: Option<String>,
}

/// The shared state with its identifiers as texts.
pub struct TrayView {
    pub capture: Seq<DeviceInfo>,
    pub render: Seq<DeviceInfo>,
    pub current_mic: Option<Seq<char>>,
    pub current_speaker: Option<Seq<char>>,
    pub current_output: Option<Seq<char>>,
    pub preferred_mic: Option<Seq<char>>,
    pub preferred_speaker: Option<Seq<char>>,
    pub preferred_output: Option<Seq<char>>,
}

impl View for TrayState {
    type V = TrayView;

    open spec fn view(&self) -> TrayView {
        TrayView {
            capture: self.capture_devices@,
            render: self.render_devices@,
            current_mic: text_of(self.current_mic_id),
            current_speaker: text_of(self.current_speaker_id),
            current_output: text_of(self.current_output_id),
            preferred_mic: text_of(self.preferred_mic_id),
            preferred_speaker: text_of(self.preferred_speaker_id),
            preferred_output: text_of(self.preferred_output_id),
        }
    }
}

impl TrayState {
    /// The state at the start: no device is wanted yet beyond those in use.
    pub fn new(
        capture_devices: Vec<DeviceInfo>,
        render_devices: Vec<DeviceInfo>,
        mic_id: Option<String>,
        speaker_id: Option<String>,
        output_id: Option<String>,
    ) -> (state: Self)
        ensures
            state@ == (TrayView {
                capture: capture_devices@,
                render: render_devices@,
                current_mic: text_of(mic_id),
                current_speaker: text_of(speaker_id),
                current_output: text_of(output_id),
                preferred_mic: None,
                preferred_speaker: None,
                preferred_output: None,
            }),
    {
        TrayState {
            capture_devices,
            render_devices,
            current_mic_id: mic_id,
            current_speaker_id: speaker_id,
            current_output_id: output_id,
            preferred_mic_id: None,
            preferred_speaker_id: None,
            preferred_output_id: None,
        }
    }

    /// Take over freshly read device lists, where both could be read.
    pub fn update_lists(
        &mut self,
        capture: Option<Vec<DeviceInfo>>,
        render: Option<Vec<DeviceInfo>>,
    )
        ensures
            final(self)@ == match (capture, render) {
                (Some(c), Some(r)) => TrayView { capture: c@, render: r@, ..old(self)@ },
                _ => old(self)@,
            },
    {
        match (capture, render) {
            (Some(c), Some(r)) => {
                self.capture_devices = c;
                self.render_devices = r;
            },
            _ => {},
        }
    }
}

/// One line of a device submenu.
pub struct DeviceItem {
    /// The ID that a click sends, where the line can be clicked.
    pub id: Option<u32>,
    pub label: String,
    pub checked: bool,
    pub enabled: bool,
}

pub struct DeviceItemView {
    pub id: Option<u32>,
    pub label: Seq<char>,
    pub checked: bool,
    pub enabled: bool,
}

impl View for DeviceItem {
    type V = DeviceItemView;

    open spec fn view(&self) -> DeviceItemView {
        DeviceItemView {
            id: self.id,
            label: self.label@,
            checked: self.checked,
            enabled: self.enabled,
        }
    }
}

/// One line of the tray menu.
pub enum MenuItem {
    Submenu { label: String, items: Vec<DeviceItem> },
    Separator,
    Toggle { id: u32, label: String, checked: bool },
    Action { id: u32, label: String },
}

pub enum MenuItemView {
    Submenu { label: Seq<char>, items: Seq<DeviceItemView> },
    Separator,
    Toggle { id: u32, label: Seq<char>, checked: bool },
    Action { id: u32, label: Seq<char> },
}

/// The lines of a submenu with their labels as texts.
pub open spec fn items_view(items: Seq<DeviceItem>) -> Seq<DeviceItemView> {
    Seq::new(items.len(), |i: int| items[i]@)
}

impl View for MenuItem {
    type V = MenuItemView;

    open spec fn view(&self) -> MenuItemView {
        match self {
            MenuItem::Submenu { label, items } => MenuItemView::Submenu {
                label: label@,
                items: items_view(items@),
            },
            MenuItem::Separator => MenuItemView::Separator,
            MenuItem::Toggle { id, label, checked } => MenuItemView::Toggle {
                id: *id,
                label: label@,
                checked: *checked,
            },
            MenuItem::Action { id, label } => MenuItemView::Action { id: *id, label: label@ },
        }
    }
}

/// The lines of the menu with their labels as texts.
pub open spec fn menu_view(menu: Seq<MenuItem>) -> Seq<MenuItemView> {
    Seq::new(menu.len(), |i: int| menu[i]@)
}

/// The line for one device of a list: it is checked where the device is in use.
pub open spec fn device_item(
    devices: Seq<DeviceInfo>,
    current: Option<Seq<char>>,
    base: int,
    i: int,
) -> DeviceItemView {
    DeviceItemView {
        id: Some((base + i) as u32),
        label: devices[i].name@,
        checked: current == Some(devices[i].id@),
        enabled: true,
    }
}

/// The lines of a device submenu: one for each device, in the order of the
/// list, or a line that says that there is none.
pub open spec fn device_items(
    devices: Seq<DeviceInfo>,
    current: Option<Seq<char>>,
    base: int,
) -> Seq<DeviceItemView> {
    if devices.len() == 0 {
        seq![
            DeviceItemView {
                id: None,
                label: "No devices found"@,
                checked: false,
                enabled: false,
            },
        ]
    } else {
        Seq::new(devices.len(), |i: int| device_item(devices, current, base, i))
    }
}

/// The tray menu.
pub open spec fn menu(st: TrayView, autostart: bool) -> Seq<MenuItemView> {
    seq![
        MenuItemView::Submenu {
            label: "Microphone"@,
            items: device_items(st.capture, st.current_mic, ID_MIC_BASE as int),
        },
        MenuItemView::Submenu {
            label: "Speaker (Loopback)"@,
            items: device_items(st.render, st.current_speaker, ID_SPEAKER_BASE as int),
        },
        MenuItemView::Submenu {
            label: "Output (Cable)"@,
            items: device_items(st.render, st.current_output, ID_OUTPUT_BASE as int),
        },
        MenuItemView::Separator,
        MenuItemView::Toggle {
            id: ID_AUTOSTART,
            label: "Start with Windows"@,
            checked: autostart,
        },
        MenuItemView::Separator,
        MenuItemView::Action { id: ID_EXIT, label: "Exit"@ },
    ]
}

/// Whether an identifier is the one in use.
fn is_current(current: &Option<String>, id: &String) -> (same: bool)
    ensures
        same == (text_of(*current) == Some(id@)),
{
    match current {
        Some(c) => *c == *id,
        None => false,
    }
}

/// Make the lines of a device submenu.
fn build_device_items(devices: &Vec<DeviceInfo>, current: &Option<String>, base: u32) -> (items:
    Vec<DeviceItem>)
    requires
        base + devices@.len() <= u32::MAX,
    ensures
        items_view(items@) == device_items(devices@, text_of(*current), base as int),
{
    let mut items: Vec<DeviceItem> = Vec::new();
    if devices.len() == 0 {
        items.push(
            DeviceItem {
                id: None,
                label: "No devices found".to_owned(),
                checked: false,
                enabled: false,
            },
        );
    }
    let ghost first = items@;
    for i in 0..devices.len()
        invariant
            base + devices@.len() <= u32::MAX,
            devices@.len() == 0 ==> items@ == first,
            devices@.len() > 0 ==> items@.len() == i,
            devices@.len() > 0 ==> forall|j: int|
                0 <= j < i ==> (#[trigger] items@[j])@ == device_item(
                    devices@,
                    text_of(*current),
                    base as int,
                    j,
                ),
    {
        items.push(
            DeviceItem {
                id: Some(base + i as u32),
                label: devices[i].name.clone(),
                checked: is_current(current, &devices[i].id),
                enabled: true,
            },
        );
    }
    assert(items_view(items@) =~= device_items(devices@, text_of(*current), base as int));
    items
}

/// Make the tray menu.
pub fn build_menu(st: &TrayState, autostart: bool) -> (items: Vec<MenuItem>)
    requires
        ID_MIC_BASE + st.capture_devices@.len() <= u32::MAX,
        ID_OUTPUT_BASE + st.render_devices@.len() <= u32::MAX,
    ensures
        menu_view(items@) == menu(st@, autostart),
{
    let mut items: Vec<MenuItem> = Vec::new();
    items.push(
        MenuItem::Submenu {
            label: "Microphone".to_owned(),
            items: build_device_items(&st.capture_devices, &st.current_mic_id, ID_MIC_BASE),
        },
    );
    items.push(
        MenuItem::Submenu {
            label: "Speaker (Loopback)".to_owned(),
            items: build_device_items(&st.render_devices, &st.current_speaker_id, ID_SPEAKER_BASE),
        },
    );
    items.push(
        MenuItem::Submenu {
            label: "Output (Cable)".to_owned(),
            items: build_device_items(&st.render_devices, &st.current_output_id, ID_OUTPUT_BASE),
        },
    );
    items.push(MenuItem::Separator);
    items.push(
        MenuItem::Toggle {
            id: ID_AUTOSTART,
            label: "Start with Windows".to_owned(),
            checked: autostart,
        },
    );
    items.push(MenuItem::Separator);
    items.push(MenuItem::Action { id: ID_EXIT, label: "Exit".to_owned() });
    assert(menu_view(items@) =~= menu(st@, autostart));
    items
}

/// What a click on a menu item asks for.
pub enum MenuAction {
    /// Write the file of the saved selection, then send the command.
    Select { file: String, command: EngineCommand },
    /// Turn the automatic start on or off.
    ToggleAutostart,
    /// Send the shutdown command, then leave the message loop.
    Exit,
    /// The ID belongs to no item.
    Nothing,
}

pub enum MenuActionView {
    Select { file: Seq<char>, command: CommandView },
    ToggleAutostart,
    Exit,
    Nothing,
}

impl View for MenuAction {
    type V = MenuActionView;

    open spec fn view(&self) -> MenuActionView {
        match self {
            MenuAction::Select { file, command } => MenuActionView::Select {
                file: file@,
                command: command@,
            },
            MenuAction::ToggleAutostart => MenuActionView::ToggleAutostart,
            MenuAction::Exit => MenuActionView::Exit,
            MenuAction::Nothing => MenuActionView::Nothing,
        }
    }
}

/// The ID lies in the range of a submenu.
pub open spec fn in_range(id: u32, base: u32) -> bool {
    base <= id < base + ID_RANGE
}

/// What a click on a menu item asks for: a device item saves the selection with
/// that device in its place and has the engine take the device.
pub open spec fn action_for(st: TrayView, id: u32) -> MenuActionView {
    if in_range(id, ID_MIC_BASE) {
        let i = id - ID_MIC_BASE;
        if i < st.capture.len() {
            let new_id = st.capture[i].id@;
            MenuActionView::Select {
                file: config::saved(Some(new_id), st.current_speaker, st.current_output),
                command: CommandView::SetMicDevice(new_id),
            }
        } else {
            MenuActionView::Nothing
        }
    } else if in_range(id, ID_SPEAKER_BASE) {
        let i = id - ID_SPEAKER_BASE;
        if i < st.render.len() {
            let new_id = st.render[i].id@;
            MenuActionView::Select {
                file: config::saved(st.current_mic, Some(new_id), st.current_output),
                command: CommandView::SetSpeakerDevice(new_id),
            }
        } else {
            MenuActionView::Nothing
        }
    } else if in_range(id, ID_OUTPUT_BASE) {
        let i = id - ID_OUTPUT_BASE;
        if i < st.render.len() {
            let new_id = st.render[i].id@;
            MenuActionView::Select {
                file: config::saved(st.current_mic, st.current_speaker, Some(new_id)),
                command: CommandView::SetOutputDevice(new_id),
            }
        } else {
            MenuActionView::Nothing
        }
    } else if id == ID_AUTOSTART {
        MenuActionView::ToggleAutostart
    } else if id == ID_EXIT {
        MenuActionView::Exit
    } else {
        MenuActionView::Nothing
    }
}

/// The text inside an optional string, borrowed.
fn as_slice(value: &Option<String>) -> (slice: Option<&str>)
    ensures
        crate::audio::device::slice_of(slice) == text_of(*value),
{
    match value {
        Some(s) => Some(s.as_str()),
        None => None,
    }
}

/// Decide what a click on a menu item asks for.
pub fn handle_menu_command(st: &TrayState, id: u32) -> (action: MenuAction)
    ensures
        action@ == action_for(st@, id),
{
    if id >= ID_MIC_BASE && id < ID_MIC_BASE + ID_RANGE {
        let i: usize = (id - ID_MIC_BASE) as usize;
        if i < st.capture_devices.len() {
            let new_id = st.capture_devices[i].id.clone();
            let file = config::save(
                Some(new_id.as_str()),
                as_slice(&st.current_speaker_id),
                as_slice(&st.current_output_id),
            );
            return MenuAction::Select { file, command: EngineCommand::SetMicDevice(new_id) };
        }
    } else if id >= ID_SPEAKER_BASE && id < ID_SPEAKER_BASE + ID_RANGE {
        let i: usize = (id - ID_SPEAKER_BASE) as usize;
        if i < st.render_devices.len() {
            let new_id = st.render_devices[i].id.clone();
            let file = config::save(
                as_slice(&st.current_mic_id),
                Some(new_id.as_str()),
                as_slice(&st.current_output_id),
            );
            return MenuAction::Select { file, command: EngineCommand::SetSpeakerDevice(new_id) };
        }
    } else if id >= ID_OUTPUT_BASE && id < ID_OUTPUT_BASE + ID_RANGE {
        let i: usize = (id - ID_OUTPUT_BASE) as usize;
        if i < st.render_devices.len() {
            let new_id = st.render_devices[i].id.clone();
            let file = config::save(
                as_slice(&st.current_mic_id),
                as_slice(&st.current_speaker_id),
                Some(new_id.as_str()),
            );
            return MenuAction::Select { file, command: EngineCommand::SetOutputDevice(new_id) };
        }
    } else if id == ID_AUTOSTART {
        return MenuAction::ToggleAutostart;
    } else if id == ID_EXIT {
        return MenuAction::Exit;
    }
    MenuAction::Nothing
}

/// Clicking a device in the menu takes that device: the ID that the menu gives
/// the `i`-th microphone asks for that microphone, and saves it.
pub proof fn clicking_a_microphone_selects_it(st: TrayView, autostart: bool, i: int)
    requires
        0 <= i < st.capture.len(),
        i < ID_RANGE,
    ensures
        menu(st, autostart)[0] is Submenu,
        menu(st, autostart)[0]->items[i].id matches Some(id) && action_for(st, id)
            == (MenuActionView::Select {
            file: config::saved(Some(st.capture[i].id@), st.current_speaker, st.current_output),
            command: CommandView::SetMicDevice(st.capture[i].id@),
        }),
{
}

/// The ID that the menu gives the `i`-th speaker asks for that speaker, and
/// saves it.
pub proof fn clicking_a_speaker_selects_it(st: TrayView, autostart: bool, i: int)
    requires
        0 <= i < st.render.len(),
        i < ID_RANGE,
    ensures
        menu(st, autostart)[1] is Submenu,
        menu(st, autostart)[1]->items[i].id matches Some(id) && action_for(st, id)
            == (MenuActionView::Select {
            file: config::saved(st.current_mic, Some(st.render[i].id@), st.current_output),
            command: CommandView::SetSpeakerDevice(st.render[i].id@),
        }),
{
}

/// The ID that the menu gives the `i`-th output asks for that output, and saves
/// it.
pub proof fn clicking_an_output_selects_it(st: TrayView, autostart: bool, i: int)
    requires
        0 <= i < st.render.len(),
        i < ID_RANGE,
    ensures
        menu(st, autostart)[2] is Submenu,
        menu(st, autostart)[2]->items[i].id matches Some(id) && action_for(st, id)
            == (MenuActionView::Select {
            file: config::saved(st.current_mic, st.current_speaker, Some(st.render[i].id@)),
            command: CommandView::SetOutputDevice(st.render[i].id@),
        }),
{
}

/// The other two items of the menu do what their labels say.
pub proof fn clicking_the_last_items(st: TrayView, autostart: bool)
    ensures
        menu(st, autostart)[4] matches MenuItemView::Toggle { id, checked, .. } && checked
            == autostart && action_for(st, id) is ToggleAutostart,
        menu(st, autostart)[6] matches MenuItemView::Action { id, .. } && action_for(st, id) is Exit,
{
}

/// A click on "Start with Windows" neither saves a selection nor sends a command.
/// It turns the check mark of that line round once its change is carried out,
/// and a second click turns it back.
pub proof fn clicking_the_toggle_turns_it_round(st: TrayView, enabled: bool)
    ensures
        ({
            let once = carried_out(toggled(enabled));
            let twice = carried_out(toggled(once));
            &&& action_for(st, ID_AUTOSTART) == MenuActionView::ToggleAutostart
            &&& menu(st, once)[4] matches MenuItemView::Toggle { id, checked, .. } && id
                == ID_AUTOSTART && checked == !enabled
            &&& menu(st, twice) == menu(st, enabled)
        }),
{
    two_clicks_restore(enabled);
}

/// What a window message means for the tray.
#[derive(Debug, Clone, Copy, PartialEq, Eq, Structural)]
pub enum TrayMessage {
    /// Show the menu.
    ShowMenu,
    /// A menu item was clicked.
    MenuCommand(u32),
    /// Devices may have changed: have the engine look again.
    RefreshDevices,
    /// The window is gone: leave the message loop.
    Quit,
    /// Nothing to do.
    Ignore,
    /// Leave it to the system.
    Default,
}

/// What a window message means for the tray. The event of the icon and the ID of
/// a menu item stand in the low 16 bits, the reason of a session change in the
/// low 32.
pub open spec fn meaning(msg: u32, wparam: u64, lparam: u64) -> TrayMessage {
    if msg == WM_TRAYICON {
        if lparam % 0x10000 == WM_RBUTTONUP {
            TrayMessage::ShowMenu
        } else {
            TrayMessage::Ignore
        }
    } else if msg == WM_COMMAND {
        TrayMessage::MenuCommand((wparam % 0x10000) as u32)
    } else if msg == WM_WTSSESSION_CHANGE {
        let reason = wparam % 0x1_0000_0000;
        if reason == WTS_CONSOLE_CONNECT || reason == WTS_SESSION_UNLOCK {
            TrayMessage::RefreshDevices
        } else {
            TrayMessage::Ignore
        }
    } else if msg == WM_DESTROY {
        TrayMessage::Quit
    } else {
        TrayMessage::Default
    }
}

/// Decide what a window message means for the tray.
pub fn window_message(msg: u32, wparam: u64, lparam: u64) -> (message: TrayMessage)
    ensures
        message == meaning(msg, wparam, lparam),
{
    if msg == WM_TRAYICON {
        let event: u32 = (lparam % 0x10000) as u32;
        if event == WM_RBUTTONUP {
            TrayMessage::ShowMenu
        } else {
            TrayMessage::Ignore
        }
    } else if msg == WM_COMMAND {
        TrayMessage::MenuCommand((wparam % 0x10000) as u32)
    } else if msg == WM_WTSSESSION_CHANGE {
        let reason: u32 = (wparam % 0x1_0000_0000) as u32;
        if reason == WTS_CONSOLE_CONNECT || reason == WTS_SESSION_UNLOCK {
            TrayMessage::RefreshDevices
        } else {
            TrayMessage::Ignore
        }
    } else if msg == WM_DESTROY {
        TrayMessage::Quit
    } else {
        TrayMessage::Default
    }
}

/// The tip of the icon, cut so that it and a terminating zero fit.
pub fn icon_tip(tip: &str, room: usize) -> (units: Vec<u16>)
    requires
        room > 0,
    ensures
        text::utf16(tip@).len() < room ==> units@ == text::utf16(tip@),
        text::utf16(tip@).len() >= room ==> units@ == text::utf16(tip@).take(room - 1),
{
    let mut units = text::wide_str(tip);
    let len: usize = units.len() - 1;
    let kept: usize = if len < room {
        len
    } else {
        room - 1
    };
    units.truncate(kept);
    assert(units@ =~= text::utf16(tip@).take(kept as int));
    assert(text::utf16(tip@).take(len as int) =~= text::utf16(tip@));
    units
}

/// A device submenu shows each device of its list once, in order, by its name,
/// with a mark on just those that are in use; an empty list shows one line that
/// says so and cannot be clicked.
pub proof fn a_submenu_shows_its_list(
    devices: Seq<DeviceInfo>,
    current: Option<Seq<char>>,
    base: int,
    i: int,
)
    requires
        0 <= base,
        base + devices.len() <= u32::MAX,
        0 <= i < devices.len() || devices.len() == 0 && i == 0,
    ensures
        ({
            let items = device_items(devices, current, base);
            if devices.len() == 0 {
                &&& items.len() == 1
                &&& items[0].id is None
                &&& items[0].label == "No devices found"@
                &&& !items[0].enabled
                &&& !items[0].checked
            } else {
                &&& items.len() == devices.len()
                &&& items[i].label == devices[i].name@
                &&& items[i].id is Some && items[i].id->0 == base + i
                &&& items[i].checked <==> current is Some && current->0 == devices[i].id@
                &&& items[i].enabled
            }
        }),
{
}

/// The menu holds the microphones, the speakers and the outputs, each with what
/// is in use of them, then the toggle and the exit between lines.
pub proof fn the_menu_holds_everything(st: TrayView, autostart: bool)
    ensures
        menu(st, autostart).len() == 7,
        menu(st, autostart)[0] matches MenuItemView::Submenu { label, items } && label
            == "Microphone"@ && items == device_items(st.capture, st.current_mic, 1000),
        menu(st, autostart)[1] matches MenuItemView::Submenu { label, items } && label
            == "Speaker (Loopback)"@ && items == device_items(st.render, st.current_speaker, 1100),
        menu(st, autostart)[2] matches MenuItemView::Submenu { label, items } && label
            == "Output (Cable)"@ && items == device_items(st.render, st.current_output, 1200),
        menu(st, autostart)[3] is Separator,
        menu(st, autostart)[4] matches MenuItemView::Toggle { id, label, checked } && id == 2000
            && label == "Start with Windows"@ && checked == autostart,
        menu(st, autostart)[5] is Separator,
        menu(st, autostart)[6] matches MenuItemView::Action { id, label } && id == 9999 && label
            == "Exit"@,
{
}

/// An ID from 1000 on takes the microphone in that place, from 1100 on the
/// speaker and from 1200 on the output, a hundred of each and as far as the list
/// goes; each saves that device beside the other two in use. 2000 is the toggle,
/// 9999 the exit, and no other ID does anything.
pub proof fn each_id_does_its_own(st: TrayView, id: u32)
    ensures
        ({
            let action = action_for(st, id);
            let mic = 1000 <= id < 1100 && id - 1000 < st.capture.len();
            let speaker = 1100 <= id < 1200 && id - 1100 < st.render.len();
            let output = 1200 <= id < 1300 && id - 1200 < st.render.len();
            &&& mic ==> action == (MenuActionView::Select {
                file: config::saved(
                    Some(st.capture[id - 1000].id@),
                    st.current_speaker,
                    st.current_output,
                ),
                command: CommandView::SetMicDevice(st.capture[id - 1000].id@),
            })
            &&& speaker ==> action == (MenuActionView::Select {
                file: config::saved(
                    st.current_mic,
                    Some(st.render[id - 1100].id@),
                    st.current_output,
                ),
                command: CommandView::SetSpeakerDevice(st.render[id - 1100].id@),
            })
            &&& output ==> action == (MenuActionView::Select {
                file: config::saved(
                    st.current_mic,
                    st.current_speaker,
                    Some(st.render[id - 1200].id@),
                ),
                command: CommandView::SetOutputDevice(st.render[id - 1200].id@),
            })
            &&& action is ToggleAutostart <==> id == 2000
            &&& action is Exit <==> id == 9999
            &&& action is Nothing <==> !mic && !speaker && !output && id != 2000 && id != 9999
        }),
{
}

/// A right click on the icon shows the menu, a command message carries the ID of
/// its item, an unlock or a connection to the console refreshes the devices, the
/// end of the window quits; other events of the icon and of the session are let
/// pass, and all other messages are left to the system.
pub proof fn each_message_has_its_meaning(msg: u32, wparam: u64, lparam: u64)
    ensures
        ({
            let m = meaning(msg, wparam, lparam);
            &&& m == TrayMessage::ShowMenu <==> msg == 0x8001 && lparam % 65536 == 0x205
            &&& m is MenuCommand <==> msg == 0x111
            &&& m matches TrayMessage::MenuCommand(id) ==> id == wparam % 65536
            &&& m == TrayMessage::RefreshDevices <==> msg == 0x2B1 && (wparam % 4294967296 == 1
                || wparam % 4294967296 == 8)
            &&& m == TrayMessage::Quit <==> msg == 2
            &&& m == TrayMessage::Default <==> msg != 0x8001 && msg != 0x111 && msg != 0x2B1 && msg
                != 2
        }),
{
}

/// The menu is shown as it is: a line for each line, with its ID, its whole label
/// and its marks.
pub proof fn the_menu_is_shown_as_it_is(menu: Seq<MenuItem>, i: int)
    requires
        0 <= i < menu.len(),
    ensures
        menu_view(menu).len() == menu.len(),
        match menu_view(menu)[i] {
            MenuItemView::Submenu { label, items } => {
                &&& menu[i] is Submenu
                &&& menu[i]->Submenu_label@ == label
                &&& menu[i]->items@.len() == items.len()
                &&& forall|k: int|
                    0 <= k < items.len() ==> {
                        let line = menu[i]->items@[k];
                        &&& (#[trigger] items[k]).id == line.id
                        &&& items[k].label == line.label@
                        &&& items[k].checked == line.checked
                        &&& items[k].enabled == line.enabled
                    }
            },
            MenuItemView::Separator => menu[i] is Separator,
            MenuItemView::Toggle { id, label, checked } => {
                &&& menu[i] is Toggle
                &&& menu[i]->Toggle_id == id
                &&& menu[i]->Toggle_label@ == label
                &&& menu[i]->checked == checked
            },
            MenuItemView::Action { id, label } => {
                &&& menu[i] is Action
                &&& menu[i]->Action_id == id
                &&& menu[i]->Action_label@ == label
            },
        },
{
}

/// What a click asks for is shown as it is, and so is the shared state.
pub proof fn clicks_and_state_are_shown_as_they_are(action: MenuAction, st: TrayState, id: String)
    ensures
        match action@ {
            MenuActionView::Select { file, command } => {
                &&& action is Select
                &&& action->file@ == file
                &&& action->command@ == command
            },
            MenuActionView::ToggleAutostart => action is ToggleAutostart,
            MenuActionView::Exit => action is Exit,
            MenuActionView::Nothing => action is Nothing,
        },
        st@.capture == st.capture_devices@,
        st@.render == st.render_devices@,
        st@.current_mic is Some == st.current_mic_id is Some,
        st.current_mic_id == Some(id) ==> st@.current_mic == Some(id@),
        st@.current_speaker is Some == st.current_speaker_id is Some,
        st.current_speaker_id == Some(id) ==> st@.current_speaker == Some(id@),
        st@.current_output is Some == st.current_output_id is Some,
        st.current_output_id == Some(id) ==> st@.current_output == Some(id@),
        st@.preferred_mic is Some == st.preferred_mic_id is Some,
        st.preferred_mic_id == Some(id) ==> st@.preferred_mic == Some(id@),
        st@.preferred_speaker is Some == st.preferred_speaker_id is Some,
        st.preferred_speaker_id == Some(id) ==> st@.preferred_speaker == Some(id@),
        st@.preferred_output is Some == st.preferred_output_id is Some,
        st.preferred_output_id == Some(id) ==> st@.preferred_output == Some(id@),
{
}

} // verus!
