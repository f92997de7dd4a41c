//! Starting with Windows: the value under the user's `Run` key, and what the
//! registry's answers mean.
use crate::text;
use vstd::prelude::*;

verus! {

/// The key under `HKEY_CURRENT_USER` whose values are run at logon.
pub fn subkey() -> (name: &'static str)
    ensures
        name@ == "Software\\Microsoft\\Windows\\CurrentVersion\\Run"@,
{
    "Software\\Microsoft\\Windows\\CurrentVersion\\Run"
}

/// The name of this program's value under that key.
pub fn value_name() -> (name: &'static str)
    ensures
        name@ == "RustAEC"@,
{
    "RustAEC"
}

/// A registry call that failed.
#[derive(Debug)]
pub struct RegistryError {
    pub call: String,
    pub code: u32,
}

impl RegistryError {
    /// The message for the user.
    pub fn message(&self) -> (message: String)
        ensures
            message@ == self.call@ + ": error code "@ + text::decimal(self.code as nat),
    {
        let mut message: String = self.call.clone();
        message.append(": error code ");
        message.append(text::decimal_text(self.code).as_str());
        message
    }
}

/// The outcome of a registry call from its code: zero is success.
pub fn check(code: u32, call: &str) -> (outcome: Result<(), RegistryError>)
    ensures
        match outcome {
            Ok(_) => code == 0,
            Err(e) => code != 0 && e.code == code && e.call@ == call@,
        },
{
    if code != 0 {
        return Err(RegistryError { call: call.to_owned(), code });
    }
    Ok(())
}

/// Whether the program starts with Windows, from the codes of opening the key
/// and, where that succeeded, of asking for the value.
pub fn is_autostart_enabled(opened: u32, asked: u32) -> (enabled: bool)
    ensures
        enabled == (opened == 0 && asked == 0),
{
    if opened != 0 {
        return false;
    }
    asked == 0
}

/// The outcome of enabling, from the codes of opening the key and, where that
/// succeeded, of storing the value.
pub fn enable_autostart(opened: u32, stored: u32) -> (outcome: Result<(), RegistryError>)
    ensures
        match outcome {
            Ok(_) => opened == 0 && stored == 0,
            Err(e) => if opened != 0 {
                e.code == opened && e.call@ == "RegOpenKeyExW"@
            } else {
                stored != 0 && e.code == stored && e.call@ == "RegSetValueExW"@
            },
        },
{
    match check(opened, "RegOpenKeyExW") {
        Ok(_) => check(stored, "RegSetValueExW"),
        Err(e) => Err(e),
    }
}

/// The outcome of disabling, from the code of opening the key: a value that is
/// not there needs no deleting.
pub fn disable_autostart(opened: u32) -> (outcome: Result<(), RegistryError>)
    ensures
        match outcome {
            Ok(_) => opened == 0,
            Err(e) => opened != 0 && e.code == opened && e.call@ == "RegOpenKeyExW"@,
        },
{
    check(opened, "RegOpenKeyExW")
}

/// What a click on the menu's toggle asks for.
#[derive(Debug, Clone, Copy, PartialEq, Eq, Structural)]
pub enum AutostartChange {
    Enable,
    Disable,
}

/// The change that a click asks for, from whether the program starts with
/// Windows now.
pub open spec fn toggled(enabled: bool) -> AutostartChange {
    if enabled {
        AutostartChange::Disable
    } else {
        AutostartChange::Enable
    }
}

/// Whether the program starts with Windows once a change has been carried out.
pub open spec fn carried_out(change: AutostartChange) -> bool {
    change is Enable
}

/// The change that a click asks for.
pub fn toggle(enabled: bool) -> (change: AutostartChange)
    ensures
        change == toggled(enabled),
{
    if enabled {
        AutostartChange::Disable
    } else {
        AutostartChange::Enable
    }
}

/// A click turns the automatic start round, and a second click, which asks for
/// the opposite change, restores it: for every change that is carried out.
pub proof fn two_clicks_restore(enabled: bool)
    ensures
        carried_out(toggled(enabled)) == !enabled,
        toggled(carried_out(toggled(enabled))) != toggled(enabled),
        carried_out(toggled(carried_out(toggled(enabled)))) == enabled,
{
}

/// The bytes of 16-bit units, low byte first.
pub open spec fn unit_bytes(units: Seq<u16>) -> Seq<u8> {
    Seq::new(
        2 * units.len(),
        |i: int|
            if i % 2 == 0 {
                (units[i / 2] % 256) as u8
            } else {
                (units[i / 2] / 256) as u8
            },
    )
}

/// The bytes of the value that starts the program at this path: UTF-16 with a
/// final zero.
pub fn run_value(path: &str) -> (bytes: Vec<u8>)
    ensures
        bytes@ == unit_bytes(text::utf16(path@).push(0)),
{
    let units = text::wide_str(path);
    let mut bytes: Vec<u8> = Vec::new();
    for i in 0..units.len()
        invariant
            bytes@ == unit_bytes(units@.take(i as int)),
    {
        let unit: u16 = units[i];
        bytes.push((unit % 256) as u8);
        bytes.push((unit / 256) as u8);
        assert(bytes@ =~= unit_bytes(units@.take(i + 1)));
    }
    assert(units@.take(units@.len() as int) =~= units@);
    bytes
}

/// The value holds every unit of the path: each can be read back from its two
/// bytes.
pub proof fn units_survive(units: Seq<u16>, i: int)
    requires
        0 <= i < units.len(),
    ensures
        unit_bytes(units).len() == 2 * units.len(),
        unit_bytes(units)[2 * i] + 256 * unit_bytes(units)[2 * i + 1] == units[i],
{
}

/// The value's bytes are those of the wide characters, low byte first, and
/// nothing else.
pub proof fn bytes_are_units_in_order(units: Seq<u16>, i: int)
    requires
        0 <= i < units.len(),
    ensures
        unit_bytes(units).len() == 2 * units.len(),
        unit_bytes(units)[2 * i] as int == units[i] as int % 256,
        unit_bytes(units)[2 * i + 1] as int == units[i] as int / 256,
{
}

} // verus!
