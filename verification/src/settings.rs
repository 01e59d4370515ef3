//! The two services that a run speaks to: the command that stores a
//! preference, and the request that reads the current one back.

use crate::preferences::{decoded, PreferenceValue};
use vstd::prelude::*;

verus! {

/// A command to start: the program and its arguments.
#[derive(Copy, Clone, PartialEq, Eq, Debug)]
pub struct WriterCommand {
    pub program: &'static str,
    pub args: [&'static str; 4],
}

impl WriterCommand {
    /// The arguments as texts, in their order.
    pub open spec fn arguments(&self) -> Seq<Seq<char>> {
        Seq::new(self.args@.len(), |i: int| self.args@[i]@)
    }
}

/// The arguments that store `preference`: the verb, the schema, the key, and
/// the value that the store accepts for the preference.
pub open spec fn writer_arguments(preference: PreferenceValue) -> Seq<Seq<char>> {
    seq![
        "set"@,
        "org.gnome.desktop.interface"@,
        "color-scheme"@,
        preference.spec_gsettings_value(),
    ]
}

/// Gives the command that stores `preference` in the desktop's settings.
pub fn set_preference(preference: PreferenceValue) -> (command: WriterCommand)
    ensures
        command.program@ == "gsettings"@,
        command.arguments() == writer_arguments(preference),
{
    let command = WriterCommand {
        program: "gsettings",
        args: ["set", "org.gnome.desktop.interface", "color-scheme", preference.gsettings_value()],
    };
    assert(command.arguments() =~= writer_arguments(preference));
    command
}

/// A method call on the session bus that reads one setting.
#[derive(Copy, Clone, PartialEq, Eq, Debug)]
pub struct ReadRequest {
    pub destination: &'static str,
    pub path: &'static str,
    pub interface: &'static str,
    pub method: &'static str,
    pub namespace: &'static str,
    pub key: &'static str,
}

/// Gives the call that asks the desktop portal for the current colour scheme.
pub fn read_request() -> (request: ReadRequest)
    ensures
        request.destination@ == "org.freedesktop.portal.Desktop"@,
        request.path@ == "/org/freedesktop/portal/desktop"@,
        request.interface@ == "org.freedesktop.portal.Settings"@,
        request.method@ == "Read"@,
        request.namespace@ == "org.freedesktop.appearance"@,
        request.key@ == "color-scheme"@,
{
    ReadRequest {
        destination: "org.freedesktop.portal.Desktop",
        path: "/org/freedesktop/portal/desktop",
        interface: "org.freedesktop.portal.Settings",
        method: "Read",
        namespace: "org.freedesktop.appearance",
        key: "color-scheme",
    }
}

/// How reading the setting ended.
#[derive(Copy, Clone, PartialEq, Eq, Debug, Structural)]
pub enum ReadOutcome {
    /// The session bus could not be reached.
    NoConnection,
    /// The call was made and failed.
    CallFailed,
    /// The reply did not hold an unsigned integer.
    WrongType,
    /// The reply held this code.
    Code(u32),
}

/// The preference that `outcome` reports: the one that its code means, and
/// none where reading failed at any step.
pub open spec fn reported(outcome: ReadOutcome) -> Option<PreferenceValue> {
    match outcome {
        ReadOutcome::Code(code) => Some(decoded(code)),
        _ => None,
    }
}

/// Gives the preference that `outcome` reports.
pub fn get_preference(outcome: ReadOutcome) -> (preference: Option<PreferenceValue>)
    ensures
        preference == reported(outcome),
{
    match outcome {
        ReadOutcome::Code(code) => Some(PreferenceValue::from_code(code)),
        _ => None,
    }
}

} // verus!
