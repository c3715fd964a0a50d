use vstd::prelude::*;
use vstd::string::StringExecFns;
use crate::device::{texts, Device, DeviceView};

verus! {

/// The command line that asks the device manager for all devices as JSON.
pub open spec fn list_command() -> Seq<Seq<char>> {
    seq!["xcrun"@, "simctl"@, "list"@, "devices"@, "--json"@]
}

/// The command line that deletes `device`: the delete subcommand with the
/// device's udid.
pub open spec fn delete_command(device: DeviceView) -> Seq<Seq<char>> {
    seq!["xcrun"@, "simctl"@, "delete"@, device.udid]
}

/// The command line that creates a device like `device`: the create
/// subcommand with its name, its device type and its runtime, in that order.
pub open spec fn create_command(device: DeviceView) -> Seq<Seq<char>> {
    seq!["xcrun"@, "simctl"@, "create"@, device.name, device.device_type, device.runtime]
}

/// The delete command lines for the chosen devices, one for each choice.
pub open spec fn delete_commands_of(devices: Seq<DeviceView>, victims: Seq<usize>) -> Seq<
    Seq<Seq<char>>,
> {
    Seq::new(victims.len(), |i: int| delete_command(devices[victims[i] as int]))
}

/// The create command lines for the chosen devices, one for each choice.
pub open spec fn create_commands_of(devices: Seq<DeviceView>, victims: Seq<usize>) -> Seq<
    Seq<Seq<char>>,
> {
    Seq::new(victims.len(), |i: int| create_command(devices[victims[i] as int]))
}

/// The texts of a list of command lines.
pub open spec fn command_texts(commands: Seq<Vec<String>>) -> Seq<Seq<Seq<char>>> {
    Seq::new(commands.len(), |i: int| texts(commands[i]@))
}

/// Builds the command line that lists the devices.
pub fn list_invocation() -> (command: Vec<String>)
    ensures
        texts(command@) == list_command(),
{
    let mut command: Vec<String> = Vec::new();
    command.push(String::from_str("xcrun"));
    command.push(String::from_str("simctl"));
    command.push(String::from_str("list"));
    command.push(String::from_str("devices"));
    command.push(String::from_str("--json"));
    assert(texts(command@) =~= list_command());
    command
}

/// Builds the command line that deletes `device`.
pub fn delete_invocation(device: &Device) -> (command: Vec<String>)
    ensures
        texts(command@) == delete_command(device@),
{
    let mut command: Vec<String> = Vec::new();
    command.push(String::from_str("xcrun"));
    command.push(String::from_str("simctl"));
    command.push(String::from_str("delete"));
    command.push(device.udid.clone());
    assert(texts(command@) =~= delete_command(device@));
    command
}

/// Builds the command line that creates a device like `device`.
pub fn create_invocation(device: &Device) -> (command: Vec<String>)
    ensures
        texts(command@) == create_command(device@),
{
    let mut command: Vec<String> = Vec::new();
    command.push(String::from_str("xcrun"));
    command.push(String::from_str("simctl"));
    command.push(String::from_str("create"));
    command.push(device.name.clone());
    command.push(device.device_type.clone());
    command.push(device.runtime.clone());
    assert(texts(command@) =~= create_command(device@));
    command
}

} // verus!
