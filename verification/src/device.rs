use vstd::prelude::*;

verus! {

/// One simulator device as the device manager reports it.
#[derive(Debug, PartialEq, Eq)]
pub struct Device {
    pub name: String,
    pub state: String,
    pub udid: String,
    pub device_type: String,
    pub runtime: String,
}

/// The mathematical value of a [`Device`].
pub struct DeviceView {
    pub name: Seq<char>,
    pub state: Seq<char>,
    pub udid: Seq<char>,
    pub device_type: Seq<char>,
    pub runtime: Seq<char>,
}

impl View for Device {
    type V = DeviceView;

    open spec fn view(&self) -> DeviceView {
        DeviceView {
            name: self.name@,
            state: self.state@,
            udid: self.udid@,
            device_type: self.device_type@,
            runtime: self.runtime@,
        }
    }
}

/// The values of a sequence of devices, in order.
pub open spec fn device_views(devices: Seq<Device>) -> Seq<DeviceView> {
    Seq::new(devices.len(), |i: int| devices[i]@)
}

/// The character sequences of a sequence of strings, in order.
pub open spec fn texts(strings: Seq<String>) -> Seq<Seq<char>> {
    Seq::new(strings.len(), |i: int| strings[i]@)
}

impl Device {
    /// A copy with the same five fields.
    pub fn duplicate(&self) -> (copy: Device)
        ensures
            copy@ == self@,
    {
        Device {
            name: self.name.clone(),
            state: self.state.clone(),
            udid: self.udid.clone(),
            device_type: self.device_type.clone(),
            runtime: self.runtime.clone(),
        }
    }
}

} // verus!
