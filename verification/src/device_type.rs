//! The contract of a type of audio driver, and a handle to a driver type
//! that may be absent.

use crate::device::{AudioIODevice, BoxedAudioIODevice, DeviceState};
use vstd::prelude::*;

verus! {

/// What a driver type can be asked to do.
pub enum DeviceTypeRequest {
    /// To scan for devices.
    Scan,
    /// To create a device for two names; `created` is what the device that
    /// came back reports, if one came back.
    CreateDevice { input_name: Seq<char>, output_name: Seq<char>, created: Option<DeviceState> },
}

/// What a driver type reports of itself: its name, and the devices it found
/// when it last scanned; and what it has been asked.
pub struct DeviceTypeState {
    /// Whether there is a driver type at all.
    pub present: bool,
    pub name: Seq<char>,
    pub input_devices: Seq<Seq<char>>,
    pub output_devices: Seq<Seq<char>>,
    /// Everything the driver type has been asked to do, oldest first.
    pub asked: Seq<DeviceTypeRequest>,
}

/// What a device that may have come back reports.
pub open spec fn report_of(device: Option<BoxedAudioIODevice>) -> Option<DeviceState> {
    match device {
        Some(created) => Some(created.state()),
        None => None,
    }
}

impl DeviceTypeState {
    /// What stands in for a driver type that is not there: nameless, with no
    /// devices, and never asked anything.
    pub open spec fn absent() -> DeviceTypeState {
        DeviceTypeState {
            present: false,
            name: Seq::empty(),
            input_devices: Seq::empty(),
            output_devices: Seq::empty(),
            asked: Seq::empty(),
        }
    }

    /// The driver type after one more scan: asked once more, and there and
    /// named as before. The devices it knows are whatever the scan found.
    pub open spec fn scanned(self, after: DeviceTypeState) -> bool {
        &&& after.present == self.present
        &&& after.name == self.name
        &&& after.asked == self.asked.push(DeviceTypeRequest::Scan)
    }

    /// The driver type after it was asked for a device with the two names
    /// and gave `device`: asked once more, and otherwise as it was.
    pub open spec fn asked_to_create(
        self,
        after: DeviceTypeState,
        input_name: Seq<char>,
        output_name: Seq<char>,
        device: Option<BoxedAudioIODevice>,
    ) -> bool {
        &&& after.present == self.present
        &&& after.name == self.name
        &&& after.input_devices == self.input_devices
        &&& after.output_devices == self.output_devices
        &&& after.asked == self.asked.push(
            DeviceTypeRequest::CreateDevice {
                input_name,
                output_name,
                created: report_of(device),
            },
        )
    }

    /// Whether the driver type knows of no device at all.
    pub open spec fn knows_no_device(self) -> bool {
        self.input_devices.len() == 0 && self.output_devices.len() == 0
    }
}

/// A list of names, each as its characters.
pub open spec fn names_of(names: Seq<String>) -> Seq<Seq<char>> {
    names.map_values(|name: String| name@)
}

/// A trait representing a type of audio driver (e.g. CoreAudio, ASIO, etc.).
///
/// `state` is specification only. A driver type that is verified says there
/// what it reports; any other driver type leaves it out, and nothing is known
/// of what it reports.
pub trait AudioIODeviceType {
    /// What the driver type reports of itself.
    open spec fn state(&self) -> DeviceTypeState {
        arbitrary()
    }

    /// The name of the type of driver.
    fn name(&self) -> (name: String)
        ensures
            name@ == self.state().name,
    ;

    /// Refreshes the drivers cached list of known devices.
    ///
    /// A driver type that is there scans once, and keeps its name whatever
    /// it finds. A driver type that is not there stays as it is.
    fn scan_for_devices(&mut self)
        ensures
            (*old(self)).state().present ==> (*old(self)).state().scanned((*final(self)).state()),
            !(*old(self)).state().present ==> (*final(self)).state() == (*old(self)).state(),
    ;

    /// Returns a list of known input devices.
    fn input_devices(&self) -> (names: Vec<String>)
        ensures
            names_of(names@) == self.state().input_devices,
    ;

    /// Returns a list of the known output devices.
    fn output_devices(&self) -> (names: Vec<String>)
        ensures
            names_of(names@) == self.state().output_devices,
    ;

    /// Create an [`AudioIODevice`].
    ///
    /// A driver type that is there is asked once, for just these two names,
    /// and what comes back is its answer; the names and the devices that it
    /// knows stay as they are. There may be no device for the two names: that
    /// is an answer, not an error. A driver type that knows of no device
    /// creates none, and neither does one that is not there, which stays as
    /// it is. A device that is created is there, and closed.
    fn create_device(
        &mut self,
        input_device_name: &str,
        output_device_name: &str,
    ) -> (device: Option<BoxedAudioIODevice>)
        ensures
            (*old(self)).state().present ==> (*old(self)).state().asked_to_create(
                (*final(self)).state(),
                input_device_name@,
                output_device_name@,
                device,
            ),
            !(*old(self)).state().present ==> (*final(self)).state() == (*old(self)).state()
                && device is None,
            (*old(self)).state().knows_no_device() ==> device is None,
            device matches Some(created) ==> created.state().present && !created.state().open,
    ;
}

impl<T: AudioIODeviceType + ?Sized> AudioIODeviceType for &mut T {
    open spec fn state(&self) -> DeviceTypeState {
        (**self).state()
    }

    fn name(&self) -> (name: String) {
        (**self).name()
    }

    fn scan_for_devices(&mut self) {
        (**self).scan_for_devices()
    }

    fn input_devices(&self) -> (names: Vec<String>) {
        (**self).input_devices()
    }

    fn output_devices(&self) -> (names: Vec<String>) {
        (**self).output_devices()
    }

    fn create_device(
        &mut self,
        input_device_name: &str,
        output_device_name: &str,
    ) -> (device: Option<BoxedAudioIODevice>) {
        (**self).create_device(input_device_name, output_device_name)
    }
}

/// A handle to a driver type that may be absent.
///
/// A handle over a driver type behaves as the driver type does. A handle over
/// nothing has no name, knows of no device and creates none; a scan does
/// nothing.
pub struct DeviceTypeHandle<T: AudioIODeviceType> {
    device_type: Option<T>,
}

impl<T: AudioIODeviceType> DeviceTypeHandle<T> {
    /// The driver type behind the handle, if there is one.
    pub closed spec fn device_type(&self) -> Option<T> {
        self.device_type
    }

    /// A handle to `device_type`, or to nothing.
    pub fn new(device_type: Option<T>) -> (handle: Self)
        ensures
            handle.device_type() == device_type,
    {
        DeviceTypeHandle { device_type }
    }

    /// Gives up the handle for what it held.
    pub fn into_inner(self) -> (device_type: Option<T>)
        ensures
            device_type == self.device_type(),
    {
        self.device_type
    }
}

impl<T: AudioIODeviceType> AudioIODeviceType for DeviceTypeHandle<T> {
    open spec fn state(&self) -> DeviceTypeState {
        match self.device_type() {
            Some(device_type) => device_type.state(),
            None => DeviceTypeState::absent(),
        }
    }

    fn name(&self) -> (name: String) {
        match &self.device_type {
            Some(device_type) => device_type.name(),
            None => String::new(),
        }
    }

    fn scan_for_devices(&mut self)
        ensures
            (*final(self)).device_type() is None <==> (*old(self)).device_type() is None,
    {
        match &mut self.device_type {
            Some(device_type) => device_type.scan_for_devices(),
            None => {},
        }
    }

    fn input_devices(&self) -> (names: Vec<String>) {
        match &self.device_type {
            Some(device_type) => device_type.input_devices(),
            None => {
                let names: Vec<String> = Vec::new();
                assert(names_of(names@) =~= Seq::<Seq<char>>::empty());
                names
            },
        }
    }

    fn output_devices(&self) -> (names: Vec<String>) {
        match &self.device_type {
            Some(device_type) => device_type.output_devices(),
            None => {
                let names: Vec<String> = Vec::new();
                assert(names_of(names@) =~= Seq::<Seq<char>>::empty());
                names
            },
        }
    }

    fn create_device(
        &mut self,
        input_device_name: &str,
        output_device_name: &str,
    ) -> (device: Option<BoxedAudioIODevice>)
        ensures
            (*old(self)).device_type() is None ==> device is None,
            (*final(self)).device_type() is None <==> (*old(self)).device_type() is None,
    {
        match &mut self.device_type {
            Some(device_type) => device_type.create_device(input_device_name, output_device_name),
            None => None,
        }
    }
}

/// A handle reports what its driver type reports, and a handle over nothing
/// what stands in for a driver type that is not there.
pub proof fn lemma_handle_state<T: AudioIODeviceType>(handle: DeviceTypeHandle<T>)
    ensures
        handle.device_type() is None ==> handle.state() == DeviceTypeState::absent(),
        handle.device_type() matches Some(device_type) ==> handle.state() == device_type.state(),
{
}

/// A driver type of any kind, as the engine holds it.
pub type BoxedAudioIODeviceType = Box<dyn AudioIODeviceType>;

/// The name of the type of driver.
pub fn name(device_type: &BoxedAudioIODeviceType) -> (name: String)
    ensures
        name@ == device_type.state().name,
{
    device_type.name()
}

/// Refreshes the list of devices that the driver type knows: a driver type
/// that is there scans once, and keeps its name; one that is not there stays
/// as it is.
pub fn scan_for_devices(device_type: &mut BoxedAudioIODeviceType)
    ensures
        (*old(device_type)).state().present ==> (*old(device_type)).state().scanned(
            (*final(device_type)).state(),
        ),
        !(*old(device_type)).state().present ==> (*final(device_type)).state()
            == (*old(device_type)).state(),
{
    device_type.scan_for_devices()
}

/// The names of the devices that the driver type knows: of its input devices
/// if `input` is set, else of its output devices.
pub fn get_device_names(device_type: &BoxedAudioIODeviceType, input: bool) -> (names: Vec<String>)
    ensures
        input ==> names_of(names@) == device_type.state().input_devices,
        !input ==> names_of(names@) == device_type.state().output_devices,
{
    if input {
        device_type.input_devices()
    } else {
        device_type.output_devices()
    }
}

/// Asks the driver type for a device with the two names, and gives what it
/// answers. There may be none: a driver type that knows of no device, or that
/// is not there, gives none.
pub fn create_device(
    device_type: &mut BoxedAudioIODeviceType,
    input_name: &str,
    output_name: &str,
) -> (device: Option<BoxedAudioIODevice>)
    ensures
        (*old(device_type)).state().present ==> (*old(device_type)).state().asked_to_create(
            (*final(device_type)).state(),
            input_name@,
            output_name@,
            device,
        ),
        !(*old(device_type)).state().present ==> (*final(device_type)).state()
            == (*old(device_type)).state() && device is None,
        (*old(device_type)).state().knows_no_device() ==> device is None,
        device matches Some(created) ==> created.state().present && !created.state().open,
{
    device_type.create_device(input_name, output_name)
}

} // verus!
