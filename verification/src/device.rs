//! The contract of an audio device, and a handle to a device that may be
//! absent.

use crate::error::DeviceError;
use crate::setup::SampleRate;
use vstd::prelude::*;

verus! {

/// One attempt to open a device: the rate and the buffer size that were asked
/// for, and whether the device accepted them.
pub struct OpenAttempt {
    pub sample_rate: SampleRate,
    pub buffer_size: usize,
    pub accepted: bool,
}

/// What a device reports of itself, and what it has been asked.
pub struct DeviceState {
    /// Whether there is a device at all.
    pub present: bool,
    /// Whether the device is open.
    pub open: bool,
    pub name: Seq<char>,
    pub device_type_name: Seq<char>,
    pub sample_rate: SampleRate,
    pub buffer_size: usize,
    pub available_sample_rates: Seq<SampleRate>,
    pub available_buffer_sizes: Seq<usize>,
    /// Every attempt to open the device so far, oldest first.
    pub attempts: Seq<OpenAttempt>,
}

impl DeviceState {
    /// What stands in for a device that is not there: closed, nameless, with
    /// a zero rate and buffer size and nothing on offer, and never asked to
    /// open.
    pub open spec fn absent() -> DeviceState {
        DeviceState {
            present: false,
            open: false,
            name: Seq::empty(),
            device_type_name: Seq::empty(),
            sample_rate: SampleRate { bits: 0 },
            buffer_size: 0,
            available_sample_rates: Seq::empty(),
            available_buffer_sizes: Seq::empty(),
            attempts: Seq::empty(),
        }
    }

    /// The attempts after one more attempt to open the device with
    /// `sample_rate` and `buffer_size`, which the device accepted or not.
    pub open spec fn attempted(
        self,
        sample_rate: SampleRate,
        buffer_size: usize,
        accepted: bool,
    ) -> Seq<OpenAttempt> {
        self.attempts.push(OpenAttempt { sample_rate, buffer_size, accepted })
    }
}

/// A trait representing an audio device.
///
/// `state` is specification only. A device that is verified says there what
/// it reports; any other device leaves it out, and nothing is known of what
/// it reports.
pub trait AudioIODevice {
    /// What the device reports of itself.
    open spec fn state(&self) -> DeviceState {
        arbitrary()
    }

    /// The name of the device.
    fn name(&self) -> (name: &str)
        ensures
            name@ == self.state().name,
    ;

    /// The type of the device.
    fn device_type_name(&self) -> (device_type_name: &str)
        ensures
            device_type_name@ == self.state().device_type_name,
    ;

    /// The current sample rate.
    fn sample_rate(&mut self) -> (sample_rate: SampleRate)
        ensures
            sample_rate == (*old(self)).state().sample_rate,
            (*final(self)).state() == (*old(self)).state(),
    ;

    /// The current buffer size.
    fn buffer_size(&mut self) -> (buffer_size: usize)
        ensures
            buffer_size == (*old(self)).state().buffer_size,
            (*final(self)).state() == (*old(self)).state(),
    ;

    /// The available sample rates.
    fn available_sample_rates(&mut self) -> (sample_rates: Vec<SampleRate>)
        ensures
            sample_rates@ == (*old(self)).state().available_sample_rates,
            (*final(self)).state() == (*old(self)).state(),
    ;

    /// The available buffer sizes.
    fn available_buffer_sizes(&mut self) -> (buffer_sizes: Vec<usize>)
        ensures
            buffer_sizes@ == (*old(self)).state().available_buffer_sizes,
            (*final(self)).state() == (*old(self)).state(),
    ;

    /// Tries to open the device so that it can be used for audio processing.
    ///
    /// A device that is there is asked once, for just this rate and buffer
    /// size, and the outcome is its answer: it is open if it accepted, and
    /// keeps its rate and buffer size if it did not. A device that is not
    /// there stays as it is.
    fn open(&mut self, sample_rate: SampleRate, buffer_size: usize) -> (outcome: Result<(), DeviceError>)
        ensures
            (*final(self)).state().present == (*old(self)).state().present,
            (*old(self)).state().present ==> (*final(self)).state().attempts
                == (*old(self)).state().attempted(sample_rate, buffer_size, outcome is Ok),
            !(*old(self)).state().present ==> (*final(self)).state() == (*old(self)).state(),
            outcome is Ok && (*old(self)).state().present ==> (*final(self)).state().open,
            outcome is Err ==> (*final(self)).state().sample_rate == (*old(self)).state().sample_rate,
            outcome is Err ==> (*final(self)).state().buffer_size == (*old(self)).state().buffer_size,
    ;

    /// Close the device.
    fn close(&mut self)
        ensures
            !(*final(self)).state().open,
            (*final(self)).state().present == (*old(self)).state().present,
            !(*old(self)).state().open ==> (*final(self)).state() == (*old(self)).state(),
    ;
}

impl<D: AudioIODevice + ?Sized> AudioIODevice for &mut D {
    open spec fn state(&self) -> DeviceState {
        (**self).state()
    }

    fn name(&self) -> (name: &str) {
        (**self).name()
    }

    fn device_type_name(&self) -> (device_type_name: &str) {
        (**self).device_type_name()
    }

    fn sample_rate(&mut self) -> (sample_rate: SampleRate) {
        (**self).sample_rate()
    }

    fn buffer_size(&mut self) -> (buffer_size: usize) {
        (**self).buffer_size()
    }

    fn available_sample_rates(&mut self) -> (sample_rates: Vec<SampleRate>) {
        (**self).available_sample_rates()
    }

    fn available_buffer_sizes(&mut self) -> (buffer_sizes: Vec<usize>) {
        (**self).available_buffer_sizes()
    }

    fn open(&mut self, sample_rate: SampleRate, buffer_size: usize) -> (outcome: Result<(), DeviceError>) {
        (**self).open(sample_rate, buffer_size)
    }

    fn close(&mut self) {
        (**self).close()
    }
}

impl<D: AudioIODevice + ?Sized> AudioIODevice for Box<D> {
    open spec fn state(&self) -> DeviceState {
        (**self).state()
    }

    fn name(&self) -> (name: &str) {
        (**self).name()
    }

    fn device_type_name(&self) -> (device_type_name: &str) {
        (**self).device_type_name()
    }

    fn sample_rate(&mut self) -> (sample_rate: SampleRate) {
        (**self).sample_rate()
    }

    fn buffer_size(&mut self) -> (buffer_size: usize) {
        (**self).buffer_size()
    }

    fn available_sample_rates(&mut self) -> (sample_rates: Vec<SampleRate>) {
        (**self).available_sample_rates()
    }

    fn available_buffer_sizes(&mut self) -> (buffer_sizes: Vec<usize>) {
        (**self).available_buffer_sizes()
    }

    fn open(&mut self, sample_rate: SampleRate, buffer_size: usize) -> (outcome: Result<(), DeviceError>) {
        (**self).open(sample_rate, buffer_size)
    }

    fn close(&mut self) {
        (**self).close()
    }
}

/// A handle to a device that may be absent.
///
/// A handle over a device behaves as the device does. A handle over nothing
/// answers every query with the default for its type and accepts every
/// request without doing anything: it never fails. The handle owns what it
/// holds: with `D` a device it is an owned device, with `D` a mutable
/// reference to one it is a borrowed device, and the two behave alike.
pub struct DeviceHandle<D: AudioIODevice> {
    device: Option<D>,
}

impl<D: AudioIODevice> DeviceHandle<D> {
    /// The device behind the handle, if there is one.
    pub closed spec fn device(&self) -> Option<D> {
        self.device
    }

    /// A handle to `device`, or to nothing.
    pub fn new(device: Option<D>) -> (handle: Self)
        ensures
            handle.device() == device,
    {
        DeviceHandle { device }
    }

    /// Gives up the handle for what it held.
    pub fn into_inner(self) -> (device: Option<D>)
        ensures
            device == self.device(),
    {
        self.device
    }
}

impl<D: AudioIODevice> AudioIODevice for DeviceHandle<D> {
    open spec fn state(&self) -> DeviceState {
        match self.device() {
            Some(device) => device.state(),
            None => DeviceState::absent(),
        }
    }

    fn name(&self) -> (name: &str) {
        match &self.device {
            Some(device) => device.name(),
            None => {
                proof {
                    reveal_strlit("");
                    assert(""@ =~= Seq::<char>::empty());
                }
                ""
            },
        }
    }

    fn device_type_name(&self) -> (device_type_name: &str) {
        match &self.device {
            Some(device) => device.device_type_name(),
            None => {
                proof {
                    reveal_strlit("");
                    assert(""@ =~= Seq::<char>::empty());
                }
                ""
            },
        }
    }

    fn sample_rate(&mut self) -> (sample_rate: SampleRate)
        ensures
            (*final(self)).device() is None <==> (*old(self)).device() is None,
    {
        match &mut self.device {
            Some(device) => device.sample_rate(),
            None => SampleRate { bits: 0 },
        }
    }

    fn buffer_size(&mut self) -> (buffer_size: usize)
        ensures
            (*final(self)).device() is None <==> (*old(self)).device() is None,
    {
        match &mut self.device {
            Some(device) => device.buffer_size(),
            None => 0,
        }
    }

    fn available_sample_rates(&mut self) -> (sample_rates: Vec<SampleRate>)
        ensures
            (*final(self)).device() is None <==> (*old(self)).device() is None,
    {
        match &mut self.device {
            Some(device) => device.available_sample_rates(),
            None => Vec::new(),
        }
    }

    fn available_buffer_sizes(&mut self) -> (buffer_sizes: Vec<usize>)
        ensures
            (*final(self)).device() is None <==> (*old(self)).device() is None,
    {
        match &mut self.device {
            Some(device) => device.available_buffer_sizes(),
            None => Vec::new(),
        }
    }

    fn open(&mut self, sample_rate: SampleRate, buffer_size: usize) -> (outcome: Result<(), DeviceError>)
        ensures
            (*old(self)).device() is None ==> outcome is Ok,
            (*final(self)).device() is None <==> (*old(self)).device() is None,
    {
        match &mut self.device {
            Some(device) => device.open(sample_rate, buffer_size),
            None => Ok(()),
        }
    }

    fn close(&mut self)
        ensures
            (*final(self)).device() is None <==> (*old(self)).device() is None,
    {
        match &mut self.device {
            Some(device) => device.close(),
            None => {},
        }
    }
}

/// A boxed device reports what the device reports. The definition says so;
/// this spells it out where it does not unfold by itself, as for a trait
/// object.
pub proof fn lemma_boxed_state<D: AudioIODevice + ?Sized>(device: Box<D>)
    ensures
        device.state() == (*device).state(),
{
}

/// A handle reports what its device reports, and a handle over nothing what
/// stands in for a device that is not there.
pub proof fn lemma_handle_state<D: AudioIODevice>(handle: DeviceHandle<D>)
    ensures
        handle.device() is None ==> handle.state() == DeviceState::absent(),
        handle.device() matches Some(device) ==> handle.state() == device.state(),
{
}

/// A handle over a borrowed device reports what a handle that owns the device
/// would report, and a handle over nothing reports the same whichever way it
/// would have held its device.
pub proof fn lemma_borrowed_as_owned<D: AudioIODevice>(
    owned: DeviceHandle<D>,
    borrowed: DeviceHandle<&mut D>,
)
    requires
        owned.device() is None <==> borrowed.device() is None,
        owned.device() matches Some(device) ==> *(borrowed.device()->0) == device,
    ensures
        owned.state() == borrowed.state(),
{
}

/// A device of any kind, as the engine holds it.
pub type BoxedAudioIODevice = Box<dyn AudioIODevice>;

/// The name of the device, as a string of its own.
pub fn device_name(device: &BoxedAudioIODevice) -> (name: String)
    ensures
        name@ == device.state().name,
{
    device.name().to_owned()
}

/// The name of the type of the device, as a string of its own.
pub fn device_type_name(device: &BoxedAudioIODevice) -> (device_type_name: String)
    ensures
        device_type_name@ == device.state().device_type_name,
{
    device.device_type_name().to_owned()
}

/// The current sample rate of the device.
pub fn device_sample_rate(device: &mut BoxedAudioIODevice) -> (sample_rate: SampleRate)
    ensures
        sample_rate == (*old(device)).state().sample_rate,
        (*final(device)).state() == (*old(device)).state(),
{
    device.sample_rate()
}

/// The current buffer size of the device.
pub fn device_buffer_size(device: &mut BoxedAudioIODevice) -> (buffer_size: usize)
    ensures
        buffer_size == (*old(device)).state().buffer_size,
        (*final(device)).state() == (*old(device)).state(),
{
    device.buffer_size()
}

/// The sample rates that the device offers.
pub fn device_available_sample_rates(
    device: &mut BoxedAudioIODevice,
) -> (sample_rates: Vec<SampleRate>)
    ensures
        sample_rates@ == (*old(device)).state().available_sample_rates,
        (*final(device)).state() == (*old(device)).state(),
{
    device.available_sample_rates()
}

/// The buffer sizes that the device offers.
pub fn device_available_buffer_sizes(
    device: &mut BoxedAudioIODevice,
) -> (buffer_sizes: Vec<usize>)
    ensures
        buffer_sizes@ == (*old(device)).state().available_buffer_sizes,
        (*final(device)).state() == (*old(device)).state(),
{
    device.available_buffer_sizes()
}

/// Opens the device, with just this rate and buffer size, and reports the
/// outcome as a diagnostic: the empty text when the device accepted the
/// configuration, else the text of its error, which is not empty. `DeviceError::outcome` reads the diagnostic back into
/// the outcome.
pub fn device_open(
    device: &mut BoxedAudioIODevice,
    sample_rate: SampleRate,
    buffer_size: usize,
) -> (diagnostic: String)
    ensures
        (*final(device)).state().present == (*old(device)).state().present,
        (*old(device)).state().present ==> (*final(device)).state().attempts
            == (*old(device)).state().attempted(sample_rate, buffer_size, diagnostic@.len() == 0),
        !(*old(device)).state().present ==> (*final(device)).state() == (*old(device)).state(),
        diagnostic@.len() == 0 && (*old(device)).state().present ==> (*final(device)).state().open,
        diagnostic@.len() > 0 ==> (*final(device)).state().sample_rate
            == (*old(device)).state().sample_rate,
        diagnostic@.len() > 0 ==> (*final(device)).state().buffer_size
            == (*old(device)).state().buffer_size,
{
    DeviceError::diagnostic_of(device.open(sample_rate, buffer_size))
}

/// Closes the device.
pub fn device_close(device: &mut BoxedAudioIODevice)
    ensures
        !(*final(device)).state().open,
        (*final(device)).state().present == (*old(device)).state().present,
        !(*old(device)).state().open ==> (*final(device)).state() == (*old(device)).state(),
{
    device.close()
}

} // verus!
