//! The configuration of an audio device.

use vstd::prelude::*;

verus! {

/// A sample rate in hertz, carried as the bit pattern of an IEEE 754
/// double-precision number (`f64::to_bits`). Two rates are equal when their
/// bit patterns are.
#[derive(Clone, Copy, Debug, PartialEq, Eq, Structural)]
pub struct SampleRate {
    pub bits: u64,
}

impl SampleRate {
    /// The rate with the given bit pattern.
    pub fn from_bits(bits: u64) -> (rate: SampleRate)
        ensures
            rate.bits == bits,
    {
        SampleRate { bits }
    }

    /// The bit pattern of the rate.
    pub fn to_bits(self) -> (bits: u64)
        ensures
            bits == self.bits,
    {
        self.bits
    }
}

/// What a device setup holds.
pub struct AudioDeviceSetupView {
    pub output_device_name: Seq<char>,
    pub input_device_name: Seq<char>,
    pub sample_rate: SampleRate,
    pub buffer_size: usize,
}

impl AudioDeviceSetupView {
    /// The setup that names no device and leaves the rate and the buffer size
    /// to the device: both are zero.
    pub open spec fn unset() -> AudioDeviceSetupView {
        AudioDeviceSetupView {
            output_device_name: Seq::empty(),
            input_device_name: Seq::empty(),
            sample_rate: SampleRate { bits: 0 },
            buffer_size: 0,
        }
    }

    /// The setup with the output device named `name`.
    pub open spec fn with_output_device_name(self, name: Seq<char>) -> AudioDeviceSetupView {
        AudioDeviceSetupView { output_device_name: name, ..self }
    }

    /// The setup with the input device named `name`.
    pub open spec fn with_input_device_name(self, name: Seq<char>) -> AudioDeviceSetupView {
        AudioDeviceSetupView { input_device_name: name, ..self }
    }

    /// The setup with the sample rate `sample_rate`.
    pub open spec fn with_sample_rate(self, sample_rate: SampleRate) -> AudioDeviceSetupView {
        AudioDeviceSetupView { sample_rate, ..self }
    }

    /// The setup with the buffer size `buffer_size`.
    pub open spec fn with_buffer_size(self, buffer_size: usize) -> AudioDeviceSetupView {
        AudioDeviceSetupView { buffer_size, ..self }
    }
}

/// Each property of a setup reads back as it was last set, and setting one
/// property leaves the other three as they were.
pub proof fn lemma_setup_round_trip(
    setup: AudioDeviceSetupView,
    name: Seq<char>,
    sample_rate: SampleRate,
    buffer_size: usize,
)
    ensures
        setup.with_output_device_name(name).output_device_name == name,
        setup.with_output_device_name(name).input_device_name == setup.input_device_name,
        setup.with_output_device_name(name).sample_rate == setup.sample_rate,
        setup.with_output_device_name(name).buffer_size == setup.buffer_size,
        setup.with_input_device_name(name).input_device_name == name,
        setup.with_input_device_name(name).output_device_name == setup.output_device_name,
        setup.with_input_device_name(name).sample_rate == setup.sample_rate,
        setup.with_input_device_name(name).buffer_size == setup.buffer_size,
        setup.with_sample_rate(sample_rate).sample_rate == sample_rate,
        setup.with_sample_rate(sample_rate).output_device_name == setup.output_device_name,
        setup.with_sample_rate(sample_rate).input_device_name == setup.input_device_name,
        setup.with_sample_rate(sample_rate).buffer_size == setup.buffer_size,
        setup.with_buffer_size(buffer_size).buffer_size == buffer_size,
        setup.with_buffer_size(buffer_size).output_device_name == setup.output_device_name,
        setup.with_buffer_size(buffer_size).input_device_name == setup.input_device_name,
        setup.with_buffer_size(buffer_size).sample_rate == setup.sample_rate,
{
}

/// The properties of an audio device.
#[derive(Clone, Debug, PartialEq, Eq)]
pub struct AudioDeviceSetup {
    output_device_name: String,
    input_device_name: String,
    sample_rate: SampleRate,
    buffer_size: usize,
}

impl Default for AudioDeviceSetup {
    fn default() -> (setup: Self)
        ensures
            setup@ == AudioDeviceSetupView::unset(),
    {
        AudioDeviceSetup {
            output_device_name: String::new(),
            input_device_name: String::new(),
            sample_rate: SampleRate { bits: 0 },
            buffer_size: 0,
        }
    }
}

impl AudioDeviceSetup {
    /// What the setup holds.
    pub closed spec fn view(&self) -> AudioDeviceSetupView {
        AudioDeviceSetupView {
            output_device_name: self.output_device_name@,
            input_device_name: self.input_device_name@,
            sample_rate: self.sample_rate,
            buffer_size: self.buffer_size,
        }
    }

    /// The name of the output device.
    pub fn output_device_name(&self) -> (name: &str)
        ensures
            name@ == self@.output_device_name,
    {
        self.output_device_name.as_str()
    }

    /// Set the name of the output device.
    pub fn with_output_device_name(self, name: &str) -> (setup: Self)
        ensures
            setup@ == self@.with_output_device_name(name@),
    {
        let mut setup = self;
        setup.output_device_name = name.to_owned();
        setup
    }

    /// The name of the input device.
    pub fn input_device_name(&self) -> (name: &str)
        ensures
            name@ == self@.input_device_name,
    {
        self.input_device_name.as_str()
    }

    /// Set the name of the input device.
    pub fn with_input_device_name(self, name: &str) -> (setup: Self)
        ensures
            setup@ == self@.with_input_device_name(name@),
    {
        let mut setup = self;
        setup.input_device_name = name.to_owned();
        setup
    }

    /// The sample rate in Hertz.
    pub fn sample_rate(&self) -> (sample_rate: SampleRate)
        ensures
            sample_rate == self@.sample_rate,
    {
        self.sample_rate
    }

    /// Set the sample rate in Hertz.
    pub fn with_sample_rate(self, sample_rate: SampleRate) -> (setup: Self)
        ensures
            setup@ == self@.with_sample_rate(sample_rate),
    {
        let mut setup = self;
        setup.sample_rate = sample_rate;
        setup
    }

    /// The buffer size.
    pub fn buffer_size(&self) -> (buffer_size: usize)
        ensures
            buffer_size == self@.buffer_size,
    {
        self.buffer_size
    }

    /// The buffer size to use.
    pub fn with_buffer_size(self, buffer_size: usize) -> (setup: Self)
        ensures
            setup@ == self@.with_buffer_size(buffer_size),
    {
        let mut setup = self;
        setup.buffer_size = buffer_size;
        setup
    }
}

} // verus!
