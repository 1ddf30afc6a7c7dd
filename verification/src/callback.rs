//! The contract of an audio callback, and the lifecycle of a callback that
//! is registered with the engine.

use crate::buffer::{cleared, InputAudioSampleBuffer, OutputAudioSampleBuffer};
use crate::device::AudioIODevice;
use crate::setup::SampleRate;
use vstd::prelude::*;

verus! {

/// What a callback can be told.
pub enum Notification {
    /// The device is about to start, with so many active channels and the
    /// rate and buffer size that were settled on.
    AboutToStart {
        input_channels: usize,
        output_channels: usize,
        sample_rate: SampleRate,
        buffer_size: usize,
    },
    /// A block of audio is due; `input` is what came in, and `output` what
    /// the output buffer held when it was handed over.
    ProcessBlock { input: Seq<Seq<u32>>, output: Seq<Seq<u32>> },
    /// The device has stopped.
    Stopped,
}

/// A trait that can be implemented to receive audio callbacks.
///
/// This trait requires that implementors are [`Send`] because the callbacks
/// will occur on the audio thread.
///
/// `notifications` is specification only. It stands for everything the
/// callback has been told so far, in order; each method adds what it was
/// called with, and nothing else does. A callback that is verified says there
/// how it keeps count; any other callback leaves it out.
pub trait AudioIODeviceCallback: Send {
    /// Everything the callback has been told, oldest first.
    open spec fn notifications(&self) -> Seq<Notification> {
        arbitrary()
    }

    /// Called when the audio device is about to start.
    fn about_to_start(
        &mut self,
        input_channels: usize,
        output_channels: usize,
        sample_rate: SampleRate,
        buffer_size: usize,
    )
        ensures
            (*final(self)).notifications() == (*old(self)).notifications().push(
                Notification::AboutToStart {
                    input_channels,
                    output_channels,
                    sample_rate,
                    buffer_size,
                },
            ),
    ;

    /// Process a block of incoming and outgoing audio. The callback may write
    /// any samples to `output`; it leaves the shape of `output` as it is.
    fn process_block(
        &mut self,
        input: &InputAudioSampleBuffer<'_>,
        output: &mut OutputAudioSampleBuffer,
    )
        ensures
            (*final(self)).notifications() == (*old(self)).notifications().push(
                Notification::ProcessBlock { input: input@, output: old(output)@ },
            ),
            final(output).spec_channels() == old(output).spec_channels(),
            final(output).spec_samples() == old(output).spec_samples(),
    ;

    /// Called when the audio device has stopped.
    fn stopped(&mut self)
        ensures
            (*final(self)).notifications() == (*old(self)).notifications().push(
                Notification::Stopped,
            ),
    ;
}

/// A callback of any kind, as the engine holds it.
pub type BoxedAudioIODeviceCallback = Box<dyn AudioIODeviceCallback>;

/// Where a registered callback stands.
#[derive(Clone, Copy, Debug, PartialEq, Eq, Structural)]
pub enum CallbackState {
    /// Registered; the device has not started.
    NotStarted,
    /// The device runs, and blocks are handed to the callback.
    Started,
    /// The device has stopped. Nothing is handed to the callback any more.
    Stopped,
}

/// Whether a registration in `state` hands `notification` on to its callback.
/// The start is handed on once, before anything else; blocks and the stop
/// only while the device runs.
pub open spec fn accepts(state: CallbackState, notification: Notification) -> bool {
    match notification {
        Notification::AboutToStart { .. } => state is NotStarted,
        Notification::ProcessBlock { .. } => state is Started,
        Notification::Stopped => state is Started,
    }
}

/// Where a registration in `state` stands after `notification` has come in.
pub open spec fn next_state(state: CallbackState, notification: Notification) -> CallbackState {
    if accepts(state, notification) {
        match notification {
            Notification::AboutToStart { .. } => CallbackState::Started,
            Notification::ProcessBlock { .. } => CallbackState::Started,
            Notification::Stopped => CallbackState::Stopped,
        }
    } else {
        state
    }
}

/// What the callback of a registration in `state` has been told after
/// `notification` has come in, if it had been told `told` before.
pub open spec fn next_told(
    state: CallbackState,
    told: Seq<Notification>,
    notification: Notification,
) -> Seq<Notification> {
    if accepts(state, notification) {
        told.push(notification)
    } else {
        told
    }
}

/// Where a registration stands, and what its callback has been told, after
/// the notifications `incoming` have come in one after the other.
pub open spec fn after_all(
    state: CallbackState,
    told: Seq<Notification>,
    incoming: Seq<Notification>,
) -> (CallbackState, Seq<Notification>)
    decreases incoming.len(),
{
    if incoming.len() == 0 {
        (state, told)
    } else {
        after_all(
            next_state(state, incoming[0]),
            next_told(state, told, incoming[0]),
            incoming.skip(1),
        )
    }
}

/// What a callback may have been told since it was registered, by where its
/// registration stands: nothing before the start; then the start, once, and
/// after it only blocks; and once stopped, the stop after the last block and
/// nothing after the stop.
pub open spec fn in_order(state: CallbackState, since: Seq<Notification>) -> bool {
    match state {
        CallbackState::NotStarted => since.len() == 0,
        CallbackState::Started => {
            &&& since.len() >= 1
            &&& since[0] is AboutToStart
            &&& forall|i: int| 1 <= i < since.len() ==> #[trigger] since[i] is ProcessBlock
        },
        CallbackState::Stopped => {
            &&& since.len() >= 2
            &&& since[0] is AboutToStart
            &&& since.last() is Stopped
            &&& forall|i: int| 1 <= i < since.len() - 1 ==> #[trigger] since[i] is ProcessBlock
        },
    }
}

/// Whatever comes in, a callback is told things in order: the start exactly
/// once and before the first block, the stop exactly once and after the last
/// block. Here `since` is what the callback has been told since it was
/// registered, and `before` what it had been told until then: what comes in
/// adds to the first and leaves the second alone.
pub proof fn lemma_told_in_order(
    state: CallbackState,
    before: Seq<Notification>,
    since: Seq<Notification>,
    notification: Notification,
)
    requires
        in_order(state, since),
    ensures
        in_order(next_state(state, notification), next_told(state, since, notification)),
        next_told(state, before + since, notification) == before + next_told(
            state,
            since,
            notification,
        ),
{
    if accepts(state, notification) {
        let next = since.push(notification);
        assert(forall|i: int| 0 <= i < since.len() ==> next[i] == since[i]);
        assert(next.last() == notification);
        assert((before + since).push(notification) =~= before + next);
    }
}

/// The same, of any run of notifications that follows a registration.
pub proof fn lemma_all_told_in_order(incoming: Seq<Notification>)
    ensures
        in_order(
            after_all(CallbackState::NotStarted, Seq::empty(), incoming).0,
            after_all(CallbackState::NotStarted, Seq::empty(), incoming).1,
        ),
{
    lemma_in_order_kept(CallbackState::NotStarted, Seq::empty(), incoming);
}

proof fn lemma_in_order_kept(
    state: CallbackState,
    since: Seq<Notification>,
    incoming: Seq<Notification>,
)
    requires
        in_order(state, since),
    ensures
        in_order(after_all(state, since, incoming).0, after_all(state, since, incoming).1),
    decreases incoming.len(),
{
    if incoming.len() > 0 {
        lemma_told_in_order(state, Seq::empty(), since, incoming[0]);
        lemma_in_order_kept(
            next_state(state, incoming[0]),
            next_told(state, since, incoming[0]),
            incoming.skip(1),
        );
    }
}

/// Once a registration has stopped, its callback is told nothing more,
/// whatever comes in, and the registration stays stopped.
pub proof fn lemma_nothing_after_stopped(told: Seq<Notification>, incoming: Seq<Notification>)
    ensures
        after_all(CallbackState::Stopped, told, incoming) == (CallbackState::Stopped, told),
    decreases incoming.len(),
{
    if incoming.len() > 0 {
        lemma_nothing_after_stopped(told, incoming.skip(1));
    }
}

/// A callback that is registered with the engine, and where it stands.
///
/// The engine reports the start of the device, each block and the stop to the
/// registration, through [`about_to_start`], [`process_block`] and
/// [`stopped`]. The registration hands on what is in order and drops the
/// rest, so that the callback sees one start, then blocks, then one stop.
pub struct CallbackRegistration<C: AudioIODeviceCallback + ?Sized> {
    state: CallbackState,
    callback: Box<C>,
}

impl<C: AudioIODeviceCallback + ?Sized> CallbackRegistration<C> {
    /// Where the registration stands, as a specification.
    pub closed spec fn spec_state(&self) -> CallbackState {
        self.state
    }

    /// Everything the callback has been told, oldest first.
    pub closed spec fn told(&self) -> Seq<Notification> {
        self.callback.notifications()
    }

    /// Registers `callback`: the device has not started for it.
    pub fn new(callback: Box<C>) -> (registration: Self)
        ensures
            registration.spec_state() == CallbackState::NotStarted,
            registration.told() == callback.notifications(),
    {
        CallbackRegistration { state: CallbackState::NotStarted, callback }
    }

    /// Takes the callback out of the registration, after which nothing can
    /// reach it through the registration any more. A callback whose device
    /// runs is told of the stop first; any other callback is told nothing.
    pub fn deregister(self) -> (callback: Box<C>)
        ensures
            callback.notifications() == next_told(
                self.spec_state(),
                self.told(),
                Notification::Stopped,
            ),
    {
        let mut registration = self;
        stopped(&mut registration);
        registration.callback
    }

    /// Where the registration stands.
    #[verifier::when_used_as_spec(spec_state)]
    pub fn state(&self) -> (state: CallbackState)
        ensures
            state == self.spec_state(),
    {
        self.state
    }
}

/// The device is about to start with so many active channels. A registration
/// that has not started tells its callback so, with the rate and the buffer
/// size that `device` reports, and has then started. Any other registration
/// stays as it is.
pub fn about_to_start<C: AudioIODeviceCallback + ?Sized, D: AudioIODevice + ?Sized>(
    registration: &mut CallbackRegistration<C>,
    device: &mut D,
    input_channels: usize,
    output_channels: usize,
)
    ensures
        (*final(device)).state() == (*old(device)).state(),
        final(registration).spec_state() == next_state(
            old(registration).spec_state(),
            Notification::AboutToStart {
                input_channels,
                output_channels,
                sample_rate: (*old(device)).state().sample_rate,
                buffer_size: (*old(device)).state().buffer_size,
            },
        ),
        final(registration).told() == next_told(
            old(registration).spec_state(),
            old(registration).told(),
            Notification::AboutToStart {
                input_channels,
                output_channels,
                sample_rate: (*old(device)).state().sample_rate,
                buffer_size: (*old(device)).state().buffer_size,
            },
        ),
{
    match registration.state {
        CallbackState::NotStarted => {
            let sample_rate = device.sample_rate();
            let buffer_size: usize = device.buffer_size();
            registration.callback.about_to_start(
                input_channels,
                output_channels,
                sample_rate,
                buffer_size,
            );
            registration.state = CallbackState::Started;
        },
        _ => {},
    }
}

/// A block of audio is due. The output is silenced first, so that whatever
/// the callback does not write is silence. A registration that has started
/// then hands the two buffers to its callback. Any other registration stays
/// as it is and leaves the output silent. The shape of `output` stays as it
/// is either way.
pub fn process_block<C: AudioIODeviceCallback + ?Sized>(
    registration: &mut CallbackRegistration<C>,
    input: &InputAudioSampleBuffer<'_>,
    output: &mut OutputAudioSampleBuffer,
)
    ensures
        final(registration).spec_state() == old(registration).spec_state(),
        final(registration).told() == next_told(
            old(registration).spec_state(),
            old(registration).told(),
            Notification::ProcessBlock { input: input@, output: cleared(old(output)@) },
        ),
        final(output).spec_channels() == old(output).spec_channels(),
        final(output).spec_samples() == old(output).spec_samples(),
        !(old(registration).spec_state() is Started) ==> final(output)@ == cleared(old(output)@),
{
    output.clear();
    match registration.state {
        CallbackState::Started => {
            registration.callback.process_block(input, output);
        },
        _ => {},
    }
}

/// The device has stopped. A registration that has started tells its callback
/// so, and has then stopped for good. Any other registration stays as it is.
pub fn stopped<C: AudioIODeviceCallback + ?Sized>(registration: &mut CallbackRegistration<C>)
    ensures
        final(registration).spec_state() == next_state(
            old(registration).spec_state(),
            Notification::Stopped,
        ),
        final(registration).told() == next_told(
            old(registration).spec_state(),
            old(registration).told(),
            Notification::Stopped,
        ),
{
    match registration.state {
        CallbackState::Started => {
            registration.callback.stopped();
            registration.state = CallbackState::Stopped;
        },
        _ => {},
    }
}

} // verus!
