//! The sound waves are _so_ wavy!
//!
//! Asynchronous low-latency audio recording and playback. A session is
//! driven by a small state machine: each step either reports Pending, or
//! reports Ready and hands out a lease over one period of the working
//! buffer, which must be given back before the next step. Native calls are
//! made by the caller on the state machine's behalf; this crate decides
//! which, and in what order.
use vstd::prelude::*;
use vstd::string::*;

pub mod channels;
pub mod hints;
pub mod session;
pub mod scheduler;

use crate::channels::ChannelSet;
use crate::hints::{candidates, selects, Candidate, Hint};
use crate::scheduler::{Lease, Scheduler, Stage, SILENCE};
use crate::session::AudioDevice;

verus! {

/// Default preferred sample rate for audio devices
pub const DEFAULT_SAMPLE_RATE: u32 = 48_000;

/// Default preferred number of chunks in the ring buffer
pub const DEFAULT_CHUNKS: usize = 8;

/// Default preferred number of frames in a chunk
pub const DEFAULT_FRAMES: usize = 32;

/// Default preferred audio device configuration
pub type DefaultAudioConfig = AudioConfig<DEFAULT_SAMPLE_RATE, DEFAULT_CHUNKS, DEFAULT_FRAMES>;

/// Configuration for an audio device
pub struct AudioConfig<const SAMPLE_RATE: u32, const CHUNKS: usize, const FRAMES: usize>;

/// Capture session: the state machine configured for recording.
#[derive(Debug)]
pub struct Microphone {
    pub scheduler: Scheduler,
}

/// Playback session: the state machine configured for playing.
#[derive(Debug)]
pub struct Speakers {
    pub scheduler: Scheduler,
}

/// Chunked stream of recorded audio: the lease of one recorded period.
#[derive(Debug)]
pub struct MicrophoneStream {
    pub lease: Lease,
}

/// Chunked sink for audio playback: the lease of one period to fill.
#[derive(Debug)]
pub struct SpeakersSink {
    pub lease: Lease,
}

/// Finds microphones among the sound subsystem's device hints.
pub struct MicrophoneFinder<T = DefaultAudioConfig> {
    pub audio_config: T,
}

/// Finds speakers among the sound subsystem's device hints.
pub struct SpeakersFinder<T = DefaultAudioConfig> {
    pub audio_config: T,
}

/// Sends data to another async executor
pub struct QueueSender<T, const N: usize> {
    t: T,
}

/// Receives data from another async executor
pub struct QueueReceiver<T, const N: usize> {
    t: T,
}

/// Send a single-threaded future to the audio executor; the executor is
/// run by the caller's runtime, so nothing is queued here.
pub fn spawn_audio_task<F, G>(f: G) where G: FnOnce() -> F + Send, F: std::future::Future<Output = ()> {
}

impl Speakers {
    /// Playback on the system's default device, which offers these
    /// channel counts.
    pub fn default_device(supported: ChannelSet) -> (r: Speakers)
        ensures
            r.scheduler.wf(),
            r.scheduler.device.name@ == "Default"@,
            r.scheduler.device.supported == supported,
            r.scheduler.device.descriptors == 0,
            !r.scheduler.device.started,
            !r.scheduler.input,
            r.scheduler.channels == 0,
            !r.scheduler.locked,
            r.scheduler.sample_rate.is_none(),
            r.scheduler.period == 0,
            r.scheduler.resampler.carry@ == Seq::new(6, |i: int| SILENCE),
            r.scheduler.resampler.phase == 0,
            !r.scheduler.leased,
            r.scheduler.stage == Stage::Idle,
    {
        Speakers::from_device(AudioDevice::new(String::from_str("Default"), supported))
    }

    /// A playback session over an opened device, not yet configured.
    pub fn from_device(device: AudioDevice) -> (r: Speakers)
        ensures
            r.scheduler.wf(),
            r.scheduler.device == device,
            !r.scheduler.input,
            r.scheduler.channels == 0,
            !r.scheduler.locked,
            r.scheduler.sample_rate.is_none(),
            r.scheduler.period == 0,
            r.scheduler.resampler.carry@ == Seq::new(6, |i: int| SILENCE),
            r.scheduler.resampler.phase == 0,
            !r.scheduler.leased,
            r.scheduler.stage == Stage::Idle,
    {
        Speakers { scheduler: Scheduler::new(device, false) }
    }

    /// The channel counts the speakers support.
    pub fn channels(&self) -> (r: ChannelSet)
        ensures
            r == self.scheduler.device.supported,
    {
        self.scheduler.device.supported
    }

    /// The name of the speakers.
    pub fn name(&self) -> (r: String)
        ensures
            r@ == self.scheduler.device.name@,
    {
        self.scheduler.device.name()
    }

    /// The sink for the period that the last Ready opened.
    pub fn play(&mut self) -> (r: SpeakersSink)
        requires
            old(self).scheduler.wf(),
            old(self).scheduler.locked,
            !old(self).scheduler.leased,
        ensures
            final(self).scheduler.wf(),
            r.lease.channels == old(self).scheduler.channels,
            r.lease.resampler == old(self).scheduler.resampler,
            final(self).scheduler == (Scheduler { leased: true, ..old(self).scheduler }),
    {
        SpeakersSink { lease: self.scheduler.lease() }
    }

    /// The sample rate the hardware was negotiated for.
    pub fn sample_rate(&self) -> (r: u32)
        requires
            self.scheduler.sample_rate.is_some(),
        ensures
            self.scheduler.sample_rate == Some(r),
    {
        self.scheduler.sample_rate()
    }

    /// Gives the sink back once the period is filled.
    pub fn release(&mut self, sink: SpeakersSink)
        requires
            old(self).scheduler.wf(),
            old(self).scheduler.leased,
        ensures
            final(self).scheduler.wf(),
            !final(self).scheduler.leased,
            final(self).scheduler.resampler == sink.lease.resampler,
            !final(self).scheduler.locked,
            final(self).scheduler.device == old(self).scheduler.device,
            final(self).scheduler.input == old(self).scheduler.input,
            final(self).scheduler.period == old(self).scheduler.period,
            final(self).scheduler.sample_rate == old(self).scheduler.sample_rate,
            final(self).scheduler.starti == old(self).scheduler.starti,
            final(self).scheduler.buffer == old(self).scheduler.buffer,
            final(self).scheduler.channels == old(self).scheduler.channels,
            final(self).scheduler.stage == old(self).scheduler.stage,
    {
        self.scheduler.release(sink.lease);
    }
}

impl Microphone {
    /// A capture session over an opened device, not yet configured.
    pub fn from_device(device: AudioDevice) -> (r: Microphone)
        ensures
            r.scheduler.wf(),
            r.scheduler.device == device,
            r.scheduler.input,
            r.scheduler.channels == 0,
            !r.scheduler.locked,
            r.scheduler.sample_rate.is_none(),
            r.scheduler.period == 0,
            r.scheduler.resampler.carry@ == Seq::new(6, |i: int| SILENCE),
            r.scheduler.resampler.phase == 0,
            !r.scheduler.leased,
            r.scheduler.stage == Stage::Idle,
    {
        Microphone { scheduler: Scheduler::new(device, true) }
    }

    /// The channel counts the microphone supports.
    pub fn channels(&self) -> (r: ChannelSet)
        ensures
            r == self.scheduler.device.supported,
    {
        self.scheduler.device.supported
    }

    /// The name of the microphone.
    pub fn name(&self) -> (r: String)
        ensures
            r@ == self.scheduler.device.name@,
    {
        self.scheduler.device.name()
    }

    /// The stream of the period that the last Ready brought in.
    pub fn record(&mut self) -> (r: MicrophoneStream)
        requires
            old(self).scheduler.wf(),
            old(self).scheduler.locked,
            !old(self).scheduler.leased,
        ensures
            final(self).scheduler.wf(),
            r.lease.channels == old(self).scheduler.channels,
            r.lease.resampler == old(self).scheduler.resampler,
            final(self).scheduler == (Scheduler { leased: true, ..old(self).scheduler }),
    {
        MicrophoneStream { lease: self.scheduler.lease() }
    }

    /// The sample rate the hardware was negotiated for.
    pub fn sample_rate(&self) -> (r: u32)
        requires
            self.scheduler.sample_rate.is_some(),
        ensures
            self.scheduler.sample_rate == Some(r),
    {
        self.scheduler.sample_rate()
    }

    /// Gives the stream back once the period is read.
    pub fn release(&mut self, stream: MicrophoneStream)
        requires
            old(self).scheduler.wf(),
            old(self).scheduler.leased,
        ensures
            final(self).scheduler.wf(),
            !final(self).scheduler.leased,
            final(self).scheduler.resampler == stream.lease.resampler,
            !final(self).scheduler.locked,
            final(self).scheduler.device == old(self).scheduler.device,
            final(self).scheduler.input == old(self).scheduler.input,
            final(self).scheduler.period == old(self).scheduler.period,
            final(self).scheduler.sample_rate == old(self).scheduler.sample_rate,
            final(self).scheduler.starti == old(self).scheduler.starti,
            final(self).scheduler.buffer == old(self).scheduler.buffer,
            final(self).scheduler.channels == old(self).scheduler.channels,
            final(self).scheduler.stage == old(self).scheduler.stage,
    {
        self.scheduler.release(stream.lease);
    }
}

impl<T> MicrophoneFinder<T> {
    /// A finder with the given configuration.
    pub fn new(audio_config: T) -> (r: Self)
        ensures
            r.audio_config == audio_config,
    {
        MicrophoneFinder { audio_config }
    }

    /// The hints to open as microphones, with their names.
    pub fn candidates(&self, hints: &Vec<Hint>) -> (r: Vec<Candidate>)
        ensures
            selects(hints@, true, r@),
    {
        candidates(hints, true)
    }
}

impl<T> SpeakersFinder<T> {
    /// A finder with the given configuration.
    pub fn new(audio_config: T) -> (r: Self)
        ensures
            r.audio_config == audio_config,
    {
        SpeakersFinder { audio_config }
    }

    /// The hints to open as speakers, with their names.
    pub fn candidates(&self, hints: &Vec<Hint>) -> (r: Vec<Candidate>)
        ensures
            selects(hints@, false, r@),
    {
        candidates(hints, false)
    }
}

} // verus!
