//! The scheduling state machine shared by playback and capture: readiness
//! gating, the non-blocking transfer, fault recovery, channel-shape
//! negotiation and the one-period buffer lease.
use vstd::prelude::*;
use crate::session::AudioDevice;

verus! {

/// Value of a silent sample (the bit pattern of a zero sample).
pub const SILENCE: u32 = 0;

/// Native error code: the transfer would block.
pub const WOULD_BLOCK: i64 = -11;
/// Native error code: buffer underrun (playback) or overrun (capture).
pub const XRUN: i64 = -32;
/// Native error code: the stream was suspended.
pub const SUSPENDED: i64 = -86;

/// How the native layer answered one transfer attempt.
#[derive(Clone, Copy, Debug, PartialEq, Eq, Structural)]
pub enum Transfer {
    /// This many frames were transferred.
    Frames(u64),
    /// Nothing could be transferred without blocking.
    WouldBlock,
    /// Underrun or overrun.
    Xrun,
    /// The stream is suspended.
    Suspended,
    /// Any other error code.
    Error(i64),
}

/// What a native transfer result code means.
pub open spec fn transfer_of(code: i64) -> Transfer {
    if code >= 0 {
        Transfer::Frames(code as u64)
    } else if code == WOULD_BLOCK {
        Transfer::WouldBlock
    } else if code == XRUN {
        Transfer::Xrun
    } else if code == SUSPENDED {
        Transfer::Suspended
    } else {
        Transfer::Error(code)
    }
}

/// Classifies a native transfer result code.
pub fn classify(code: i64) -> (r: Transfer)
    ensures
        r == transfer_of(code),
{
    if code >= 0 {
        Transfer::Frames(code as u64)
    } else if code == WOULD_BLOCK {
        Transfer::WouldBlock
    } else if code == XRUN {
        Transfer::Xrun
    } else if code == SUSPENDED {
        Transfer::Suspended
    } else {
        Transfer::Error(code)
    }
}

/// The channel counts a caller may request: mono, stereo and 5.1.
pub open spec fn valid_shape(count: nat) -> bool {
    count == 1 || count == 2 || count == 6
}

/// Whether a frame shape of `count` channels may be requested.
pub fn is_supported_shape(count: usize) -> (r: bool)
    ensures
        r == valid_shape(count as nat),
{
    count == 1 || count == 2 || count == 6
}

/// Whether some descriptor did not report that nothing is ready.
pub fn any_ready(yields: &Vec<bool>) -> (r: bool)
    ensures
        r == exists|i: int| 0 <= i < yields@.len() && !yields@[i],
{
    let mut i: usize = 0;
    while i < yields.len()
        invariant
            i <= yields@.len(),
            forall|j: int| 0 <= j < i ==> yields@[j],
        decreases yields@.len() - i,
    {
        if !yields[i] {
            return true;
        }
        i = i + 1;
    }
    false
}

/// What a request for a frame shape asks of the session.
#[derive(Clone, Copy, Debug, PartialEq, Eq, Structural)]
pub enum ShapeChange {
    /// The shape is the negotiated one: nothing to do.
    Unchanged,
    /// The hardware must be renegotiated for the new channel count.
    Renegotiate,
    /// The channel count cannot be requested: a fatal usage error.
    Unsupported,
}

/// What requesting `requested` channels means when `current` are
/// negotiated.
pub open spec fn shape_change_of(current: nat, requested: nat) -> ShapeChange {
    if requested == current {
        ShapeChange::Unchanged
    } else if !valid_shape(requested) {
        ShapeChange::Unsupported
    } else {
        ShapeChange::Renegotiate
    }
}

/// A usage or native error after which the session cannot continue.
#[derive(Clone, Copy, Debug, PartialEq, Eq, Structural)]
pub enum Fault {
    /// The step ran while a buffer lease was still held.
    Reentrant,
    /// The stream reported an xrun but is not in the xrun state.
    StreamState,
    /// The native layer returned an error code it should not return.
    Native(i64),
    /// The transfer retried after recovery failed with this code.
    RecoveryFailed(i64),
}

/// Where the step stands within one scheduling round.
#[derive(Clone, Copy, Debug, PartialEq, Eq, Structural)]
pub enum Stage {
    /// Between rounds: the next event is a poll.
    Idle,
    /// A transfer was asked for: the next event is its result.
    Transferring,
    /// The stream state was asked for after an xrun.
    Querying,
    /// A recovery and retried transfer were asked for.
    Retrying,
}

/// What the caller performs next on behalf of the state machine.
#[derive(Clone, Copy, Debug, PartialEq, Eq, Structural)]
pub enum Action {
    /// Start the device (best effort), then report Ready so that a shape
    /// can be requested.
    StartReady,
    /// Report Ready: one period's buffer can be leased.
    Ready,
    /// Report Pending.
    Pending,
    /// Transfer one period of the working buffer.
    Transfer,
    /// Register the continuation once with each of this many descriptors,
    /// then report Pending.
    RegisterWakers(usize),
    /// Query the stream state and report whether it is in xrun.
    QueryState,
    /// Prepare the stream and retry the transfer once.
    PrepareRetry,
    /// Resume the stream (ignoring failure), prepare it and retry the
    /// transfer once.
    ResumePrepareRetry,
    /// Stop: the session cannot continue.
    Fatal(Fault),
}

/// What a poll asks for, given which descriptors reported that nothing is
/// ready.
pub open spec fn poll_action(s: Scheduler, yields: Seq<bool>) -> Action {
    if s.locked {
        Action::Fatal(Fault::Reentrant)
    } else if s.channels == 0 {
        Action::StartReady
    } else if exists|i: int| 0 <= i < yields.len() && !yields[i] {
        Action::Transfer
    } else {
        Action::Pending
    }
}

/// What the result code of a transfer asks for.
pub open spec fn transfer_action(s: Scheduler, code: i64) -> Action {
    match transfer_of(code) {
        Transfer::Frames(n) => if n <= s.period {
            Action::Ready
        } else {
            Action::Fatal(Fault::Native(code))
        },
        Transfer::WouldBlock => Action::RegisterWakers(s.device.descriptors),
        Transfer::Xrun => Action::QueryState,
        Transfer::Suspended => Action::ResumePrepareRetry,
        Transfer::Error(c) => Action::Fatal(Fault::Native(c)),
    }
}

/// What the result code of the transfer retried after recovery asks for.
pub open spec fn retry_action(s: Scheduler, code: i64) -> Action {
    if 0 <= code <= s.period {
        Action::Ready
    } else {
        Action::Fatal(Fault::RecoveryFailed(code))
    }
}

/// Carry frame and fractional phase kept between buffer leases, so that
/// resampling stays continuous across periods and shape changes.
#[derive(Clone, Copy, Debug)]
pub struct ResamplerState {
    /// The last frame, widened to six channels (sample bit patterns).
    pub carry: [u32; 6],
    /// The fractional resampling index (bit pattern of a value in [0, 1)).
    pub phase: u64,
}

/// The state of one playback or capture session.
#[derive(Debug)]
pub struct Scheduler {
    /// The device the session drives.
    pub device: AudioDevice,
    /// Capture (true) or playback (false).
    pub input: bool,
    /// Frame index at which the caller's window of the buffer starts.
    pub starti: usize,
    /// The working buffer, interleaved samples of one period.
    pub buffer: Vec<u32>,
    /// Resampling state between leases.
    pub resampler: ResamplerState,
    /// Frames per period.
    pub period: u16,
    /// Negotiated channel count; 0 until the first shape is requested.
    pub channels: u8,
    /// Negotiated sample rate.
    pub sample_rate: Option<u32>,
    /// Set from a Ready step until the period's lease is given back.
    pub locked: bool,
    /// Set while the lease of the current period is handed out.
    pub leased: bool,
    /// Where the current round stands.
    pub stage: Stage,
}

/// A lease over one period of the working buffer, handed out after Ready
/// and given back with `Scheduler::release`.
#[derive(Debug)]
pub struct Lease {
    /// Channel count of the frames of the lease.
    pub channels: u8,
    /// The resampling state the lease starts from.
    pub resampler: ResamplerState,
}

/// A buffer of `n` silent samples.
pub open spec fn silence(n: nat) -> Seq<u32> {
    Seq::new(n, |i: int| SILENCE)
}

/// The buffer after `frames` frames of `channels` channels were
/// transferred: the rest moves to the front and silence fills the end.
pub open spec fn shifted(buffer: Seq<u32>, frames: nat, channels: nat) -> Seq<u32> {
    buffer.subrange((frames * channels) as int, buffer.len() as int) + silence(frames * channels)
}

impl Scheduler {
    /// The invariant of a session.
    pub open spec fn wf(&self) -> bool {
        &&& self.channels == 0 || valid_shape(self.channels as nat)
        &&& self.channels == 0 ==> self.buffer@.len() == 0 && self.starti == 0
        &&& self.channels != 0 ==> self.buffer@.len() == self.period as nat * self.channels as nat
            && self.starti <= self.period
        &&& self.stage != Stage::Idle ==> self.channels != 0 && !self.locked
        &&& self.leased ==> self.locked
    }

    /// The scheduler state right after transferring `frames` frames.
    pub open spec fn completed(&self, frames: nat, after: Scheduler) -> bool {
        &&& after.buffer@ == shifted(self.buffer@, frames, self.channels as nat)
        &&& after.starti == self.period - frames
        &&& after.locked
        &&& after.stage == Stage::Idle
        &&& self.kept(after)
    }

    /// `after` keeps everything of `self` but the buffer, window, lock and
    /// stage.
    pub open spec fn kept(&self, after: Scheduler) -> bool {
        &&& after.device == self.device
        &&& after.input == self.input
        &&& after.resampler == self.resampler
        &&& after.period == self.period
        &&& after.channels == self.channels
        &&& after.sample_rate == self.sample_rate
        &&& after.leased == self.leased
    }

    /// A session over `device`, not yet configured.
    pub fn new(device: AudioDevice, input: bool) -> (r: Scheduler)
        ensures
            r.wf(),
            r.device == device,
            r.input == input,
            r.channels == 0,
            r.period == 0,
            r.buffer@.len() == 0,
            r.starti == 0,
            !r.locked,
            !r.leased,
            r.stage == Stage::Idle,
            r.sample_rate.is_none(),
            r.resampler.carry@ == Seq::new(6, |i: int| SILENCE),
            r.resampler.phase == 0,
    {
        Scheduler {
            device,
            input,
            starti: 0,
            buffer: Vec::new(),
            resampler: ResamplerState { carry: [SILENCE; 6], phase: 0 },
            period: 0,
            channels: 0,
            sample_rate: None,
            locked: false,
            leased: false,
            stage: Stage::Idle,
        }
    }
    /// Moves the untransferred rest of the buffer to its front, fills the
    /// end with silence, and opens the window after the rest. No
    /// allocation takes place.
    fn complete(&mut self, frames: u64)
        requires
            old(self).wf(),
            old(self).channels != 0,
            frames <= old(self).period,
        ensures
            old(self).completed(frames as nat, *final(self)),
            final(self).wf(),
    {
        let ch: usize = self.channels as usize;
        let n: usize = frames as usize;
        let k: usize = n * ch;
        let len: usize = self.buffer.len();
        proof {
            assert(n as nat * ch as nat <= self.period as nat * ch as nat) by (nonlinear_arith)
                requires n as nat <= self.period as nat;
        }
        let ghost before = self.buffer@;
        let mut i: usize = 0;
        while i < len - k
            invariant
                k <= len,
                n <= old(self).period,
                old(self).kept(*self),
                self.stage == old(self).stage,
                len == before.len(),
                self.buffer@.len() == len,
                i <= len - k,
                forall|j: int| 0 <= j < i ==> self.buffer@[j] == before[j + k],
                forall|j: int| i <= j < len ==> self.buffer@[j] == before[j],
            decreases len - k - i,
        {
            let v = self.buffer[i + k];
            self.buffer.set(i, v);
            i = i + 1;
        }
        while i < len
            invariant
                k <= len,
                n <= old(self).period,
                old(self).kept(*self),
                self.stage == old(self).stage,
                len == before.len(),
                self.buffer@.len() == len,
                len - k <= i <= len,
                forall|j: int| 0 <= j < len - k ==> self.buffer@[j] == before[j + k],
                forall|j: int| len - k <= j < i ==> self.buffer@[j] == SILENCE,
            decreases len - i,
        {
            self.buffer.set(i, SILENCE);
            i = i + 1;
        }
        assert(self.buffer@ =~= shifted(before, frames as nat, ch as nat));
        self.starti = (self.period as usize) - n;
        self.locked = true;
        self.stage = Stage::Idle;
    }

    /// The first half of a step: `yields[i]` tells whether descriptor `i`
    /// reported that nothing is ready.
    pub fn poll(&mut self, yields: &Vec<bool>) -> (r: Action)
        requires
            old(self).wf(),
            old(self).stage == Stage::Idle,
        ensures
            r == poll_action(*old(self), yields@),
            old(self).steps_to(*final(self)),
            final(self).wf(),
            old(self).locked ==> r == Action::Fatal(Fault::Reentrant) && *final(self) == *old(self),
            !old(self).locked && old(self).channels == 0 ==> r == Action::StartReady
                && final(self).locked && old(self).kept(*final(self))
                && final(self).buffer == old(self).buffer && final(self).starti == old(self).starti
                && final(self).stage == Stage::Idle,
            !old(self).locked && old(self).channels != 0 && (forall|i: int|
                0 <= i < yields@.len() ==> yields@[i]) ==> r == Action::Pending && *final(self)
                == *old(self),
            !old(self).locked && old(self).channels != 0 && (exists|i: int|
                0 <= i < yields@.len() && !yields@[i]) ==> r == Action::Transfer
                && final(self).stage == Stage::Transferring && !final(self).locked
                && old(self).kept(*final(self)) && final(self).buffer == old(self).buffer
                && final(self).starti == old(self).starti,
    {
        if self.locked {
            return Action::Fatal(Fault::Reentrant);
        }
        if self.channels == 0 {
            self.locked = true;
            return Action::StartReady;
        }
        if any_ready(yields) {
            self.stage = Stage::Transferring;
            return Action::Transfer;
        }
        Action::Pending
    }

    /// The result `code` of the transfer asked for by `poll`.
    pub fn transferred(&mut self, code: i64) -> (r: Action)
        requires
            old(self).wf(),
            old(self).stage == Stage::Transferring,
        ensures
            r == transfer_action(*old(self), code),
            old(self).steps_to(*final(self)),
            final(self).wf(),
            r == Action::Ready <==> (0 <= code <= old(self).period),
            0 <= code <= old(self).period ==> old(self).completed(code as nat, *final(self)),
            code > old(self).period ==> r == Action::Fatal(Fault::Native(code)),
            code == WOULD_BLOCK ==> r == Action::RegisterWakers(old(self).device.descriptors),
            code == XRUN ==> r == Action::QueryState && final(self).stage == Stage::Querying,
            code == SUSPENDED ==> r == Action::ResumePrepareRetry && final(self).stage
                == Stage::Retrying,
            code < 0 && code != WOULD_BLOCK && code != XRUN && code != SUSPENDED ==> r
                == Action::Fatal(Fault::Native(code)),
            !(0 <= code <= old(self).period) ==> old(self).kept(*final(self)) && final(self).buffer
                == old(self).buffer && final(self).starti == old(self).starti && !final(self).locked,
            code == WOULD_BLOCK || code > old(self).period || (code < 0 && code != XRUN && code
                != SUSPENDED) ==> final(self).stage == Stage::Idle,
    {
        match classify(code) {
            Transfer::Frames(n) => {
                if n <= self.period as u64 {
                    self.complete(n);
                    Action::Ready
                } else {
                    self.stage = Stage::Idle;
                    Action::Fatal(Fault::Native(code))
                }
            },
            Transfer::WouldBlock => {
                self.stage = Stage::Idle;
                Action::RegisterWakers(self.device.descriptors)
            },
            Transfer::Xrun => {
                self.stage = Stage::Querying;
                Action::QueryState
            },
            Transfer::Suspended => {
                self.stage = Stage::Retrying;
                Action::ResumePrepareRetry
            },
            Transfer::Error(c) => {
                self.stage = Stage::Idle;
                Action::Fatal(Fault::Native(c))
            },
        }
    }

    /// The stream state queried after an xrun: recovery goes on only where
    /// the stream is indeed in the xrun state.
    pub fn stream_state(&mut self, in_xrun: bool) -> (r: Action)
        requires
            old(self).wf(),
            old(self).stage == Stage::Querying,
        ensures
            old(self).steps_to(*final(self)),
            final(self).wf(),
            old(self).kept(*final(self)),
            final(self).buffer == old(self).buffer,
            final(self).starti == old(self).starti,
            final(self).locked == old(self).locked,
            in_xrun ==> r == Action::PrepareRetry && final(self).stage == Stage::Retrying,
            !in_xrun ==> r == Action::Fatal(Fault::StreamState) && final(self).stage == Stage::Idle,
    {
        if in_xrun {
            self.stage = Stage::Retrying;
            Action::PrepareRetry
        } else {
            self.stage = Stage::Idle;
            Action::Fatal(Fault::StreamState)
        }
    }

    /// The result `code` of the single transfer retried after recovery.
    pub fn retried(&mut self, code: i64) -> (r: Action)
        requires
            old(self).wf(),
            old(self).stage == Stage::Retrying,
        ensures
            r == retry_action(*old(self), code),
            old(self).steps_to(*final(self)),
            final(self).wf(),
            final(self).stage == Stage::Idle,
            0 <= code <= old(self).period ==> r == Action::Ready && old(self).completed(
                code as nat,
                *final(self),
            ),
            !(0 <= code <= old(self).period) ==> r == Action::Fatal(Fault::RecoveryFailed(code))
                && old(self).kept(*final(self)) && final(self).buffer == old(self).buffer
                && final(self).starti == old(self).starti && !final(self).locked,
    {
        if 0 <= code && code <= self.period as i64 {
            self.complete(code as u64);
            Action::Ready
        } else {
            self.stage = Stage::Idle;
            Action::Fatal(Fault::RecoveryFailed(code))
        }
    }

    /// `after` is the session renegotiated for `count` channels, with the
    /// hardware's period and rate: the buffer is one silent period.
    pub open spec fn reshaped(&self, count: u8, period: u16, rate: u32, after: Scheduler) -> bool {
        &&& after.channels == count
        &&& after.period == period
        &&& after.sample_rate == Some(rate)
        &&& after.buffer@ == silence(period as nat * count as nat)
        &&& after.starti == 0
        &&& after.device == self.device
        &&& after.input == self.input
        &&& after.resampler == self.resampler
        &&& after.locked == self.locked
        &&& after.leased == self.leased
        &&& after.stage == self.stage
    }

    /// One transition that is not a lease release: any step, or a
    /// renegotiation.
    pub open spec fn steps_to(&self, after: Scheduler) -> bool {
        ||| self.kept(after)
        ||| exists|c: u8, p: u16, r: u32| self.reshaped(c, p, r, after)
    }

    /// What requesting a frame shape of `requested` channels asks for.
    pub fn shape_change(&self, requested: usize) -> (r: ShapeChange)
        ensures
            r == shape_change_of(self.channels as nat, requested as nat),
    {
        if requested == self.channels as usize {
            ShapeChange::Unchanged
        } else if !is_supported_shape(requested) {
            ShapeChange::Unsupported
        } else {
            ShapeChange::Renegotiate
        }
    }

    /// Takes the hardware's answer to a renegotiation for `count` channels:
    /// its period length and sample rate. The working buffer becomes one
    /// silent period; the resampling state is kept.
    pub fn apply_shape(&mut self, count: u8, period: u16, rate: u32)
        requires
            old(self).wf(),
            valid_shape(count as nat),
        ensures
            final(self).wf(),
            old(self).reshaped(count, period, rate, *final(self)),
            old(self).steps_to(*final(self)),
    {
        let ghost before = *self;
        proof {
            assert(period as nat * count as nat <= 65535 * 6) by (nonlinear_arith)
                requires period <= 65535, count <= 6;
        }
        let total: usize = period as usize * count as usize;
        let mut buffer: Vec<u32> = Vec::new();
        let mut i: usize = 0;
        while i < total
            invariant
                i <= total,
                buffer@ == silence(i as nat),
            decreases total - i,
        {
            buffer.push(SILENCE);
            i = i + 1;
            assert(buffer@ =~= silence(i as nat));
        }
        self.buffer = buffer;
        self.channels = count;
        self.period = period;
        self.sample_rate = Some(rate);
        self.starti = 0;
        assert(before.reshaped(count, period, rate, *self));
    }

    /// The lease for the period that the last Ready opened, handed out
    /// once per Ready.
    pub fn lease(&mut self) -> (r: Lease)
        requires
            old(self).wf(),
            old(self).locked,
            !old(self).leased,
        ensures
            final(self).wf(),
            r.channels == old(self).channels,
            r.resampler == old(self).resampler,
            *final(self) == (Scheduler { leased: true, ..*old(self) }),
    {
        self.leased = true;
        Lease { channels: self.channels, resampler: self.resampler }
    }

    /// Gives a lease back: its resampling state is kept for the next
    /// period, and the session may be stepped again.
    pub fn release(&mut self, lease: Lease)
        requires
            old(self).wf(),
            old(self).leased,
        ensures
            final(self).wf(),
            final(self).resampler == lease.resampler,
            !final(self).locked,
            !final(self).leased,
            final(self).device == old(self).device,
            final(self).input == old(self).input,
            final(self).period == old(self).period,
            final(self).channels == old(self).channels,
            final(self).sample_rate == old(self).sample_rate,
            final(self).buffer == old(self).buffer,
            final(self).starti == old(self).starti,
            final(self).stage == old(self).stage,
    {
        self.resampler = lease.resampler;
        self.locked = false;
        self.leased = false;
    }

    /// Index of the first sample of the caller's window of the buffer.
    pub fn window_start(&self) -> (r: usize)
        requires
            self.wf(),
        ensures
            r == self.starti * self.channels,
            r <= self.buffer@.len(),
    {
        proof {
            assert(self.starti * self.channels <= self.period as nat * self.channels as nat)
                by (nonlinear_arith)
                requires self.starti <= self.period;
        }
        self.starti * self.channels as usize
    }

    /// Ends the session, handing its device back for teardown.
    pub fn into_device(self) -> (r: AudioDevice)
        ensures
            r == self.device,
    {
        self.device
    }

    /// The sample at `index` of the working buffer.
    pub fn sample(&self, index: usize) -> (r: u32)
        requires
            index < self.buffer@.len(),
        ensures
            r == self.buffer@[index as int],
    {
        self.buffer[index]
    }

    /// Writes a sample inside the caller's window of the buffer.
    pub fn set_sample(&mut self, index: usize, value: u32)
        requires
            old(self).wf(),
            old(self).starti * old(self).channels <= index < old(self).buffer@.len(),
        ensures
            old(self).steps_to(*final(self)),
            final(self).wf(),
            final(self).buffer@ == old(self).buffer@.update(index as int, value),
            old(self).kept(*final(self)),
            final(self).starti == old(self).starti,
            final(self).locked == old(self).locked,
            final(self).stage == old(self).stage,
    {
        self.buffer.set(index, value);
    }

    /// The negotiated sample rate.
    pub fn sample_rate(&self) -> (r: u32)
        requires
            self.sample_rate.is_some(),
        ensures
            self.sample_rate == Some(r),
    {
        match self.sample_rate {
            Some(rate) => rate,
            None => 0,
        }
    }
}

/// A shape of `c` channels, requested of a session negotiated for another
/// count, asks for renegotiation; after it the working buffer holds exactly
/// one period of `c` channels, and the lock, lease and resampling state are
/// as before.
pub proof fn lemma_reshape_sizes_buffer(s: Scheduler, c: u8, period: u16, rate: u32, t: Scheduler)
    requires
        valid_shape(c as nat),
        s.channels != c,
        s.reshaped(c, period, rate, t),
    ensures
        shape_change_of(s.channels as nat, c as nat) == ShapeChange::Renegotiate,
        t.buffer@.len() == period as nat * c as nat,
        t.channels == c,
        t.locked == s.locked,
        t.leased == s.leased,
        t.resampler == s.resampler,
{
}

/// The resampling state that a release stores is the one that the next
/// lease starts from, whatever steps and shape changes come between.
pub proof fn lemma_resampler_carried(given: Lease, trace: Seq<Scheduler>, next: Lease)
    requires
        trace.len() > 0,
        trace[0].resampler == given.resampler,
        forall|i: int| 0 <= i < trace.len() - 1 ==> #[trigger] trace[i].steps_to(trace[i + 1]),
        next.resampler == trace.last().resampler,
    ensures
        next.resampler == given.resampler,
    decreases trace.len(),
{
    if trace.len() > 1 {
        let rest = trace.drop_last();
        assert forall|i: int| 0 <= i < rest.len() - 1 implies #[trigger] rest[i].steps_to(rest[i + 1]) by {
            assert(trace[i].steps_to(trace[i + 1]));
        }
        let prev = Lease { channels: 0, resampler: rest.last().resampler };
        lemma_resampler_carried(given, rest, prev);
        let j = trace.len() - 2;
        assert(trace[j].steps_to(trace[j + 1]));
    }
}

/// A transfer that would block asks for one continuation on each
/// descriptor and leaves the session unlocked; once a descriptor is ready
/// the next poll asks for the transfer, and a transfer that moves at most a
/// period reports Ready.
pub proof fn lemma_would_block_then_ready(s: Scheduler, yields: Seq<bool>, frames: i64)
    requires
        s.wf(),
        s.channels != 0,
        !s.locked,
        exists|i: int| 0 <= i < yields.len() && !yields[i],
        0 <= frames <= s.period,
    ensures
        transfer_action(s, WOULD_BLOCK) == Action::RegisterWakers(s.device.descriptors),
        poll_action(s, yields) == Action::Transfer,
        transfer_action(s, frames) == Action::Ready,
{
}

/// An underrun asks for exactly one prepare and retry: a retry that moves
/// at most a period reports Ready, any other result is fatal.
pub proof fn lemma_xrun_single_retry(s: Scheduler, code: i64)
    requires
        s.wf(),
    ensures
        transfer_action(s, XRUN) == Action::QueryState,
        0 <= code <= s.period ==> retry_action(s, code) == Action::Ready,
        !(0 <= code <= s.period) ==> retry_action(s, code) == Action::Fatal(
            Fault::RecoveryFailed(code),
        ),
{
}

} // verus!
