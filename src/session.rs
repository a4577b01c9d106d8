//! One opened device: its name, its channel capabilities, the readiness
//! descriptors registered for it, and the order of its teardown.
use vstd::prelude::*;
use crate::channels::ChannelSet;

verus! {

/// An opened device (input or output). The native handle and hardware
/// parameters live with the caller; this value records what the session
/// logic decides on.
#[derive(Debug)]
pub struct AudioDevice {
    /// Human-readable name of the device.
    pub name: String,
    /// Channel counts the device accepted when it was opened.
    pub supported: ChannelSet,
    /// Number of readiness descriptors registered for the device.
    pub descriptors: usize,
    /// Whether `start` has been called.
    pub started: bool,
}

/// One collaborator call made while a session is torn down.
#[derive(Clone, Copy, Debug, PartialEq, Eq, Structural)]
pub enum TeardownCall {
    /// Deregister the descriptor with this index from the notifier.
    Deregister(usize),
    /// Free the negotiated hardware parameters.
    FreeParams,
    /// Close the device handle.
    Close,
}

/// The calls of a teardown with `n` registered descriptors, in order.
pub open spec fn teardown_order(n: nat) -> Seq<TeardownCall> {
    Seq::new(n, |i: int| TeardownCall::Deregister(i as usize)).push(TeardownCall::FreeParams).push(
        TeardownCall::Close,
    )
}

impl AudioDevice {
    /// A freshly opened device: no descriptor is registered yet.
    pub fn new(name: String, supported: ChannelSet) -> (r: AudioDevice)
        ensures
            r.name@ == name@,
            r.supported == supported,
            r.descriptors == 0,
            !r.started,
    {
        AudioDevice { name, supported, descriptors: 0, started: false }
    }

    /// Records the descriptors obtained for the device, `None` where the
    /// platform exposed none; the session then stays usable but never
    /// becomes ready.
    pub fn start(&mut self, obtained: Option<usize>)
        requires
            !old(self).started,
            old(self).descriptors == 0,
        ensures
            final(self).started,
            final(self).descriptors == match obtained {
                Some(n) => n,
                None => 0,
            },
            final(self).name == old(self).name,
            final(self).supported == old(self).supported,
    {
        self.started = true;
        if let Some(n) = obtained {
            self.descriptors = n;
        }
    }

    /// The display name of the device.
    pub fn name(&self) -> (r: String)
        ensures
            r@ == self.name@,
    {
        self.name.clone()
    }

    /// The calls that tear the session down: every descriptor is
    /// deregistered first, then the hardware parameters are freed, and the
    /// handle is closed last. The device is consumed: it is torn down once.
    pub fn teardown(self) -> (r: Vec<TeardownCall>)
        ensures
            r@ == teardown_order(self.descriptors as nat),
    {
        let mut r: Vec<TeardownCall> = Vec::new();
        let mut i: usize = 0;
        while i < self.descriptors
            invariant
                i <= self.descriptors,
                r@ == Seq::new(i as nat, |j: int| TeardownCall::Deregister(j as usize)),
            decreases self.descriptors - i,
        {
            r.push(TeardownCall::Deregister(i));
            i = i + 1;
            assert(r@ =~= Seq::new(i as nat, |j: int| TeardownCall::Deregister(j as usize)));
        }
        r.push(TeardownCall::FreeParams);
        r.push(TeardownCall::Close);
        r
    }
}

} // verus!
