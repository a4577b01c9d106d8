//! Sets of channel counts that a device supports.
use vstd::prelude::*;

verus! {

/// Largest number of channels a device is probed for.
pub const MAX_PROBED: usize = 8;

/// The channel counts (1 through 8) that a device accepted when probed.
#[derive(Clone, Copy, Debug)]
pub struct ChannelSet {
    /// `accepted[i]` holds when `i + 1` channels are supported.
    pub accepted: [bool; 8],
}

impl ChannelSet {
    /// The supported counts, as a set of naturals.
    pub open spec fn view(&self) -> Set<nat> {
        Set::new(|c: nat| 1 <= c <= 8 && self.accepted@[c - 1])
    }

    /// Builds the set from one probe result per count, 1 through 8.
    pub fn from_probes(probes: [bool; 8]) -> (r: ChannelSet)
        ensures
            r.accepted@ == probes@,
            forall|c: nat| r@.contains(c) <==> (1 <= c <= 8 && probes@[c - 1]),
    {
        ChannelSet { accepted: probes }
    }

    /// Whether `count` channels are supported.
    pub fn contains(&self, count: usize) -> (r: bool)
        ensures
            r == self@.contains(count as nat),
    {
        if 1 <= count && count <= MAX_PROBED {
            self.accepted[count - 1]
        } else {
            false
        }
    }

    /// Whether no count at all is supported.
    pub fn is_empty(&self) -> (r: bool)
        ensures
            r == self@.is_empty(),
    {
        let mut i: usize = 0;
        while i < MAX_PROBED
            invariant
                i <= MAX_PROBED,
                forall|j: int| 0 <= j < i ==> !self.accepted@[j],
            decreases MAX_PROBED - i,
        {
            if self.accepted[i] {
                assert(self@.contains((i + 1) as nat));
                return false;
            }
            i = i + 1;
        }
        assert(self@ =~= Set::<nat>::empty());
        true
    }
}

} // verus!
