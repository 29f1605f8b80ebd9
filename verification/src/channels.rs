//! A number of audio channels that an audio node can be given: at least one
//! and at most firewheel's limit of 64.

use vstd::prelude::*;

use crate::firewheel_bridge::{non_zero_channel_count_new, stereo_channel_count, MAX_CHANNELS};

verus! {

/// A channel count in `1..=64`, the values that firewheel's
/// `NonZeroChannelCount` holds.
#[derive(Debug, Clone, Copy, PartialEq, Eq)]
pub struct NonZeroChannels {
    count: u32,
}

impl View for NonZeroChannels {
    type V = nat;

    closed spec fn view(&self) -> nat {
        self.count as nat
    }
}

impl NonZeroChannels {
    /// The counts that a `NonZeroChannels` can hold.
    pub open spec fn valid_count(n: nat) -> bool {
        1 <= n && n <= MAX_CHANNELS
    }

    /// The counts a `NonZeroChannels` can hold are exactly `1..=64`.
    pub proof fn lemma_valid_count(n: nat)
        ensures
            Self::valid_count(n) <==> 1 <= n && n <= 64,
    {
    }

    #[verifier::type_invariant]
    spec fn inv(self) -> bool {
        Self::valid_count(self.count as nat)
    }

    /// Makes a channel count, or `None` where firewheel refuses the count
    /// (zero, or more than 64).
    pub fn new(count: u32) -> (r: Option<Self>)
        ensures
            r is Some <==> Self::valid_count(count as nat),
            r is Some <==> 1 <= count && count <= 64,
            r matches Some(c) ==> c@ == count,
    {
        match non_zero_channel_count_new(count) {
            Some(_) => Some(NonZeroChannels { count }),
            None => None,
        }
    }

    /// Two channels.
    pub fn stereo() -> (r: Self)
        ensures
            r@ == 2,
    {
        let count = stereo_channel_count();
        NonZeroChannels { count }
    }

    /// The number of channels.
    pub fn get(&self) -> (r: u32)
        ensures
            r == self@,
            Self::valid_count(r as nat),
            1 <= r && r <= 64,
    {
        proof {
            use_type_invariant(self);
        }
        self.count
    }
}

} // verus!
