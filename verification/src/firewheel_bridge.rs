//! The calls into `firewheel` that the library makes, with the contracts
//! that firewheel's source gives them.

use vstd::prelude::*;

use firewheel::channel_config::{ChannelConfig, NonZeroChannelCount};
use firewheel::mask::SilenceMask;

verus! {

#[verifier::external_type_specification]
#[verifier::external_body]
pub struct ExNonZeroChannelCount(NonZeroChannelCount);

#[verifier::external_type_specification]
#[verifier::external_body]
pub struct ExChannelConfig(ChannelConfig);

/// The largest number of channels that firewheel lets a node have.
pub const MAX_CHANNELS: u32 = 64;

/// True when bit `i` of `mask` is set, for every `i < min(n, 64)`: that is,
/// firewheel's reading of a silence mask in which the first `n` channels are
/// all marked silent.
pub open spec fn first_channels_marked(mask: u64, n: nat) -> bool {
    forall|i: u64| #![trigger (mask >> i)] i < n && i < 64 ==> (mask >> i) & 1u64 == 1u64
}

/// A mask with every bit set marks any number of leading channels as silent.
pub proof fn lemma_full_mask_marks_all(n: nat)
    ensures
        first_channels_marked(0xffff_ffff_ffff_ffffu64, n),
{
    assert forall|i: u64| i < n && i < 64 implies (0xffff_ffff_ffff_ffffu64 >> i) & 1u64
        == 1u64 by {
        assert((0xffff_ffff_ffff_ffffu64 >> i) & 1u64 == 1u64) by (bit_vector)
            requires
                i < 64,
        ;
    }
}

/// An empty mask marks no channel as silent: it marks a block of one or more
/// channels as silent never.
pub proof fn lemma_empty_mask_marks_none(n: nat)
    requires
        n >= 1,
    ensures
        !first_channels_marked(0u64, n),
{
    assert((0u64 >> 0u64) & 1u64 == 0u64) by (bit_vector);
}

/// Marking the first `n` channels silent marks every shorter prefix silent
/// too.
pub proof fn lemma_marked_prefix(mask: u64, m: nat, n: nat)
    requires
        m <= n,
        first_channels_marked(mask, n),
    ensures
        first_channels_marked(mask, m),
{
}

/// A mask marks the first `n` channels silent only if it marks the first one
/// (for `n >= 1`) and the second one (for `n >= 2`).
pub proof fn lemma_marked_first_two(mask: u64, n: nat)
    requires
        first_channels_marked(mask, n),
    ensures
        n >= 1 ==> mask % 2 == 1,
        n >= 2 ==> mask % 4 == 3,
{
    if n >= 1 {
        assert((mask >> 0u64) & 1u64 == 1u64);
        assert((mask >> 0u64) & 1u64 == 1u64 ==> mask % 2 == 1) by (bit_vector);
    }
    if n >= 2 {
        assert((mask >> 1u64) & 1u64 == 1u64);
        assert(((mask >> 0u64) & 1u64 == 1u64 && (mask >> 1u64) & 1u64 == 1u64) ==> mask % 4 == 3)
            by (bit_vector);
    }
}

/// Calls `firewheel::channel_config::NonZeroChannelCount::new`, which accepts a
/// channel count exactly when it lies in `1..=64` (`count > 0 && count <= 64`
/// in its body).
#[verifier::external_body]
pub(crate) fn non_zero_channel_count_new(count: u32) -> (r: Option<NonZeroChannelCount>)
    ensures
        r is Some <==> (0 < count && count <= MAX_CHANNELS),
{
    NonZeroChannelCount::new(count)
}

/// Reads firewheel's `NonZeroChannelCount::STEREO` through
/// `NonZeroChannelCount::get` and `ChannelCount::get`; the constant is defined
/// there as two channels.
#[verifier::external_body]
pub(crate) fn stereo_channel_count() -> (r: u32)
    ensures
        r == 2,
{
    NonZeroChannelCount::STEREO.get().get()
}

/// The channel configuration that `firewheel::channel_config::ChannelConfig::new`
/// builds from the given numbers of input and output channels. The
/// configuration is a plain pair of channel counts, so the same numbers always
/// give the same configuration.
pub uninterp spec fn firewheel_channel_config(num_inputs: u32, num_outputs: u32) -> ChannelConfig;

/// Calls `firewheel::channel_config::ChannelConfig::new` with both counts
/// converted through firewheel's `From<usize> for ChannelCount`, which panics on
/// a count above 64; the `requires` leaves those out. The result is stated only
/// as [`firewheel_channel_config`] of the two counts: what the opaque
/// configuration holds is left unsaid.
#[verifier::external_body]
pub(crate) fn channel_config_new(num_inputs: u32, num_outputs: u32) -> (r: ChannelConfig)
    requires
        num_inputs <= MAX_CHANNELS,
        num_outputs <= MAX_CHANNELS,
    ensures
        r == firewheel_channel_config(num_inputs, num_outputs),
{
    ChannelConfig::new(num_inputs as usize, num_outputs as usize)
}

/// Reads the public `num_inputs` and `num_outputs` fields of a
/// `firewheel::channel_config::ChannelConfig` through `ChannelCount::get`.
/// `ChannelConfig::new` stores the two counts it is given (converted through
/// `From<usize>`, which keeps counts up to 64), so a configuration built from
/// `num_inputs` and `num_outputs` gives back exactly those.
#[verifier::external_body]
pub(crate) fn read_channel_config_counts(config: &ChannelConfig) -> (r: (u32, u32))
    ensures
        forall|num_inputs: u32, num_outputs: u32|
            num_inputs <= MAX_CHANNELS && num_outputs <= MAX_CHANNELS && *config
                == #[trigger] firewheel_channel_config(num_inputs, num_outputs) ==> r == (
                num_inputs,
                num_outputs,
            ),
{
    (config.num_inputs.get(), config.num_outputs.get())
}

/// Calls `firewheel::mask::SilenceMask::all_channels_silent`, which reports
/// whether the first `num_channels` bits of the mask are all set (for
/// `num_channels >= 64`, whether the whole mask is set). Its documentation asks
/// for `num_channels <= 64`.
#[verifier::external_body]
pub(crate) fn all_channels_silent(mask: u64, num_channels: usize) -> (r: bool)
    requires
        num_channels <= 64,
    ensures
        r == first_channels_marked(mask, num_channels as nat),
{
    SilenceMask(mask).all_channels_silent(num_channels)
}

} // verus!
