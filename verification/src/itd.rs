//! Channel decisions of the interaural time difference (ITD) node: how many
//! input channels it takes, how its channels are laid out, and when a block of
//! input counts as silent.

use vstd::prelude::*;

use firewheel::channel_config::ChannelConfig;

use crate::channels::NonZeroChannels;
use crate::firewheel_bridge::{
    all_channels_silent, channel_config_new, firewheel_channel_config, first_channels_marked,
    lemma_marked_first_two, read_channel_config_counts,
};

verus! {

/// The input configuration of the ITD node.
///
/// The node's configuration defaults to [`InputConfig::Stereo`].
#[derive(Debug, Clone, Copy, PartialEq, Eq)]
pub enum InputConfig {
    /// Delay the left and right channels without downmixing.
    ///
    /// This is useful for composing spatial effects.
    Stereo,
    /// Downmix the signal to mono, then delay the left and right channels.
    Downmixed(NonZeroChannels),
}

impl InputConfig {
    /// The number of input channels of a configuration.
    pub open spec fn spec_input_channels(self) -> nat {
        match self {
            InputConfig::Stereo => 2,
            InputConfig::Downmixed(c) => c@,
        }
    }

    /// The number of leading channels of the silence mask that decide whether
    /// a block is silent: both stereo channels, and every downmixed channel,
    /// but never fewer than two.
    pub open spec fn spec_silence_channels(self) -> nat {
        if self.spec_input_channels() < 2 {
            2
        } else {
            self.spec_input_channels()
        }
    }

    /// A stereo input has two channels, and a downmix as many as it holds.
    pub proof fn lemma_input_channels(self)
        ensures
            self is Stereo ==> self.spec_input_channels() == 2,
            self matches InputConfig::Downmixed(c) ==> self.spec_input_channels() == c@,
    {
    }

    /// The silence decision looks at `max(2, input channels)` channels: two for
    /// a stereo input and for a mono downmix, every channel of a wider downmix.
    pub proof fn lemma_silence_channels(self)
        ensures
            self is Stereo ==> self.spec_silence_channels() == 2,
            self matches InputConfig::Downmixed(c) ==> self.spec_silence_channels() == if c@ < 2 {
                2
            } else {
                c@
            },
            self.spec_silence_channels() >= 2,
            self.spec_silence_channels() >= self.spec_input_channels(),
    {
    }

    /// Get the number of input channels.
    pub fn input_channels(&self) -> (r: NonZeroChannels)
        ensures
            r@ == self.spec_input_channels(),
            self is Stereo ==> r@ == 2,
            self matches InputConfig::Downmixed(c) ==> r@ == c@,
    {
        match self {
            InputConfig::Stereo => NonZeroChannels::stereo(),
            InputConfig::Downmixed(c) => *c,
        }
    }
}

/// The numbers of input and output channels of the ITD node.
#[derive(Debug, Clone, Copy, PartialEq, Eq)]
pub struct ItdChannelLayout {
    pub num_inputs: u32,
    pub num_outputs: u32,
}

/// The ITD node always writes a left and a right channel.
pub open spec fn itd_output_channels() -> nat {
    2
}

/// The channel layout of an ITD node: as many inputs as its input
/// configuration asks for, and two outputs.
pub fn itd_channel_layout(input_config: &InputConfig) -> (r: ItdChannelLayout)
    ensures
        r.num_inputs == input_config.spec_input_channels(),
        r.num_inputs == match *input_config {
        InputConfig::Stereo => 2nat,
        InputConfig::Downmixed(c) => c@,
    },
        r.num_outputs == itd_output_channels(),
        r.num_outputs == 2,
        1 <= r.num_inputs <= 64,
{
    let num_inputs = input_config.input_channels().get();
    ItdChannelLayout { num_inputs, num_outputs: 2 }
}

/// The firewheel channel configuration of an ITD node, built from
/// [`itd_channel_layout`]: as many inputs as the input configuration asks for,
/// and two outputs.
pub fn itd_channel_config(input_config: &InputConfig) -> (r: ChannelConfig)
    ensures
        r == firewheel_channel_config(
            input_config.spec_input_channels() as u32,
            itd_output_channels() as u32,
        ),
        r == firewheel_channel_config(
            (match *input_config {
                InputConfig::Stereo => 2nat,
                InputConfig::Downmixed(c) => c@,
            }) as u32,
            2,
        ),
{
    let layout = itd_channel_layout(input_config);
    channel_config_new(layout.num_inputs, layout.num_outputs)
}

/// Whether a block of input is silent for the ITD node: the first
/// `max(2, input channels)` channels are all marked silent in firewheel's
/// silence mask, where bit 0 is the first channel. That is both channels of a
/// stereo input, every channel of a downmix of two or more, and the first two
/// channels for a mono downmix (firewheel never marks the absent second
/// channel, so a mono block is never treated as silent).
pub fn itd_inputs_silent(input_config: &InputConfig, in_silence_mask: u64) -> (r: bool)
    ensures
        r == first_channels_marked(in_silence_mask, input_config.spec_silence_channels()),
        r == first_channels_marked(
            in_silence_mask,
            match *input_config {
                InputConfig::Stereo => 2nat,
                InputConfig::Downmixed(c) => if c@ < 2 {
                    2nat
                } else {
                    c@
                },
            },
        ),
{
    let num_inputs = input_config.input_channels().get();
    let num_channels: u32 = if num_inputs < 2 {
        2
    } else {
        num_inputs
    };
    all_channels_silent(in_silence_mask, num_channels as usize)
}

/// A stereo block is silent exactly when both of its channels, bits 0 and 1
/// of the mask, are marked silent; for a mono downmix the same two bits
/// decide.
pub proof fn lemma_two_channel_silence(input_config: InputConfig, mask: u64)
    requires
        input_config.spec_input_channels() <= 2,
    ensures
        first_channels_marked(mask, input_config.spec_silence_channels()) <==> mask % 4 == 3,
{
    input_config.lemma_silence_channels();
    if first_channels_marked(mask, input_config.spec_silence_channels()) {
        lemma_marked_first_two(mask, 2);
    }
    if mask % 4 == 3 {
        assert(mask % 4 == 3 ==> ((mask >> 0u64) & 1u64 == 1u64 && (mask >> 1u64) & 1u64 == 1u64))
            by (bit_vector);
        assert forall|i: u64| i < 2 && i < 64 implies (mask >> i) & 1u64 == 1u64 by {
            if i == 0 {
                assert((mask >> 0u64) & 1u64 == 1u64);
            } else {
                assert((mask >> 1u64) & 1u64 == 1u64);
            }
        }
    }
}

/// What the ITD node does with one block of audio.
#[derive(Debug, Clone, Copy, PartialEq, Eq)]
pub enum ItdProcessStep {
    /// All inputs are silent: the outputs are cleared and nothing is processed.
    ClearAllOutputs,
    /// The first input feeds the left delay line and the second the right one.
    Stereo,
    /// The inputs are summed, divided by `channels`, and the mono signal feeds
    /// both delay lines.
    Downmix { channels: u32 },
}

/// The step that the ITD node takes for a block, given its input
/// configuration, the silence mask of its inputs, and the numbers of input and
/// output buffers that firewheel hands it (as many inputs as the configuration
/// asks for, two outputs). A downmix divides by the number of input buffers,
/// which is at least one.
pub fn itd_process_step(
    input_config: &InputConfig,
    in_silence_mask: u64,
    num_input_buffers: usize,
    num_output_buffers: usize,
) -> (r: ItdProcessStep)
    requires
        num_input_buffers == input_config.spec_input_channels(),
        num_output_buffers == itd_output_channels(),
    ensures
        first_channels_marked(in_silence_mask, input_config.spec_silence_channels()) ==> r
            == ItdProcessStep::ClearAllOutputs,
        !first_channels_marked(in_silence_mask, input_config.spec_silence_channels()) ==> match
            input_config {
            InputConfig::Stereo => r == ItdProcessStep::Stereo,
            InputConfig::Downmixed(c) => r == ItdProcessStep::Downmix { channels: c@ as u32 },
        },
        (r is ClearAllOutputs) <==> first_channels_marked(
            in_silence_mask,
            match *input_config {
                InputConfig::Stereo => 2nat,
                InputConfig::Downmixed(c) => if c@ < 2 {
                    2nat
                } else {
                    c@
                },
            },
        ),
        (input_config is Stereo && !(r is ClearAllOutputs)) ==> (r is Stereo),
        input_config matches InputConfig::Downmixed(c) ==> (!(r is ClearAllOutputs) ==> r
            == (ItdProcessStep::Downmix { channels: c@ as u32 })),
        r matches ItdProcessStep::Downmix { channels } ==> 1 <= channels
            && channels == num_input_buffers,
        r is Stereo ==> num_input_buffers == 2 && num_output_buffers == 2,
{
    if itd_inputs_silent(input_config, in_silence_mask) {
        return ItdProcessStep::ClearAllOutputs;
    }
    match input_config {
        InputConfig::Stereo => ItdProcessStep::Stereo,
        InputConfig::Downmixed(c) => ItdProcessStep::Downmix { channels: c.get() },
    }
}

/// The numbers of input and output channels that a firewheel channel
/// configuration holds: for one built from `num_inputs` inputs and
/// `num_outputs` outputs, exactly those.
pub fn channel_config_counts(config: &ChannelConfig) -> (r: ItdChannelLayout)
    ensures
        forall|num_inputs: u32, num_outputs: u32|
            num_inputs <= 64 && num_outputs <= 64 && *config == #[trigger] firewheel_channel_config(
                num_inputs,
                num_outputs,
            ) ==> r == (ItdChannelLayout { num_inputs, num_outputs }),
{
    let (num_inputs, num_outputs) = read_channel_config_counts(config);
    ItdChannelLayout { num_inputs, num_outputs }
}

} // verus!
