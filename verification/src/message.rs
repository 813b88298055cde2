//! The commands that a decoded report hands to whoever drives the LEDs.
//!
//! The colors of a direct update travel in a `tinyvec::ArrayVec` over an array
//! of twenty colors. What that crate does is stated here without proof.

use crate::aura::AuraEffect;
use crate::aura::RGB8;
use tinyvec::ArrayVec;
use vstd::prelude::*;

verus! {

/// `tinyvec::ArrayVec`, opaque to the verifier.
#[verifier::external_type_specification]
#[verifier::external_body]
#[verifier::reject_recursive_types(A)]
pub struct ExArrayVec<A>(ArrayVec<A>);

/// The colors that an `ArrayVec` holds, in order: what its `as_slice` shows.
pub uninterp spec fn led_colors(leds: ArrayVec<[RGB8; 20]>) -> Seq<RGB8>;

/// `ArrayVec::from_array_len`: wraps `data` and takes its first `len` slots as
/// the contents. The call panics where `len` exceeds the array's length.
#[verifier::external_body]
pub(crate) fn leds_from_array_len(data: [RGB8; 20], len: usize) -> (leds: ArrayVec<[RGB8; 20]>)
    requires
        len <= 20,
    ensures
        led_colors(leds) == data@.take(len as int),
{
    ArrayVec::from_array_len(data, len)
}

/// A command for the LEDs, as the host sent it.
pub enum RogTerminalMessage {
    /// Set a run of LEDs of one channel to the given colors.
    UpdateLeds {
        /// The channel whose LEDs change.
        channel: u8,
        /// Index of the first LED that changes.
        offset: u8,
        /// Whether the change shows at once or waits for a later update that
        /// asks for it.
        apply: bool,
        /// The new colors, at most twenty.
        led_data: ArrayVec<[RGB8; 20]>,
    },
    /// Run a preset effect on one channel.
    SetEffect {
        /// The channel that the effect runs on.
        channel: u8,
        /// The effect.
        effect: AuraEffect,
    },
}

/// What a `RogTerminalMessage` says, with the colors as a sequence.
pub enum MessageContent {
    UpdateLeds { channel: u8, offset: u8, apply: bool, led_data: Seq<RGB8> },
    SetEffect { channel: u8, effect: AuraEffect },
}

impl View for RogTerminalMessage {
    type V = MessageContent;

    open spec fn view(&self) -> MessageContent {
        match *self {
            RogTerminalMessage::UpdateLeds { channel, offset, apply, led_data } => {
                MessageContent::UpdateLeds {
                    channel,
                    offset,
                    apply,
                    led_data: led_colors(led_data),
                }
            },
            RogTerminalMessage::SetEffect { channel, effect } => {
                MessageContent::SetEffect { channel, effect }
            },
        }
    }
}

/// What a mailbox holds: the content of its message, if it has one.
pub open spec fn content_of(message: Option<RogTerminalMessage>) -> Option<MessageContent> {
    match message {
        Some(m) => Some(m@),
        None => None,
    }
}

} // verus!
