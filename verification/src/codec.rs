//! The Manchester codec of the `manchester_code` crate, as far as the
//! pipelines rely on it.
//!
//! Nothing in this file is proved: each contract restates what the codec's
//! source does, and the pipelines are verified against these statements.

use manchester_code::{Datagram, DatagramBigEndianIterator, Decoder, Encoder};
use vstd::prelude::*;
use vstd::string::StringSliceAdditionalSpecFns;

verus! {

/// `manchester_code::Datagram`, a buffer of up to 127 bits; opaque here.
#[verifier::external_type_specification]
#[verifier::external_body]
pub struct ExDatagram(manchester_code::Datagram);

/// `manchester_code::DatagramBigEndianIterator`, which walks a datagram from
/// its most significant bit down; opaque here.
#[verifier::external_type_specification]
#[verifier::external_body]
pub struct ExDatagramBigEndianIterator(manchester_code::DatagramBigEndianIterator);

/// `manchester_code::Encoder`, the iterator over the half bits of a datagram;
/// opaque here.
#[verifier::external_type_specification]
#[verifier::external_body]
#[verifier::reject_recursive_types(I)]
pub struct ExEncoder<I>(manchester_code::Encoder<I>);

/// `manchester_code::Decoder`, the automaton that turns samples into
/// datagrams; opaque here.
#[verifier::external_type_specification]
#[verifier::external_body]
pub struct ExDecoder(manchester_code::Decoder);

/// The bits of a datagram in the order in which they are transmitted, most
/// significant first.
pub uninterp spec fn datagram_bits(datagram: Datagram) -> Seq<bool>;

/// The levels that an encoder has yet to produce, next one first.
pub uninterp spec fn encoder_levels(encoder: Encoder<DatagramBigEndianIterator>) -> Seq<bool>;

/// Manchester code of a bit sequence: every bit becomes two half bits, the
/// inverted bit followed by the bit itself.
pub open spec fn manchester_levels(bits: Seq<bool>) -> Seq<bool> {
    Seq::new(
        2 * bits.len(),
        |i: int|
            if i % 2 == 0 {
                !bits[i / 2]
            } else {
                bits[i / 2]
            },
    )
}

/// The byte that spells a cleared bit in a datagram's text.
pub const ZERO_DIGIT: u8 = 0x30;

/// The byte that spells a set bit in a datagram's text.
pub const ONE_DIGIT: u8 = 0x31;

/// The bits that a text spells: each `0` and each `1` is a bit, in the order
/// of the text, and every other byte is a separator that counts for nothing.
pub open spec fn binary_digits(text: Seq<u8>) -> Seq<bool>
    decreases text.len(),
{
    if text.len() == 0 {
        Seq::empty()
    } else if text.last() == ZERO_DIGIT {
        binary_digits(text.drop_last()).push(false)
    } else if text.last() == ONE_DIGIT {
        binary_digits(text.drop_last()).push(true)
    } else {
        binary_digits(text.drop_last())
    }
}

/// `Datagram::new`: the datagram that a text of zeros and ones spells. It
/// panics on more bits than a datagram can hold, which the precondition
/// rules out.
#[verifier::external_body]
pub(crate) fn datagram_new(text: &str) -> (datagram: Datagram)
    requires
        binary_digits(text.spec_bytes()).len() <= DATAGRAM_CAPACITY,
    ensures
        datagram_bits(datagram) == binary_digits(text.spec_bytes()),
{
    Datagram::new(text)
}

/// `Datagram::len`: the number of bits, which never exceeds the capacity.
#[verifier::external_body]
pub(crate) fn datagram_len(datagram: &Datagram) -> (len: u8)
    ensures
        len == datagram_bits(*datagram).len(),
        len <= DATAGRAM_CAPACITY,
{
    datagram.len()
}

/// `Encoder::<DatagramBigEndianIterator>::new`: the fresh encoder will
/// produce the Manchester code of the datagram's bits, first bit first.
#[verifier::external_body]
pub(crate) fn encoder_new(datagram: Datagram) -> (encoder: Encoder<DatagramBigEndianIterator>)
    ensures
        encoder_levels(encoder) == manchester_levels(datagram_bits(datagram)),
{
    Encoder::<DatagramBigEndianIterator>::new(datagram)
}

/// `Iterator::next` of the encoder: hands out the next level and moves on, or
/// reports exhaustion and stays exhausted.
#[verifier::external_body]
pub(crate) fn encoder_next(encoder: &mut Encoder<DatagramBigEndianIterator>) -> (level: Option<
    bool,
>)
    ensures
        match level {
            Some(l) => encoder_levels(*old(encoder)).len() > 0 && l == encoder_levels(
                *old(encoder),
            )[0] && encoder_levels(*final(encoder)) == encoder_levels(*old(encoder)).drop_first(),
            None => encoder_levels(*old(encoder)).len() == 0 && *final(encoder) == *old(encoder),
        },
{
    encoder.next()
}

/// The pin level at which the receiver signals activity; the opposite level
/// is what the line rests at between datagrams.
#[derive(Clone, Copy, Debug, PartialEq, Eq, Structural)]
pub enum ActivityLevel {
    High,
    Low,
}

/// Which edge of the first bit the decoder aligns its bit boundaries to.
#[derive(Clone, Copy, Debug, PartialEq, Eq, Structural)]
pub enum SyncOnTurningEdge {
    First,
    Second,
}

/// The order in which the bits of a datagram travel.
#[derive(Clone, Copy, Debug, PartialEq, Eq, Structural)]
pub enum BitOrder {
    BigEndian,
    LittleEndian,
}

/// The most bits that a datagram can hold; the decoder panics when it has to
/// record one more.
pub const DATAGRAM_CAPACITY: u8 = 127;

/// The number of equal samples in a row after which the decoder takes the
/// line as paused and stops counting.
pub const PAUSE_SAMPLES: u8 = 9;

/// The part of a decoder's state that decides whether it can take a sample.
pub struct DecoderView {
    /// The sample it saw last, or the resting level before the first sample
    /// (its field `previous_sample`).
    pub level: bool,
    /// How many samples ago the level last changed, counted up to
    /// `PAUSE_SAMPLES` and no further (its field `edge_distance`).
    pub steady: nat,
    /// The number of bits recorded for the datagram in progress (the length
    /// of its field `datagram`).
    pub recorded: nat,
}

/// The state of a decoder, read off its fields.
pub uninterp spec fn decoder_view(decoder: Decoder) -> DecoderView;

/// The decoder after a sample, and the datagram that the sample completed, if
/// any.
pub uninterp spec fn decoder_step(decoder: Decoder, sample: bool) -> (Decoder, Option<Datagram>);

/// The decoder as it is made for a configuration, before any sample.
pub uninterp spec fn decoder_fresh(
    activity: ActivityLevel,
    sync: SyncOnTurningEdge,
    order: BitOrder,
) -> Decoder;

/// `Decoder::new`: a decoder that has recorded nothing, takes the line as
/// paused, and remembers the resting level as the sample seen last.
#[verifier::external_body]
pub(crate) fn decoder_new(
    activity: ActivityLevel,
    sync: SyncOnTurningEdge,
    order: BitOrder,
) -> (decoder: Decoder)
    ensures
        decoder == decoder_fresh(activity, sync, order),
        decoder_view(decoder) == (DecoderView {
            level: activity is Low,
            steady: PAUSE_SAMPLES as nat,
            recorded: 0,
        }),
{
    let activity = match activity {
        ActivityLevel::High => manchester_code::ActivityLevel::High,
        ActivityLevel::Low => manchester_code::ActivityLevel::Low,
    };
    let sync = match sync {
        SyncOnTurningEdge::First => manchester_code::SyncOnTurningEdge::First,
        SyncOnTurningEdge::Second => manchester_code::SyncOnTurningEdge::Second,
    };
    let order = match order {
        BitOrder::BigEndian => manchester_code::BitOrder::BigEndian,
        BitOrder::LittleEndian => manchester_code::BitOrder::LittleEndian,
    };
    Decoder::new(activity, sync, order)
}

/// `Decoder::next`. Its outcome depends on the decoder and the sample alone.
/// A bit is recorded at most on a change of level, and never a second one in
/// the same call; the call panics when a bit is due and the datagram is full,
/// which the precondition rules out. Once the level has stood for
/// `PAUSE_SAMPLES` samples, every further sample at that level clears what
/// was recorded, and only such a sample hands a datagram out, which is then
/// what had been recorded, and not empty.
#[verifier::external_body]
pub(crate) fn decoder_next(decoder: &mut Decoder, sample: bool) -> (decoded: Option<Datagram>)
    requires
        decoder_view(*old(decoder)).steady <= PAUSE_SAMPLES,
        sample != decoder_view(*old(decoder)).level ==> decoder_view(*old(decoder)).recorded
            < DATAGRAM_CAPACITY,
    ensures
        (*final(decoder), decoded) == decoder_step(*old(decoder), sample),
        decoder_view(*final(decoder)).level == sample,
        decoder_view(*final(decoder)).steady == steady_after(
            decoder_view(*old(decoder)).level,
            decoder_view(*old(decoder)).steady,
            sample,
        ),
        sample != decoder_view(*old(decoder)).level ==> decoder_view(*old(decoder)).recorded
            <= decoder_view(*final(decoder)).recorded <= decoder_view(*old(decoder)).recorded + 1,
        sample == decoder_view(*old(decoder)).level ==> decoder_view(*final(decoder)).recorded == (
        if decoder_view(*old(decoder)).steady == PAUSE_SAMPLES {
            0
        } else {
            decoder_view(*old(decoder)).recorded
        }),
        decoded matches Some(datagram) ==> sample == decoder_view(*old(decoder)).level
            && decoder_view(*old(decoder)).steady == PAUSE_SAMPLES && datagram_bits(datagram).len()
            == decoder_view(*old(decoder)).recorded && decoder_view(*old(decoder)).recorded > 0,
{
    decoder.next(sample)
}

/// How many samples ago the level last changed, after one more sample: one
/// after a change, else one more than before, up to `PAUSE_SAMPLES`.
pub open spec fn steady_after(level: bool, steady: nat, sample: bool) -> nat {
    if sample != level {
        1
    } else if steady < PAUSE_SAMPLES {
        steady + 1
    } else {
        steady
    }
}

} // verus!
