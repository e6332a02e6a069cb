//! From a payload and a message definition to the raw value of each
//! signal.
//!
//! A signal's raw value is the number that its bits hold. The physical
//! value, `raw * scale + offset`, is floating-point arithmetic and is left
//! to the caller, who finds scale and offset beside each raw value.

use crate::database::{
    ByteOrder, MessageDefinition, MessageModel, Multiplexing, SignalDefinition, SignalLayout,
    SignalModel, ValueType,
};
use crate::frame::padded;
use crate::search::{first_index_of, lemma_first_index_is, lemma_first_index_none};
use vstd::arithmetic::power2::{
    lemma2_to64, lemma2_to64_rest, lemma_pow2_pos, lemma_pow2_unfold, pow2,
};
use vstd::bits::{
    lemma_u64_low_bits_mask_is_mod, lemma_u64_pow2_no_overflow, lemma_u64_shl_is_mul,
    lemma_u64_shr_is_div,
};
use vstd::prelude::*;

verus! {

/// The byte of a payload at a position; zero beyond its end.
pub open spec fn byte_at(payload: Seq<u8>, i: int) -> nat {
    if 0 <= i < payload.len() {
        payload[i] as nat
    } else {
        0
    }
}

/// The first eight bytes of a payload as one number, the first byte least
/// significant. Bytes that a short payload lacks count as zero.
pub open spec fn le_word(payload: Seq<u8>) -> nat {
    byte_at(payload, 0) + byte_at(payload, 1) * 0x100 + byte_at(payload, 2) * 0x1_0000 + byte_at(
        payload,
        3,
    ) * 0x100_0000 + byte_at(payload, 4) * 0x1_0000_0000 + byte_at(payload, 5) * 0x100_0000_0000
        + byte_at(payload, 6) * 0x1_0000_0000_0000 + byte_at(payload, 7) * 0x100_0000_0000_0000
}

/// The first eight bytes of a payload as one number, the first byte most
/// significant. Bytes that a short payload lacks count as zero.
pub open spec fn be_word(payload: Seq<u8>) -> nat {
    byte_at(payload, 7) + byte_at(payload, 6) * 0x100 + byte_at(payload, 5) * 0x1_0000 + byte_at(
        payload,
        4,
    ) * 0x100_0000 + byte_at(payload, 3) * 0x1_0000_0000 + byte_at(payload, 2) * 0x100_0000_0000
        + byte_at(payload, 1) * 0x1_0000_0000_0000 + byte_at(payload, 0) * 0x100_0000_0000_0000
}

/// The number that holds a signal's bits: the payload read in the signal's
/// byte order.
pub open spec fn word(payload: Seq<u8>, order: ByteOrder) -> nat {
    match order {
        ByteOrder::LittleEndian => le_word(payload),
        ByteOrder::BigEndian => be_word(payload),
    }
}

/// How far a signal's lowest bit lies above the lowest bit of the word
/// that holds it; `None` where the signal has no bits, more than 64, or
/// does not lie within the eight bytes.
///
/// A little-endian signal starts at its lowest bit. The start bit of a
/// big-endian signal is its highest bit, numbered byte by byte with bit 0
/// the lowest of each byte; the signal runs down from there and on into
/// the next byte.
pub open spec fn low_bit(layout: SignalLayout) -> Option<nat> {
    if layout.size < 1 || layout.size > 64 {
        None
    } else {
        match layout.byte_order {
            ByteOrder::LittleEndian => if layout.start_bit + layout.size <= 64 {
                Some(layout.start_bit as nat)
            } else {
                None
            },
            ByteOrder::BigEndian => {
                let from_top = (layout.start_bit / 8) * 8 + (7 - layout.start_bit % 8);
                if layout.start_bit < 64 && from_top + layout.size <= 64 {
                    Some((64 - from_top - layout.size) as nat)
                } else {
                    None
                }
            },
        }
    }
}

/// The bits of a signal as an unsigned number.
pub open spec fn field_bits(payload: Seq<u8>, layout: SignalLayout) -> Option<nat> {
    match low_bit(layout) {
        Some(low) => Some(
            (word(payload, layout.byte_order) / pow2(low)) % pow2(layout.size as nat),
        ),
        None => None,
    }
}

/// The raw value of a signal: its bits as an unsigned number, or as a
/// two's-complement number of the signal's size where the signal is signed.
pub open spec fn raw_value(payload: Seq<u8>, layout: SignalLayout) -> Option<int> {
    match field_bits(payload, layout) {
        Some(bits) => Some(
            if layout.value_type == ValueType::Signed && bits >= pow2((layout.size - 1) as nat) {
                bits - pow2(layout.size as nat)
            } else {
                bits as int
            },
        ),
        None => None,
    }
}

/// Whether each signal of a list is the multiplexer switch, in order.
pub open spec fn switch_marks(signals: Seq<SignalModel>) -> Seq<bool> {
    signals.map_values(|s: SignalModel| s.layout.multiplexing == Multiplexing::Switch)
}

/// The value of the multiplexer switch: the raw value of the first signal
/// that is marked as the switch, if there is one and its bits can be read.
pub open spec fn switch_value(payload: Seq<u8>, signals: Seq<SignalModel>) -> Option<int> {
    match first_index_of(switch_marks(signals), true) {
        Some(i) => raw_value(payload, signals[i].layout),
        None => None,
    }
}

/// Whether a signal is present in a frame whose switch holds a value.
pub open spec fn is_selected(multiplexing: Multiplexing, switch: Option<int>) -> bool {
    match multiplexing {
        Multiplexing::Plain => true,
        Multiplexing::Switch => true,
        Multiplexing::Selected(k) => switch == Some(k as int),
        Multiplexing::SelectedSwitch(k) => switch == Some(k as int),
    }
}

/// What a `RawSignal` stands for.
pub struct RawSignalModel {
    pub name: Seq<char>,
    pub raw: int,
    pub scale_bits: u64,
    pub offset_bits: u64,
}

/// What decoding gives for one signal: nothing where the signal is not
/// present or its bits cannot be read.
pub open spec fn decoded_entry(
    payload: Seq<u8>,
    signal: SignalModel,
    switch: Option<int>,
) -> Option<RawSignalModel> {
    if is_selected(signal.layout.multiplexing, switch) {
        match raw_value(payload, signal.layout) {
            Some(raw) => Some(
                RawSignalModel {
                    name: signal.name,
                    raw,
                    scale_bits: signal.scale_bits,
                    offset_bits: signal.offset_bits,
                },
            ),
            None => None,
        }
    } else {
        None
    }
}

/// The entries of the signals of a list, in order.
pub open spec fn decoded_signals(
    payload: Seq<u8>,
    signals: Seq<SignalModel>,
    switch: Option<int>,
) -> Seq<RawSignalModel>
    decreases signals.len(),
{
    if signals.len() == 0 {
        Seq::empty()
    } else {
        let before = decoded_signals(payload, signals.drop_last(), switch);
        match decoded_entry(payload, signals.last(), switch) {
            Some(entry) => before.push(entry),
            None => before,
        }
    }
}

/// What decoding a payload against a message gives: one entry for each
/// signal that is present and readable, in the order of the definition.
pub open spec fn decoded(payload: Seq<u8>, message: MessageModel) -> Seq<RawSignalModel> {
    decoded_signals(payload, message.signals, switch_value(payload, message.signals))
}

/// The raw value of one signal of a frame, with the scale and the offset
/// that turn it into the physical value `raw * scale + offset`. Scale and
/// offset are the bit patterns of 64-bit IEEE-754 numbers.
#[derive(Debug, PartialEq, Eq)]
pub struct RawSignal {
    pub name: String,
    pub raw: i128,
    pub scale_bits: u64,
    pub offset_bits: u64,
}

impl View for RawSignal {
    type V = RawSignalModel;

    open spec fn view(&self) -> RawSignalModel {
        RawSignalModel {
            name: self.name@,
            raw: self.raw as int,
            scale_bits: self.scale_bits,
            offset_bits: self.offset_bits,
        }
    }
}

impl DeepView for RawSignal {
    type V = RawSignalModel;

    open spec fn deep_view(&self) -> RawSignalModel {
        self@
    }
}

impl Clone for RawSignal {
    fn clone(&self) -> (r: Self)
        ensures
            r@ == self@,
    {
        RawSignal {
            name: self.name.clone(),
            raw: self.raw,
            scale_bits: self.scale_bits,
            offset_bits: self.offset_bits,
        }
    }
}

fn byte_or_zero(payload: &[u8], i: usize) -> (r: u64)
    ensures
        r == byte_at(payload@, i as int),
{
    if i < payload.len() {
        payload[i] as u64
    } else {
        0
    }
}

/// Reads the first eight bytes of a payload in a byte order.
pub fn word_of(payload: &[u8], order: ByteOrder) -> (r: u64)
    ensures
        r == word(payload@, order),
{
    let b0 = byte_or_zero(payload, 0);
    let b1 = byte_or_zero(payload, 1);
    let b2 = byte_or_zero(payload, 2);
    let b3 = byte_or_zero(payload, 3);
    let b4 = byte_or_zero(payload, 4);
    let b5 = byte_or_zero(payload, 5);
    let b6 = byte_or_zero(payload, 6);
    let b7 = byte_or_zero(payload, 7);
    match order {
        ByteOrder::LittleEndian => {
            b0 + b1 * 0x100 + b2 * 0x1_0000 + b3 * 0x100_0000 + b4 * 0x1_0000_0000 + b5
                * 0x100_0000_0000 + b6 * 0x1_0000_0000_0000 + b7 * 0x100_0000_0000_0000
        },
        ByteOrder::BigEndian => {
            b7 + b6 * 0x100 + b5 * 0x1_0000 + b4 * 0x100_0000 + b3 * 0x1_0000_0000 + b2
                * 0x100_0000_0000 + b1 * 0x1_0000_0000_0000 + b0 * 0x100_0000_0000_0000
        },
    }
}

/// Where a signal's lowest bit lies in the word that holds it.
pub fn low_bit_of(layout: &SignalLayout) -> (r: Option<u64>)
    ensures
        match r {
            Some(low) => low_bit(*layout) == Some(low as nat) && low + layout.size <= 64,
            None => low_bit(*layout) is None,
        },
{
    if layout.size < 1 || layout.size > 64 {
        return None;
    }
    match layout.byte_order {
        ByteOrder::LittleEndian => {
            if layout.start_bit <= 64 - layout.size {
                Some(layout.start_bit)
            } else {
                None
            }
        },
        ByteOrder::BigEndian => {
            if layout.start_bit >= 64 {
                return None;
            }
            let from_top = (layout.start_bit / 8) * 8 + (7 - layout.start_bit % 8);
            if from_top + layout.size <= 64 {
                Some(64 - from_top - layout.size)
            } else {
                None
            }
        },
    }
}

/// Reads the raw value of a signal out of a payload.
pub fn extract(payload: &[u8], layout: &SignalLayout) -> (r: Option<i128>)
    ensures
        match r {
            Some(value) => raw_value(payload@, *layout) == Some(value as int),
            None => raw_value(payload@, *layout) is None,
        },
{
    let low = match low_bit_of(layout) {
        Some(low) => low,
        None => {
            return None;
        },
    };
    let size = layout.size;
    let whole = word_of(payload, layout.byte_order);
    let shifted = whole >> low;
    proof {
        lemma_u64_shr_is_div(whole, low);
        lemma_pow2_pos(low as nat);
        lemma_pow2_pos(size as nat);
        lemma_pow2_unfold(size as nat);
        lemma_u64_pow2_no_overflow((size - 1) as nat);
        lemma_u64_shl_is_mul(1, (size - 1) as u64);
        lemma2_to64();
        lemma2_to64_rest();
    }
    let bits = if size == 64 {
        assert(shifted as nat % pow2(64) == shifted);
        shifted
    } else {
        proof {
            lemma_u64_pow2_no_overflow(size as nat);
            lemma_u64_shl_is_mul(1, size);
            lemma_u64_low_bits_mask_is_mod(shifted, size as nat);
        }
        shifted & ((1u64 << size) - 1)
    };
    assert(field_bits(payload@, *layout) == Some(bits as nat));
    let half = 1u64 << (size - 1);
    assert(half == pow2((size - 1) as nat));
    match layout.value_type {
        ValueType::Signed => {
            if bits >= half {
                Some(bits as i128 - 2 * (half as i128))
            } else {
                Some(bits as i128)
            }
        },
        ValueType::Unsigned => Some(bits as i128),
    }
}

/// Reads the value of the multiplexer switch of a list of signals.
pub fn switch_of(payload: &[u8], signals: &Vec<SignalDefinition>) -> (r: Option<i128>)
    ensures
        match r {
            Some(value) => switch_value(payload@, signals.deep_view()) == Some(value as int),
            None => switch_value(payload@, signals.deep_view()) is None,
        },
{
    let ghost marks = switch_marks(signals.deep_view());
    let mut i: usize = 0;
    while i < signals.len()
        invariant
            i <= signals.len(),
            marks == switch_marks(signals.deep_view()),
            forall|k: int| 0 <= k < i ==> marks[k] != true,
        decreases signals.len() - i,
    {
        if signals[i].layout.multiplexing == Multiplexing::Switch {
            proof {
                assert(marks[i as int] == true);
                lemma_first_index_is(marks, true, i as int);
            }
            return extract(payload, &signals[i].layout);
        }
        i = i + 1;
    }
    proof {
        lemma_first_index_none(marks, true);
    }
    None
}

/// Whether a signal is present in a frame whose switch holds a value.
pub fn selected(multiplexing: Multiplexing, switch: Option<i128>) -> (r: bool)
    ensures
        r == is_selected(
            multiplexing,
            match switch {
                Some(v) => Some(v as int),
                None => None,
            },
        ),
{
    match multiplexing {
        Multiplexing::Plain => true,
        Multiplexing::Switch => true,
        Multiplexing::Selected(k) => match switch {
            Some(v) => v == k as i128,
            None => false,
        },
        Multiplexing::SelectedSwitch(k) => match switch {
            Some(v) => v == k as i128,
            None => false,
        },
    }
}

/// Decodes a payload against a message definition: the raw value of each
/// signal that is present in the frame and whose bits lie within the
/// payload's eight bytes, in the order of the definition. Signals that
/// cannot be read are left out; bytes that a short payload lacks read as
/// zero.
pub fn decode(payload: &[u8], message: &MessageDefinition) -> (r: Vec<RawSignal>)
    ensures
        r.deep_view() == decoded(payload@, message@),
{
    let switch = switch_of(payload, &message.signals);
    let ghost signals = message@.signals;
    let ghost switch_model = switch_value(payload@, signals);
    let mut out: Vec<RawSignal> = Vec::new();
    let mut i: usize = 0;
    proof {
        assert(signals.take(0) =~= Seq::<SignalModel>::empty());
        assert(out.deep_view() =~= Seq::<RawSignalModel>::empty());
    }
    while i < message.signals.len()
        invariant
            i <= message.signals.len(),
            signals == message.signals.deep_view(),
            switch_model == match switch {
                Some(v) => Some(v as int),
                None => None,
            },
            out.deep_view() == decoded_signals(payload@, signals.take(i as int), switch_model),
        decreases message.signals.len() - i,
    {
        let signal = &message.signals[i];
        let ghost before = out.deep_view();
        proof {
            assert(signals.take(i + 1).drop_last() =~= signals.take(i as int));
            assert(signals.take(i + 1).last() == signal@);
        }
        if selected(signal.layout.multiplexing, switch) {
            match extract(payload, &signal.layout) {
                Some(raw) => {
                    let entry = RawSignal {
                        name: signal.name.clone(),
                        raw,
                        scale_bits: signal.scale_bits,
                        offset_bits: signal.offset_bits,
                    };
                    out.push(entry);
                    assert(out.deep_view() =~= before.push(entry@));
                },
                None => {},
            }
        }
        i = i + 1;
    }
    assert(signals.take(signals.len() as int) =~= signals);
    out
}

/// A payload of zero bytes gives every signal it holds the raw value zero,
/// so that each physical value, `raw * scale + offset`, is the signal's
/// offset.
pub proof fn lemma_zero_payload(payload: Seq<u8>, message: MessageModel)
    requires
        forall|i: int| 0 <= i < payload.len() ==> payload[i] == 0u8,
    ensures
        forall|k: int|
            0 <= k < decoded(payload, message).len() ==> (#[trigger] decoded(
                payload,
                message,
            )[k]).raw == 0,
{
    let switch = switch_value(payload, message.signals);
    lemma_zero_signals(payload, message.signals, switch);
}

/// A zero payload holds the raw value zero for every layout that can be
/// read.
pub proof fn lemma_zero_raw_value(payload: Seq<u8>, layout: SignalLayout)
    requires
        forall|i: int| 0 <= i < payload.len() ==> payload[i] == 0u8,
    ensures
        raw_value(payload, layout) is Some ==> raw_value(payload, layout) == Some(0int),
{
    assert(le_word(payload) == 0);
    assert(be_word(payload) == 0);
    if let Some(low) = low_bit(layout) {
        lemma_pow2_pos(low);
        lemma_pow2_pos(layout.size as nat);
        lemma_pow2_pos((layout.size - 1) as nat);
        assert(0nat / pow2(low) == 0) by (nonlinear_arith)
            requires
                pow2(low) > 0,
        ;
        assert(0nat % pow2(layout.size as nat) == 0) by (nonlinear_arith)
            requires
                pow2(layout.size as nat) > 0,
        ;
    }
}

proof fn lemma_zero_signals(payload: Seq<u8>, signals: Seq<SignalModel>, switch: Option<int>)
    requires
        forall|i: int| 0 <= i < payload.len() ==> payload[i] == 0u8,
    ensures
        forall|k: int|
            0 <= k < decoded_signals(payload, signals, switch).len() ==> (
            #[trigger] decoded_signals(payload, signals, switch)[k]).raw == 0,
    decreases signals.len(),
{
    if signals.len() > 0 {
        lemma_zero_signals(payload, signals.drop_last(), switch);
        lemma_zero_raw_value(payload, signals.last().layout);
        let before = decoded_signals(payload, signals.drop_last(), switch);
        let all = decoded_signals(payload, signals, switch);
        assert forall|k: int| 0 <= k < all.len() implies (#[trigger] all[k]).raw == 0 by {
            if k < before.len() {
                assert(all[k] == before[k]);
            }
        }
    }
}

/// Every signal that is present in a frame and whose bits can be read has
/// its entry in the decode, with its raw value.
pub proof fn lemma_present_signals_are_decoded(payload: Seq<u8>, message: MessageModel, i: int)
    requires
        0 <= i < message.signals.len(),
        is_selected(
            message.signals[i].layout.multiplexing,
            switch_value(payload, message.signals),
        ),
        raw_value(payload, message.signals[i].layout) is Some,
    ensures
        exists|k: int|
            0 <= k < decoded(payload, message).len() && #[trigger] decoded(payload, message)[k] == (
            RawSignalModel {
                name: message.signals[i].name,
                raw: raw_value(payload, message.signals[i].layout)->0,
                scale_bits: message.signals[i].scale_bits,
                offset_bits: message.signals[i].offset_bits,
            }),
{
    let switch = switch_value(payload, message.signals);
    let k = lemma_entry_position(payload, message.signals, switch, i);
    assert(decoded(payload, message)[k] == decoded_entry(payload, message.signals[i], switch)->0);
}

proof fn lemma_entry_position(
    payload: Seq<u8>,
    signals: Seq<SignalModel>,
    switch: Option<int>,
    i: int,
) -> (k: int)
    requires
        0 <= i < signals.len(),
        decoded_entry(payload, signals[i], switch) is Some,
    ensures
        0 <= k < decoded_signals(payload, signals, switch).len(),
        decoded_signals(payload, signals, switch)[k] == decoded_entry(
            payload,
            signals[i],
            switch,
        )->0,
    decreases signals.len(),
{
    let before = decoded_signals(payload, signals.drop_last(), switch);
    if i == signals.len() - 1 {
        before.len() as int
    } else {
        let k = lemma_entry_position(payload, signals.drop_last(), switch, i);
        assert(decoded_signals(payload, signals, switch)[k] == before[k]);
        k
    }
}

/// Padding a payload changes nothing of what it decodes to.
pub proof fn lemma_padding_is_neutral(payload: Seq<u8>, message: MessageModel)
    ensures
        decoded(padded(payload), message) == decoded(payload, message),
{
    lemma_padded_words(payload);
    let switch = switch_value(payload, message.signals);
    assert(switch_value(padded(payload), message.signals) == switch);
    lemma_padded_signals(payload, message.signals, switch);
}

proof fn lemma_padded_words(payload: Seq<u8>)
    ensures
        le_word(padded(payload)) == le_word(payload),
        be_word(padded(payload)) == be_word(payload),
        forall|layout: SignalLayout| #[trigger]
            raw_value(padded(payload), layout) == raw_value(payload, layout),
{
    assert forall|i: int| 0 <= i < 8 implies byte_at(padded(payload), i) == byte_at(
        payload,
        i,
    ) by {}
}

proof fn lemma_padded_signals(payload: Seq<u8>, signals: Seq<SignalModel>, switch: Option<int>)
    ensures
        decoded_signals(padded(payload), signals, switch) == decoded_signals(
            payload,
            signals,
            switch,
        ),
    decreases signals.len(),
{
    lemma_padded_words(payload);
    if signals.len() > 0 {
        lemma_padded_signals(payload, signals.drop_last(), switch);
    }
}

} // verus!
