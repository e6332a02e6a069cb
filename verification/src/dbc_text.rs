//! Reading a database description with the `can-dbc` parser.
//!
//! The parser's result is an opaque value to the verifier. The functions
//! here hand its contents out as plain values; their contracts are taken
//! on trust and name what the parser returns.

use crate::database::{ByteOrder, Multiplexing, SignalModel, ValueType};
use vstd::prelude::*;
use vstd::utf8::{decode_utf8, valid_utf8};

verus! {

/// A parsed database description of the `can-dbc` crate.
#[verifier::external_type_specification]
#[verifier::external_body]
pub struct ExDbc(can_dbc::DBC);

/// A message as the description states it: the identifier still carries the
/// top bit that marks an extended identifier.
pub struct ParsedMessage {
    pub raw_id: u32,
    pub name: Seq<char>,
    pub signals: Seq<SignalModel>,
}

/// The messages that `can-dbc` reads from a description text, in the order
/// of the text; `None` where it rejects the text.
pub uninterp spec fn dbc_parse(text: Seq<char>) -> Option<Seq<ParsedMessage>>;

/// The messages that a parsed description holds, in order.
pub uninterp spec fn dbc_messages(dbc: can_dbc::DBC) -> Seq<ParsedMessage>;

/// `std::str::from_utf8`: the text that a byte buffer encodes, if it is
/// valid UTF-8.
#[verifier::external_body]
pub(crate) fn utf8_text(bytes: &[u8]) -> (r: Option<&str>)
    ensures
        r is Some <==> valid_utf8(bytes@),
        r matches Some(s) ==> s@ == decode_utf8(bytes@),
{
    match std::str::from_utf8(bytes) {
        Ok(s) => Some(s),
        Err(_) => None,
    }
}

/// `can_dbc::DBC::try_from`: parses a description text. The parser accepts
/// a text only as a whole; any error is a rejection.
#[verifier::external_body]
pub(crate) fn parse_description(text: &str) -> (r: Option<can_dbc::DBC>)
    ensures
        match r {
            Some(dbc) => dbc_parse(text@) == Some(dbc_messages(dbc)),
            None => dbc_parse(text@) is None,
        },
{
    match can_dbc::DBC::try_from(text) {
        Ok(dbc) => Some(dbc),
        Err(_) => None,
    }
}

/// `DBC::messages`: how many messages the description holds.
#[verifier::external_body]
pub(crate) fn message_count(dbc: &can_dbc::DBC) -> (n: usize)
    ensures
        n == dbc_messages(*dbc).len(),
{
    dbc.messages().len()
}

/// `Message::message_id` and `MessageId::raw`: the identifier of the
/// message at an index, with the extended marker in its top bit.
#[verifier::external_body]
pub(crate) fn message_raw_id(dbc: &can_dbc::DBC, index: usize) -> (r: u32)
    requires
        index < dbc_messages(*dbc).len(),
    ensures
        r == dbc_messages(*dbc)[index as int].raw_id,
{
    dbc.messages()[index].message_id().raw()
}

/// `Message::message_name`: the name of the message at an index.
#[verifier::external_body]
pub(crate) fn message_name(dbc: &can_dbc::DBC, index: usize) -> (r: String)
    requires
        index < dbc_messages(*dbc).len(),
    ensures
        r@ == dbc_messages(*dbc)[index as int].name,
{
    dbc.messages()[index].message_name().clone()
}

/// `Message::signals`: how many signals the message at an index has.
#[verifier::external_body]
pub(crate) fn signal_count(dbc: &can_dbc::DBC, index: usize) -> (n: usize)
    requires
        index < dbc_messages(*dbc).len(),
    ensures
        n == dbc_messages(*dbc)[index as int].signals.len(),
{
    dbc.messages()[index].signals().len()
}

/// `Signal::start_bit` and `Signal::signal_size`: the position of the
/// signal's first bit and the number of its bits.
#[verifier::external_body]
pub(crate) fn signal_span(dbc: &can_dbc::DBC, index: usize, signal: usize) -> (r: (u64, u64))
    requires
        index < dbc_messages(*dbc).len(),
        signal < dbc_messages(*dbc)[index as int].signals.len(),
    ensures
        r.0 == dbc_messages(*dbc)[index as int].signals[signal as int].layout.start_bit,
        r.1 == dbc_messages(*dbc)[index as int].signals[signal as int].layout.size,
{
    let s = &dbc.messages()[index].signals()[signal];
    (s.start_bit, s.signal_size)
}

/// `Signal::byte_order`: the order of the bytes that the signal spans.
#[verifier::external_body]
pub(crate) fn signal_byte_order(dbc: &can_dbc::DBC, index: usize, signal: usize) -> (r: ByteOrder)
    requires
        index < dbc_messages(*dbc).len(),
        signal < dbc_messages(*dbc)[index as int].signals.len(),
    ensures
        r == dbc_messages(*dbc)[index as int].signals[signal as int].layout.byte_order,
{
    match dbc.messages()[index].signals()[signal].byte_order() {
        can_dbc::ByteOrder::LittleEndian => ByteOrder::LittleEndian,
        can_dbc::ByteOrder::BigEndian => ByteOrder::BigEndian,
    }
}

/// `Signal::value_type`: whether the signal's bits are a signed number.
#[verifier::external_body]
pub(crate) fn signal_value_type(dbc: &can_dbc::DBC, index: usize, signal: usize) -> (r: ValueType)
    requires
        index < dbc_messages(*dbc).len(),
        signal < dbc_messages(*dbc)[index as int].signals.len(),
    ensures
        r == dbc_messages(*dbc)[index as int].signals[signal as int].layout.value_type,
{
    match dbc.messages()[index].signals()[signal].value_type() {
        can_dbc::ValueType::Signed => ValueType::Signed,
        can_dbc::ValueType::Unsigned => ValueType::Unsigned,
    }
}

/// `Signal::multiplexer_indicator`: the part the signal plays in a
/// multiplexed message.
#[verifier::external_body]
pub(crate) fn signal_multiplexing(dbc: &can_dbc::DBC, index: usize, signal: usize) -> (r:
    Multiplexing)
    requires
        index < dbc_messages(*dbc).len(),
        signal < dbc_messages(*dbc)[index as int].signals.len(),
    ensures
        r == dbc_messages(*dbc)[index as int].signals[signal as int].layout.multiplexing,
{
    match dbc.messages()[index].signals()[signal].multiplexer_indicator() {
        can_dbc::MultiplexIndicator::Plain => Multiplexing::Plain,
        can_dbc::MultiplexIndicator::Multiplexor => Multiplexing::Switch,
        can_dbc::MultiplexIndicator::MultiplexedSignal(v) => Multiplexing::Selected(*v),
        can_dbc::MultiplexIndicator::MultiplexorAndMultiplexedSignal(v) => {
            Multiplexing::SelectedSwitch(*v)
        },
    }
}

/// `Signal::name` and `Signal::unit`: the signal's name and unit.
#[verifier::external_body]
pub(crate) fn signal_labels(dbc: &can_dbc::DBC, index: usize, signal: usize) -> (r: (
    String,
    String,
))
    requires
        index < dbc_messages(*dbc).len(),
        signal < dbc_messages(*dbc)[index as int].signals.len(),
    ensures
        r.0@ == dbc_messages(*dbc)[index as int].signals[signal as int].name,
        r.1@ == dbc_messages(*dbc)[index as int].signals[signal as int].unit,
{
    let s = &dbc.messages()[index].signals()[signal];
    (s.name().clone(), s.unit().clone())
}

/// `Signal::factor` and `Signal::offset`: the bit patterns of the scale
/// factor and of the offset, and the scale factor as decimal text.
#[verifier::external_body]
pub(crate) fn signal_scaling(dbc: &can_dbc::DBC, index: usize, signal: usize) -> (r: (
    u64,
    u64,
    String,
))
    requires
        index < dbc_messages(*dbc).len(),
        signal < dbc_messages(*dbc)[index as int].signals.len(),
    ensures
        r.0 == dbc_messages(*dbc)[index as int].signals[signal as int].scale_bits,
        r.1 == dbc_messages(*dbc)[index as int].signals[signal as int].offset_bits,
        r.2@ == dbc_messages(*dbc)[index as int].signals[signal as int].scale,
{
    let s = &dbc.messages()[index].signals()[signal];
    (s.factor.to_bits(), s.offset.to_bits(), s.factor.to_string())
}

} // verus!

