//! Validation of an identifier and a payload typed in as hexadecimal text,
//! and their encoding into a frame ready to be sent.

use crate::frame::{FrameModel, RawFrame, EXTENDED_ID_MAX, STANDARD_ID_MAX};
use crate::hex::{
    all_hex, hex_byte_value, hex_pairs, hex_u32, is_hex_char, lemma_beyond_ascii_is_no_hex,
    parse_hex_u32,
};
use vstd::prelude::*;
use vstd::string::*;

verus! {

/// Why a frame could not be encoded.
#[derive(Clone, Copy, Debug, PartialEq, Eq, Structural)]
pub enum EncodeError {
    /// The identifier text is no hexadecimal number within the range of the
    /// chosen identifier kind.
    InvalidIdentifier,
    /// The payload text is not made of at most eight pairs of hexadecimal
    /// digits.
    InvalidPayload,
}

/// The largest identifier of a kind: 29 bits for extended identifiers, 11
/// bits for standard ones.
pub open spec fn id_limit(is_extended: bool) -> u32 {
    if is_extended {
        EXTENDED_ID_MAX
    } else {
        STANDARD_ID_MAX
    }
}

/// Whether a text is a valid identifier of the given kind.
pub open spec fn valid_id_text(is_extended: bool, text: Seq<char>) -> bool {
    match hex_u32(text) {
        Some(id) => id <= id_limit(is_extended),
        None => false,
    }
}

/// Whether a text is made of whole bytes in hexadecimal digits.
pub open spec fn hex_byte_text(text: Seq<char>) -> bool {
    text.len() % 2 == 0 && all_hex(text)
}

/// Whether a text is a valid payload: an even number of hexadecimal digits,
/// sixteen at most.
pub open spec fn valid_data_text(text: Seq<char>) -> bool {
    hex_byte_text(text) && text.len() <= 16
}

/// What encoding an identifier text and a payload text gives. The
/// identifier is judged first.
pub open spec fn encoded(is_extended: bool, id: Seq<char>, data: Seq<char>) -> Result<
    FrameModel,
    EncodeError,
> {
    if !valid_id_text(is_extended, id) {
        Err(EncodeError::InvalidIdentifier)
    } else if !valid_data_text(data) {
        Err(EncodeError::InvalidPayload)
    } else {
        Ok(FrameModel { id: hex_u32(id)->0, data: hex_pairs(data), extended: is_extended })
    }
}

/// Parses an identifier text as a base-16 unsigned 32-bit number.
pub fn convert_hex_string_u32(hex_str: &str) -> (r: Result<u32, EncodeError>)
    ensures
        match r {
            Ok(id) => hex_u32(hex_str@) == Some(id),
            Err(e) => e == EncodeError::InvalidIdentifier && hex_u32(hex_str@) is None,
        },
{
    match parse_hex_u32(hex_str) {
        Some(id) => Ok(id),
        None => Err(EncodeError::InvalidIdentifier),
    }
}

/// Turns a text of hexadecimal digit pairs into the bytes it denotes. The
/// text has to be pairs of digits and nothing else; its length is not
/// limited here.
pub fn convert_hex_string_arr(hex_str: &str) -> (r: Result<Vec<u8>, EncodeError>)
    ensures
        match r {
            Ok(bytes) => hex_byte_text(hex_str@) && bytes@ == hex_pairs(hex_str@),
            Err(e) => e == EncodeError::InvalidPayload && !hex_byte_text(hex_str@),
        },
{
    if !hex_str.is_ascii() {
        proof {
            lemma_beyond_ascii_is_no_hex(hex_str@);
        }
        return Err(EncodeError::InvalidPayload);
    }
    let bytes = hex_str.as_bytes();
    let n = bytes.len();
    proof {
        is_ascii_spec_bytes(hex_str);
    }
    if n % 2 != 0 {
        return Err(EncodeError::InvalidPayload);
    }
    let mut out: Vec<u8> = Vec::new();
    let mut i: usize = 0;
    while i < n
        invariant
            i <= n,
            i % 2 == 0,
            n % 2 == 0,
            n == hex_str@.len(),
            is_ascii(hex_str),
            bytes@ == hex_str.spec_bytes(),
            out@.len() == i / 2,
            forall|k: int| 0 <= k < i ==> is_hex_char(#[trigger] hex_str@[k]),
            forall|k: int| 0 <= k < out@.len() ==> out@[k] == hex_pairs(hex_str@)[k],
        decreases n - i,
    {
        proof {
            is_ascii_spec_bytes(hex_str);
        }
        let high = hex_byte_value(bytes[i]);
        let low = hex_byte_value(bytes[i + 1]);
        assert(bytes[i as int] as char == hex_str@[i as int]);
        assert(bytes[i + 1] as char == hex_str@[i + 1]);
        match (high, low) {
            (Some(h), Some(l)) => {
                out.push(h * 16 + l);
                assert(out@[(i / 2) as int] == hex_pairs(hex_str@)[(i / 2) as int]);
            },
            _ => {
                assert(!is_hex_char(hex_str@[i as int]) || !is_hex_char(hex_str@[i + 1]));
                return Err(EncodeError::InvalidPayload);
            },
        }
        i = i + 2;
    }
    assert(out@ =~= hex_pairs(hex_str@));
    Ok(out)
}

/// Whether a text is a valid identifier: a hexadecimal number that is at
/// most `0x1FFFFFFF` for an extended identifier and at most `0x7FF` for a
/// standard one.
pub fn is_valid_can_id(is_extended: bool, can_id: &str) -> (r: bool)
    ensures
        r == valid_id_text(is_extended, can_id@),
{
    match parse_hex_u32(can_id) {
        Some(id) => {
            if is_extended {
                id <= EXTENDED_ID_MAX
            } else {
                id <= STANDARD_ID_MAX
            }
        },
        None => false,
    }
}

/// Whether a text is a valid payload: hexadecimal digits only, an even
/// number of them, and no more than sixteen (eight bytes).
pub fn is_valid_can_data(can_data: &str) -> (r: bool)
    ensures
        r == valid_data_text(can_data@),
{
    if !can_data.is_ascii() {
        proof {
            lemma_beyond_ascii_is_no_hex(can_data@);
        }
        return false;
    }
    let bytes = can_data.as_bytes();
    let n = bytes.len();
    proof {
        is_ascii_spec_bytes(can_data);
    }
    if n % 2 != 0 || n > 16 {
        return false;
    }
    let mut i: usize = 0;
    while i < n
        invariant
            i <= n,
            n == can_data@.len(),
            is_ascii(can_data),
            bytes@ == can_data.spec_bytes(),
            forall|k: int| 0 <= k < i ==> is_hex_char(#[trigger] can_data@[k]),
        decreases n - i,
    {
        proof {
            is_ascii_spec_bytes(can_data);
        }
        assert(bytes[i as int] as char == can_data@[i as int]);
        if hex_byte_value(bytes[i]).is_none() {
            assert(!is_hex_char(can_data@[i as int]));
            return false;
        }
        i = i + 1;
    }
    true
}

/// Encodes an identifier text and a payload text into a frame. The
/// identifier is checked first, then the payload; a frame comes back only
/// if both are valid.
pub fn encode(is_extended: bool, hex_id: &str, hex_data: &str) -> (r: Result<RawFrame, EncodeError>)
    ensures
        match r {
            Ok(frame) => encoded(is_extended, hex_id@, hex_data@) == Ok::<FrameModel, EncodeError>(
                frame@,
            ),
            Err(e) => encoded(is_extended, hex_id@, hex_data@) == Err::<FrameModel, EncodeError>(e),
        },
        r matches Ok(frame) ==> frame.id <= id_limit(is_extended) && frame.data@.len() <= 8
            && frame.extended == is_extended,
{
    if !is_valid_can_id(is_extended, hex_id) {
        return Err(EncodeError::InvalidIdentifier);
    }
    if !is_valid_can_data(hex_data) {
        return Err(EncodeError::InvalidPayload);
    }
    let id = match convert_hex_string_u32(hex_id) {
        Ok(id) => id,
        Err(e) => {
            return Err(e);
        },
    };
    match convert_hex_string_arr(hex_data) {
        Ok(data) => Ok(RawFrame { id, data, extended: is_extended }),
        Err(e) => Err(e),
    }
}

} // verus!
