//! Raw bus frames: identifiers, masking and payload padding.

use vstd::prelude::*;

verus! {

/// The identifier bit that marks an extended or error frame on the wire.
pub const ID_FLAG: u32 = 0x8000_0000;

/// Largest 11-bit (standard) identifier.
pub const STANDARD_ID_MAX: u32 = 0x7FF;

/// Largest 29-bit (extended) identifier.
pub const EXTENDED_ID_MAX: u32 = 0x1FFF_FFFF;

/// Number of bytes a classic frame carries at most.
pub const FRAME_BYTES: usize = 8;

/// A frame as it travels on the bus: the identifier with whatever marker
/// bits the transport set, up to eight payload bytes, and whether the
/// identifier is an extended (29-bit) one.
#[derive(Debug, PartialEq, Eq)]
pub struct RawFrame {
    pub id: u32,
    pub data: Vec<u8>,
    pub extended: bool,
}

/// What a `RawFrame` stands for.
pub struct FrameModel {
    pub id: u32,
    pub data: Seq<u8>,
    pub extended: bool,
}

impl View for RawFrame {
    type V = FrameModel;

    open spec fn view(&self) -> FrameModel {
        FrameModel { id: self.id, data: self.data@, extended: self.extended }
    }
}

impl Clone for RawFrame {
    fn clone(&self) -> (r: Self)
        ensures
            r@ == self@,
    {
        let data = self.data.clone();
        assert(data@ =~= self.data@);
        RawFrame { id: self.id, data, extended: self.extended }
    }
}

/// An identifier with its top bit cleared.
pub open spec fn masked(id: u32) -> u32 {
    id & !ID_FLAG
}

/// Clears the top bit of an identifier, so that identifiers compare
/// regardless of the extended/error marker.
pub fn mask_id(id: u32) -> (r: u32)
    ensures
        r == masked(id),
        r < ID_FLAG,
        r == masked(r),
        r == masked(id | ID_FLAG),
{
    assert((id & !0x8000_0000u32) < 0x8000_0000u32) by (bit_vector);
    assert((id & !0x8000_0000u32) & !0x8000_0000u32 == id & !0x8000_0000u32) by (bit_vector);
    assert((id | 0x8000_0000u32) & !0x8000_0000u32 == id & !0x8000_0000u32) by (bit_vector);
    id & !ID_FLAG
}

/// A payload right-padded with zero bytes to eight bytes; a payload of eight
/// bytes or more is itself.
pub open spec fn padded(payload: Seq<u8>) -> Seq<u8> {
    if payload.len() >= 8 {
        payload
    } else {
        payload + Seq::new((8 - payload.len()) as nat, |i: int| 0u8)
    }
}

/// Right-pads a payload with zero bytes up to eight bytes. Longer payloads
/// pass through untouched: nothing is ever cut off.
pub fn pad_to_8_bytes(data: &[u8]) -> (r: Vec<u8>)
    ensures
        r@ == padded(data@),
        data@.len() <= 8 ==> r@.len() == 8,
        data@.len() > 8 ==> r@ == data@,
        forall|i: int| 0 <= i < data@.len() ==> r@[i] == data@[i],
        forall|i: int| data@.len() <= i < r@.len() ==> r@[i] == 0u8,
{
    let mut out: Vec<u8> = Vec::new();
    let mut i: usize = 0;
    while i < data.len()
        invariant
            i <= data.len(),
            out@ == data@.take(i as int),
        decreases data.len() - i,
    {
        out.push(data[i]);
        i = i + 1;
    }
    assert(data@.take(data@.len() as int) == data@);
    while out.len() < FRAME_BYTES
        invariant
            data@.len() <= out@.len(),
            data@.len() >= 8 ==> out@ == data@,
            data@.len() < 8 ==> out@.len() <= 8,
            out@.take(data@.len() as int) == data@,
            forall|j: int| data@.len() <= j < out@.len() ==> out@[j] == 0u8,
        decreases 8 - out.len(),
    {
        out.push(0u8);
    }
    out
}

} // verus!
