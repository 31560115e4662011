use vstd::prelude::*;

use crate::err::ConstructionError;

verus! {

/// if set, the numeric id uses the 29-bit extended format
pub const EFF_FLAG: u32 = 0x8000_0000;

/// remote transmission request flag
pub const RTR_FLAG: u32 = 0x4000_0000;

/// error flag
pub const ERR_FLAG: u32 = 0x2000_0000;

/// valid bits in a standard (11-bit) frame id
pub const SFF_MASK: u32 = 0x0000_07ff;

/// valid bits in an extended (29-bit) frame id
pub const EFF_MASK: u32 = 0x1fff_ffff;

/// valid bits in an error frame
pub const ERR_MASK: u32 = 0x1fff_ffff;

/// an error mask under which every error is reported
pub const ERR_MASK_ALL: u32 = ERR_MASK;

/// an error mask under which every error is silently dropped
pub const ERR_MASK_NONE: u32 = 0;

/// longest payload of a classic frame
pub const CAN_DATA_LEN_MAX: usize = 8;

/// longest payload of an FD frame
pub const CANFD_DATA_LEN_MAX: usize = 64;

/// FD flag bit: bit rate switch (second bitrate for payload data)
pub const CANFD_BRS: u8 = 0x01;

/// FD flag bit: error state indicator of the transmitting node
pub const CANFD_ESI: u8 = 0x02;

/// The id word that a numeric id and the three flags pack into: the flag
/// bits are folded into the reserved high bits of the 32-bit word.
pub open spec fn pack_word(id: u32, ext: bool, rtr: bool, err: bool) -> u32 {
    let w1 = if ext {
        id | EFF_FLAG
    } else {
        id
    };
    let w2 = if rtr {
        w1 | RTR_FLAG
    } else {
        w1
    };
    if err {
        w2 | ERR_FLAG
    } else {
        w2
    }
}

/// The flag bits live above bit 28, so packing an id that fits the extended
/// mask is lossless: every region of the word can be read back on its own.
pub proof fn lemma_pack_word_fields(id: u32, ext: bool, rtr: bool, err: bool)
    requires
        id <= EFF_MASK,
    ensures
        pack_word(id, ext, rtr, err) & EFF_MASK == id,
        pack_word(id, ext, rtr, err) & ERR_MASK == id,
        ((pack_word(id, ext, rtr, err) & EFF_FLAG) != 0) == ext,
        ((pack_word(id, ext, rtr, err) & RTR_FLAG) != 0) == rtr,
        ((pack_word(id, ext, rtr, err) & ERR_FLAG) != 0) == err,
        id <= SFF_MASK ==> pack_word(id, ext, rtr, err) & SFF_MASK == id,
        !ext && !rtr && !err ==> pack_word(id, ext, rtr, err) == id,
{
    let e: u32 = if ext {
        EFF_FLAG
    } else {
        0u32
    };
    let t: u32 = if rtr {
        RTR_FLAG
    } else {
        0u32
    };
    let x: u32 = if err {
        ERR_FLAG
    } else {
        0u32
    };
    assert(forall|a: u32| #[trigger] (a | 0u32) == a) by (bit_vector);
    assert(pack_word(id, ext, rtr, err) == ((id | e) | t) | x);
    assert({
        &&& (((id | e) | t) | x) & 0x1fff_ffffu32 == id
        &&& ((((id | e) | t) | x) & 0x8000_0000u32 != 0) == (e == 0x8000_0000u32)
        &&& ((((id | e) | t) | x) & 0x4000_0000u32 != 0) == (t == 0x4000_0000u32)
        &&& ((((id | e) | t) | x) & 0x2000_0000u32 != 0) == (x == 0x2000_0000u32)
        &&& (id <= 0x7ffu32 ==> (((id | e) | t) | x) & 0x7ffu32 == id)
    }) by (bit_vector)
        requires
            id <= 0x1fff_ffffu32,
            e == 0u32 || e == 0x8000_0000u32,
            t == 0u32 || t == 0x4000_0000u32,
            x == 0u32 || x == 0x2000_0000u32,
    ;
}

/// Builds the composite 32-bit id word from a numeric id and the flags.
///
/// A numeric id beyond the extended mask is rejected.  The extended bit is
/// set when the caller asks for it, and also whenever the id exceeds the
/// 11-bit standard space: range overflow forces extended encoding no matter
/// what the caller claimed.
pub fn init_id_word(id: u32, ext_id: bool, rtr: bool, err: bool) -> (r: Result<
    u32,
    ConstructionError,
>)
    ensures
        id > EFF_MASK ==> r == Err::<u32, ConstructionError>(ConstructionError::IDTooLarge),
        id <= EFF_MASK ==> r == Ok::<u32, ConstructionError>(
            pack_word(id, ext_id || id > SFF_MASK, rtr, err),
        ),
{
    if id > EFF_MASK {
        return Err(ConstructionError::IDTooLarge);
    }
    let mut w = id;
    if ext_id || id > SFF_MASK {
        w = w | EFF_FLAG;
    }
    if rtr {
        w = w | RTR_FLAG;
    }
    if err {
        w = w | ERR_FLAG;
    }
    Ok(w)
}

/// A semantic CAN identifier: standard 11-bit or extended 29-bit addressing.
#[derive(Clone, Copy, Debug, PartialEq, Eq, Structural)]
pub enum CanId {
    /// Standard addressing; valid values fit in 11 bits.
    Standard(u16),
    /// Extended addressing; valid values fit in 29 bits.
    Extended(u32),
}

impl CanId {
    /// The numeric value carried by the identifier.
    pub open spec fn raw(self) -> u32 {
        match self {
            CanId::Standard(v) => v as u32,
            CanId::Extended(v) => v,
        }
    }

    /// The value fits the address space of its variant.
    pub open spec fn wf(self) -> bool {
        match self {
            CanId::Standard(v) => (v as u32) <= SFF_MASK,
            CanId::Extended(v) => v <= EFF_MASK,
        }
    }
}

/// Whether the identifier uses extended addressing.
pub fn is_extended(id: &CanId) -> (b: bool)
    ensures
        b == (id is Extended),
{
    match id {
        CanId::Standard(_) => false,
        CanId::Extended(_) => true,
    }
}

/// The numeric value of a semantic identifier, stripped of its variant.
pub fn hal_id_to_raw(id: CanId) -> (r: u32)
    ensures
        r == id.raw(),
{
    match id {
        CanId::Standard(v) => v as u32,
        CanId::Extended(v) => v,
    }
}

} // verus!
