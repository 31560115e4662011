use vstd::prelude::*;

use crate::err::{CanError, CanErrorDecodingFailure, ConstructionError};
use crate::hex::{append_hex_u32, append_payload_hex, hex_digit, hex_digit_str, hex_of, payload_hex};
use crate::id::{
    hal_id_to_raw, init_id_word, is_extended, lemma_pack_word_fields, pack_word, CanId,
    CAN_DATA_LEN_MAX, CANFD_DATA_LEN_MAX, EFF_FLAG, EFF_MASK, ERR_FLAG, ERR_MASK, SFF_MASK,
};

verus! {

use vstd::slice::slice_subrange;
use vstd::string::StringExecFns;

broadcast use vstd::array::group_array_axioms;

/// Copies a slice into the front of a fresh fixed buffer, zero-filling the rest.
pub fn slice_to_array<const S: usize>(data: &[u8]) -> (arr: [u8; S])
    requires
        data@.len() <= S,
    ensures
        forall|i: int| 0 <= i < data@.len() ==> arr@[i] == data@[i],
        forall|i: int| data@.len() <= i < S ==> arr@[i] == 0u8,
{
    let mut arr: [u8; S] = [0u8; S];
    let n = data.len();
    let mut i: usize = 0;
    while i < n
        invariant
            i <= n,
            n == data@.len(),
            n <= S,
            forall|j: int| 0 <= j < i ==> arr@[j] == data@[j],
            forall|j: int| i <= j < S ==> arr@[j] == 0u8,
        decreases n - i,
    {
        arr[i] = data[i];
        i = i + 1;
    }
    arr
}

// ===== Frame trait =====

/// The operations both frame kinds expose identically, so that transport and
/// filtering code can be written once against either kind.  The masking
/// formulas are fixed here, in the contracts, and may not diverge between
/// implementations.
pub trait Frame: Sized {
    /// The frame's internal invariant; constructors establish it and every
    /// method preserves it.
    spec fn wf(&self) -> bool;

    /// The packed 32-bit id word, flags folded into the high bits.
    spec fn spec_id_word(&self) -> u32;

    /// The meaningful payload bytes, never more than the recorded length.
    spec fn spec_data(&self) -> Seq<u8>;

    /// The full id word (with EFF/RTR/ERR flags).
    fn id_word(&self) -> (w: u32)
        requires
            self.wf(),
        ensures
            w == self.spec_id_word(),
    ;

    /// The raw numeric CAN id, stripped of the flag bits.
    fn raw_id(&self) -> (r: u32)
        requires
            self.wf(),
        ensures
            r == self.spec_id_word() & EFF_MASK,
    ;

    /// The semantic identifier: standard or extended, chosen by the extended
    /// flag, masked accordingly.
    fn hal_id(&self) -> (id: CanId)
        requires
            self.wf(),
        ensures
            id.wf(),
            self.spec_id_word() & EFF_FLAG != 0 ==> id == CanId::Extended(
                self.spec_id_word() & EFF_MASK,
            ),
            self.spec_id_word() & EFF_FLAG == 0 ==> id == CanId::Standard(
                (self.spec_id_word() & SFF_MASK) as u16,
            ),
    ;

    /// The payload length.
    fn len(&self) -> (n: usize)
        requires
            self.wf(),
        ensures
            n == self.spec_data().len(),
    ;

    /// The error word: the id word masked to the valid error bits.
    fn err(&self) -> (e: u32)
        requires
            self.wf(),
        ensures
            e == self.spec_id_word() & ERR_MASK,
    ;

    /// Whether the frame is an error notification.
    fn is_error(&self) -> (b: bool)
        requires
            self.wf(),
        ensures
            b == (self.spec_id_word() & ERR_FLAG != 0),
    ;

    /// The decode-error entry point: yields a well-formed bus-error
    /// description exactly when the error flag is set, and a decoding
    /// failure otherwise.  Classifying the cause further is the transport
    /// collaborator's concern.
    fn error(&self) -> (r: Result<CanError, CanErrorDecodingFailure>)
        requires
            self.wf(),
        ensures
            (r is Ok) == (self.spec_id_word() & ERR_FLAG != 0),
            r is Ok ==> r == Ok::<CanError, CanErrorDecodingFailure>(
                (CanError { error_word: self.spec_id_word() & ERR_MASK }),
            ),
            r is Err ==> r == Err::<CanError, CanErrorDecodingFailure>(
                CanErrorDecodingFailure::NotAnError,
            ),
    ;
}

impl CanError {
    /// Decodes the error information of a frame: only a frame whose error
    /// flag is set carries any, and what this layer hands on is its id word
    /// masked to the valid error bits.
    pub fn from_frame<F: Frame>(frame: &F) -> (r: Result<CanError, CanErrorDecodingFailure>)
        requires
            frame.wf(),
        ensures
            (r is Ok) == (frame.spec_id_word() & ERR_FLAG != 0),
            r is Ok ==> r == Ok::<CanError, CanErrorDecodingFailure>(
                (CanError { error_word: frame.spec_id_word() & ERR_MASK }),
            ),
            r is Err ==> r == Err::<CanError, CanErrorDecodingFailure>(
                CanErrorDecodingFailure::NotAnError,
            ),
    {
        if frame.is_error() {
            Ok(CanError { error_word: frame.err() })
        } else {
            Err(CanErrorDecodingFailure::NotAnError)
        }
    }
}

// ===== Classic frame =====

/// What a classic frame means: its numeric id, the three flags, and exactly
/// the meaningful payload bytes.
#[verifier::ext_equal]
pub ghost struct CanFrameView {
    pub id: u32,
    pub extended: bool,
    pub remote: bool,
    pub error: bool,
    pub data: Seq<u8>,
}

/// The view a successful classic construction yields: an id beyond the
/// 11-bit standard space is promoted to extended no matter what the caller
/// claimed.
pub open spec fn classic_view(id: u32, data: Seq<u8>, ext: bool, rtr: bool, err: bool) -> CanFrameView {
    CanFrameView { id: id, extended: ext || id > SFF_MASK, remote: rtr, error: err, data: data }
}

/// The classic CAN 2.0 frame with up to 8 bytes of data.
#[derive(Clone, Copy, Debug)]
pub struct CanFrame {
    id: u32,
    extended: bool,
    remote: bool,
    error: bool,
    dlc: u8,
    data: [u8; 8],
}

impl View for CanFrame {
    type V = CanFrameView;

    closed spec fn view(&self) -> CanFrameView {
        CanFrameView {
            id: self.id,
            extended: self.extended,
            remote: self.remote,
            error: self.error,
            data: self.data@.subrange(0, self.dlc as int),
        }
    }
}

impl CanFrame {
    /// Builds a classic frame from raw parts.  The payload may not exceed 8
    /// bytes; the id may not exceed the extended mask; an id beyond the
    /// standard space forces extended encoding.  No partial frame is ever
    /// returned: construction is all or nothing.
    pub fn init(id: u32, data: &[u8], ext_id: bool, rtr: bool, err: bool) -> (r: Result<
        CanFrame,
        ConstructionError,
    >)
        ensures
            data@.len() > CAN_DATA_LEN_MAX ==> r == Err::<CanFrame, ConstructionError>(
                ConstructionError::TooMuchData,
            ),
            data@.len() <= CAN_DATA_LEN_MAX && id > EFF_MASK ==> r == Err::<
                CanFrame,
                ConstructionError,
            >(ConstructionError::IDTooLarge),
            data@.len() <= CAN_DATA_LEN_MAX && id <= EFF_MASK ==> (r matches Ok(f) && f.wf() && f@
                == classic_view(id, data@, ext_id, rtr, err)),
    {
        let n = data.len();
        if n > CAN_DATA_LEN_MAX {
            return Err(ConstructionError::TooMuchData);
        }
        if id > EFF_MASK {
            return Err(ConstructionError::IDTooLarge);
        }
        let arr = slice_to_array::<8>(data);
        let f = CanFrame {
            id,
            extended: ext_id || id > SFF_MASK,
            remote: rtr,
            error: err,
            dlc: n as u8,
            data: arr,
        };
        proof {
            assert(f@.data =~= data@);
            assert(f@ =~= classic_view(id, data@, ext_id, rtr, err));
        }
        Ok(f)
    }

    /// Builds a data frame for a semantic identifier; fails (with nothing
    /// built) when the payload exceeds 8 bytes or the id exceeds the
    /// extended mask.
    pub fn new(id: CanId, data: &[u8]) -> (r: Option<CanFrame>)
        ensures
            data@.len() > CAN_DATA_LEN_MAX || id.raw() > EFF_MASK ==> r is None,
            data@.len() <= CAN_DATA_LEN_MAX && id.raw() <= EFF_MASK ==> (r matches Some(f)
                && f.wf() && f@ == classic_view(id.raw(), data@, id is Extended, false, false)),
    {
        let is_ext = is_extended(&id);
        let raw_id = hal_id_to_raw(id);
        match CanFrame::init(raw_id, data, is_ext, false, false) {
            Ok(f) => Some(f),
            Err(_) => None,
        }
    }

    /// Builds a remote transmission request: the remote flag is set and the
    /// payload is `dlc` zero bytes.  A requested length beyond 8 is rejected
    /// like an oversized payload.
    pub fn new_remote(id: CanId, dlc: usize) -> (r: Option<CanFrame>)
        ensures
            dlc > CAN_DATA_LEN_MAX || id.raw() > EFF_MASK ==> r is None,
            dlc <= CAN_DATA_LEN_MAX && id.raw() <= EFF_MASK ==> (r matches Some(f) && f.wf() && f@
                == classic_view(id.raw(), Seq::new(dlc as nat, |i: int| 0u8), id is Extended, true, false)),
    {
        if dlc > CAN_DATA_LEN_MAX {
            return None;
        }
        let is_ext = is_extended(&id);
        let raw_id = hal_id_to_raw(id);
        let zeroes: [u8; 8] = [0u8; 8];
        let d = slice_subrange(zeroes.as_slice(), 0, dlc);
        proof {
            assert(d@ =~= Seq::new(dlc as nat, |i: int| 0u8));
        }
        match CanFrame::init(raw_id, d, is_ext, true, false) {
            Ok(f) => Some(f),
            Err(_) => None,
        }
    }

    /// Whether the frame uses 29-bit extended addressing.
    pub fn is_extended(&self) -> (b: bool)
        ensures
            b == self@.extended,
    {
        self.extended
    }

    /// Whether the frame is a remote transmission request.
    pub fn is_remote_frame(&self) -> (b: bool)
        ensures
            b == self@.remote,
    {
        self.remote
    }

    /// The frame identifier as a semantic id.
    pub fn id(&self) -> (id: CanId)
        requires
            self.wf(),
        ensures
            id.wf(),
            self.spec_id_word() & EFF_FLAG != 0 ==> id == CanId::Extended(
                self.spec_id_word() & EFF_MASK,
            ),
            self.spec_id_word() & EFF_FLAG == 0 ==> id == CanId::Standard(
                (self.spec_id_word() & SFF_MASK) as u16,
            ),
    {
        self.hal_id()
    }

    /// The payload length.
    pub fn dlc(&self) -> (n: usize)
        requires
            self.wf(),
        ensures
            n == self@.data.len(),
    {
        self.dlc as usize
    }

    /// The meaningful payload bytes: exactly `dlc` of them, never more.
    pub fn data(&self) -> (d: &[u8])
        requires
            self.wf(),
        ensures
            d@ == self@.data,
    {
        slice_subrange(self.data.as_slice(), 0, self.dlc as usize)
    }
}

impl Frame for CanFrame {
    closed spec fn wf(&self) -> bool {
        &&& self.id <= EFF_MASK
        &&& self.id > SFF_MASK ==> self.extended
        &&& self.dlc as int <= 8
        &&& forall|i: int| self.dlc as int <= i < 8 ==> self.data@[i] == 0u8
    }

    closed spec fn spec_id_word(&self) -> u32 {
        pack_word(self.id, self.extended, self.remote, self.error)
    }

    closed spec fn spec_data(&self) -> Seq<u8> {
        self@.data
    }

    fn id_word(&self) -> (w: u32) {
        proof {
            assert((self.extended || self.id > SFF_MASK) == self.extended);
        }
        match init_id_word(self.id, self.extended, self.remote, self.error) {
            Ok(w) => w,
            Err(_) => {
                proof {
                    assert(false);
                }
                0
            },
        }
    }

    fn raw_id(&self) -> (r: u32) {
        self.id_word() & EFF_MASK
    }

    fn hal_id(&self) -> (id: CanId) {
        proof {
            lemma_pack_word_fields(self.id, self.extended, self.remote, self.error);
        }
        if self.extended {
            CanId::Extended(self.id_word() & EFF_MASK)
        } else {
            CanId::Standard((self.id_word() & SFF_MASK) as u16)
        }
    }

    fn len(&self) -> (n: usize) {
        self.dlc()
    }

    fn err(&self) -> (e: u32) {
        self.id_word() & ERR_MASK
    }

    fn is_error(&self) -> (b: bool) {
        proof {
            lemma_pack_word_fields(self.id, self.extended, self.remote, self.error);
        }
        self.error
    }

    fn error(&self) -> (r: Result<CanError, CanErrorDecodingFailure>) {
        if self.is_error() {
            Ok(CanError { error_word: self.err() })
        } else {
            Err(CanErrorDecodingFailure::NotAnError)
        }
    }
}

impl Default for CanFrame {
    /// The all-zero frame: id zero, no flags, empty payload.
    fn default() -> (r: CanFrame)
        ensures
            r.wf(),
            r@ == classic_view(0, Seq::<u8>::empty(), false, false, false),
    {
        let f = CanFrame {
            id: 0,
            extended: false,
            remote: false,
            error: false,
            dlc: 0,
            data: [0u8; 8],
        };
        proof {
            assert(f@.data =~= Seq::<u8>::empty());
            assert(f@ =~= classic_view(0, Seq::<u8>::empty(), false, false, false));
        }
        f
    }
}

impl PartialEq for CanFrame {
    /// Frames are equal when id, flags, length and buffer agree; the buffer
    /// beyond the meaningful length is always zero, so this is semantic
    /// equality of well-formed frames.
    fn eq(&self, other: &CanFrame) -> (r: bool) {
        if !(self.id == other.id && self.extended == other.extended && self.remote == other.remote
            && self.error == other.error && self.dlc == other.dlc) {
            return false;
        }
        let mut i: usize = 0;
        while i < 8
            invariant
                i <= 8,
                forall|j: int| 0 <= j < i ==> self.data@[j] == other.data@[j],
            decreases 8 - i,
        {
            if self.data[i] != other.data[i] {
                return false;
            }
            i = i + 1;
        }
        proof {
            assert(self.data@ =~= other.data@);
        }
        true
    }
}

impl vstd::std_specs::cmp::PartialEqSpecImpl for CanFrame {
    open spec fn obeys_eq_spec() -> bool {
        true
    }

    closed spec fn eq_spec(&self, other: &CanFrame) -> bool {
        &&& self.id == other.id
        &&& self.extended == other.extended
        &&& self.remote == other.remote
        &&& self.error == other.error
        &&& self.dlc == other.dlc
        &&& self.data@ == other.data@
    }
}

// ===== FD frame =====

/// What an FD frame means: numeric id, flags (no remote concept), the two
/// FD flag bits, and exactly the meaningful payload bytes.
#[verifier::ext_equal]
pub ghost struct CanFdFrameView {
    pub id: u32,
    pub extended: bool,
    pub error: bool,
    pub brs: bool,
    pub esi: bool,
    pub data: Seq<u8>,
}

/// The view a successful FD construction yields, with the same silent
/// promotion to extended as the classic kind.
pub open spec fn fd_view(id: u32, data: Seq<u8>, ext: bool, err: bool, brs: bool, esi: bool) -> CanFdFrameView {
    CanFdFrameView {
        id: id,
        extended: ext || id > SFF_MASK,
        error: err,
        brs: brs,
        esi: esi,
        data: data,
    }
}

/// The CAN flexible-data-rate frame with up to 64 bytes of data.
#[derive(Clone, Copy, Debug)]
pub struct CanFdFrame {
    id: u32,
    extended: bool,
    error: bool,
    len: u8,
    brs: bool,
    esi: bool,
    data: [u8; 64],
}

impl View for CanFdFrame {
    type V = CanFdFrameView;

    closed spec fn view(&self) -> CanFdFrameView {
        CanFdFrameView {
            id: self.id,
            extended: self.extended,
            error: self.error,
            brs: self.brs,
            esi: self.esi,
            data: self.data@.subrange(0, self.len as int),
        }
    }
}

impl CanFdFrame {
    /// Builds an FD frame from raw parts.  The payload ceiling is the FD
    /// maximum of 64 bytes; the remote flag has no FD counterpart and is
    /// never set; both FD flag bits are recorded independently.
    pub fn init(id: u32, data: &[u8], ext_id: bool, err: bool, brs: bool, esi: bool) -> (r: Result<
        CanFdFrame,
        ConstructionError,
    >)
        ensures
            data@.len() > CANFD_DATA_LEN_MAX ==> r == Err::<CanFdFrame, ConstructionError>(
                ConstructionError::TooMuchData,
            ),
            data@.len() <= CANFD_DATA_LEN_MAX && id > EFF_MASK ==> r == Err::<
                CanFdFrame,
                ConstructionError,
            >(ConstructionError::IDTooLarge),
            data@.len() <= CANFD_DATA_LEN_MAX && id <= EFF_MASK ==> (r matches Ok(f) && f.wf()
                && f@ == fd_view(id, data@, ext_id, err, brs, esi)),
    {
        let n = data.len();
        if n > CANFD_DATA_LEN_MAX {
            return Err(ConstructionError::TooMuchData);
        }
        if id > EFF_MASK {
            return Err(ConstructionError::IDTooLarge);
        }
        let arr = slice_to_array::<64>(data);
        let f = CanFdFrame {
            id,
            extended: ext_id || id > SFF_MASK,
            error: err,
            len: n as u8,
            brs,
            esi,
            data: arr,
        };
        proof {
            assert(f@.data =~= data@);
            assert(f@ =~= fd_view(id, data@, ext_id, err, brs, esi));
        }
        Ok(f)
    }

    /// Builds an FD data frame for a semantic identifier; fails when the
    /// payload exceeds 64 bytes or the id exceeds the extended mask.
    pub fn new(id: CanId, data: &[u8]) -> (r: Option<CanFdFrame>)
        ensures
            data@.len() > CANFD_DATA_LEN_MAX || id.raw() > EFF_MASK ==> r is None,
            data@.len() <= CANFD_DATA_LEN_MAX && id.raw() <= EFF_MASK ==> (r matches Some(f)
                && f.wf() && f@ == fd_view(id.raw(), data@, id is Extended, false, false, false)),
    {
        let is_ext = is_extended(&id);
        let raw_id = hal_id_to_raw(id);
        match CanFdFrame::init(raw_id, data, is_ext, false, false, false) {
            Ok(f) => Some(f),
            Err(_) => None,
        }
    }

    /// FD frames have no remote request concept: nothing is ever built.
    pub fn new_remote(_id: CanId, _dlc: usize) -> (r: Option<CanFdFrame>)
        ensures
            r is None,
    {
        None
    }

    /// Whether the frame uses 29-bit extended addressing.
    pub fn is_extended(&self) -> (b: bool)
        ensures
            b == self@.extended,
    {
        self.extended
    }

    /// FD frames never are remote requests.
    pub fn is_remote_frame(&self) -> (b: bool)
        ensures
            b == false,
    {
        false
    }

    /// Whether the bit-rate-switch flag is set.
    pub fn is_brs(&self) -> (b: bool)
        ensures
            b == self@.brs,
    {
        self.brs
    }

    /// Sets or clears the bit-rate-switch flag; the error-state-indicator
    /// flag and everything else are untouched.
    pub fn set_brs(&mut self, on: bool)
        ensures
            final(self)@ == (CanFdFrameView { brs: on, ..old(self)@ }),
            old(self).wf() ==> final(self).wf(),
    {
        self.brs = on;
        proof {
            assert(self@ =~= (CanFdFrameView { brs: on, ..old(self)@ }));
        }
    }

    /// Whether the error-state-indicator flag is set.
    pub fn is_esi(&self) -> (b: bool)
        ensures
            b == self@.esi,
    {
        self.esi
    }

    /// Sets or clears the error-state-indicator flag; the bit-rate-switch
    /// flag and everything else are untouched.
    pub fn set_esi(&mut self, on: bool)
        ensures
            final(self)@ == (CanFdFrameView { esi: on, ..old(self)@ }),
            old(self).wf() ==> final(self).wf(),
    {
        self.esi = on;
        proof {
            assert(self@ =~= (CanFdFrameView { esi: on, ..old(self)@ }));
        }
    }

    /// The frame identifier as a semantic id.
    pub fn id(&self) -> (id: CanId)
        requires
            self.wf(),
        ensures
            id.wf(),
            self.spec_id_word() & EFF_FLAG != 0 ==> id == CanId::Extended(
                self.spec_id_word() & EFF_MASK,
            ),
            self.spec_id_word() & EFF_FLAG == 0 ==> id == CanId::Standard(
                (self.spec_id_word() & SFF_MASK) as u16,
            ),
    {
        self.hal_id()
    }

    /// The payload length.
    pub fn dlc(&self) -> (n: usize)
        requires
            self.wf(),
        ensures
            n == self@.data.len(),
    {
        self.len as usize
    }

    /// The meaningful payload bytes: exactly `len` of them, never more.
    pub fn data(&self) -> (d: &[u8])
        requires
            self.wf(),
        ensures
            d@ == self@.data,
    {
        slice_subrange(self.data.as_slice(), 0, self.len as usize)
    }
}

impl Frame for CanFdFrame {
    closed spec fn wf(&self) -> bool {
        &&& self.id <= EFF_MASK
        &&& self.id > SFF_MASK ==> self.extended
        &&& self.len as int <= 64
        &&& forall|i: int| self.len as int <= i < 64 ==> self.data@[i] == 0u8
    }

    closed spec fn spec_id_word(&self) -> u32 {
        pack_word(self.id, self.extended, false, self.error)
    }

    closed spec fn spec_data(&self) -> Seq<u8> {
        self@.data
    }

    fn id_word(&self) -> (w: u32) {
        proof {
            assert((self.extended || self.id > SFF_MASK) == self.extended);
        }
        match init_id_word(self.id, self.extended, false, self.error) {
            Ok(w) => w,
            Err(_) => {
                proof {
                    assert(false);
                }
                0
            },
        }
    }

    fn raw_id(&self) -> (r: u32) {
        self.id_word() & EFF_MASK
    }

    fn hal_id(&self) -> (id: CanId) {
        proof {
            lemma_pack_word_fields(self.id, self.extended, false, self.error);
        }
        if self.extended {
            CanId::Extended(self.id_word() & EFF_MASK)
        } else {
            CanId::Standard((self.id_word() & SFF_MASK) as u16)
        }
    }

    fn len(&self) -> (n: usize) {
        self.dlc()
    }

    fn err(&self) -> (e: u32) {
        self.id_word() & ERR_MASK
    }

    fn is_error(&self) -> (b: bool) {
        proof {
            lemma_pack_word_fields(self.id, self.extended, false, self.error);
        }
        self.error
    }

    fn error(&self) -> (r: Result<CanError, CanErrorDecodingFailure>) {
        if self.is_error() {
            Ok(CanError { error_word: self.err() })
        } else {
            Err(CanErrorDecodingFailure::NotAnError)
        }
    }
}

impl Default for CanFdFrame {
    /// The all-zero frame: id zero, no flags, empty payload.
    fn default() -> (r: CanFdFrame)
        ensures
            r.wf(),
            r@ == fd_view(0, Seq::<u8>::empty(), false, false, false, false),
    {
        let f = CanFdFrame {
            id: 0,
            extended: false,
            error: false,
            len: 0,
            brs: false,
            esi: false,
            data: [0u8; 64],
        };
        proof {
            assert(f@.data =~= Seq::<u8>::empty());
            assert(f@ =~= fd_view(0, Seq::<u8>::empty(), false, false, false, false));
        }
        f
    }
}

impl PartialEq for CanFdFrame {
    /// Frames are equal when id, flags, length and buffer agree; the buffer
    /// beyond the meaningful length is always zero, so this is semantic
    /// equality of well-formed frames.
    fn eq(&self, other: &CanFdFrame) -> (r: bool) {
        if !(self.id == other.id && self.extended == other.extended && self.error == other.error
            && self.len == other.len && self.brs == other.brs && self.esi == other.esi) {
            return false;
        }
        let mut i: usize = 0;
        while i < 64
            invariant
                i <= 64,
                forall|j: int| 0 <= j < i ==> self.data@[j] == other.data@[j],
            decreases 64 - i,
        {
            if self.data[i] != other.data[i] {
                return false;
            }
            i = i + 1;
        }
        proof {
            assert(self.data@ =~= other.data@);
        }
        true
    }
}

impl vstd::std_specs::cmp::PartialEqSpecImpl for CanFdFrame {
    open spec fn obeys_eq_spec() -> bool {
        true
    }

    closed spec fn eq_spec(&self, other: &CanFdFrame) -> bool {
        &&& self.id == other.id
        &&& self.extended == other.extended
        &&& self.error == other.error
        &&& self.len == other.len
        &&& self.brs == other.brs
        &&& self.esi == other.esi
        &&& self.data@ == other.data@
    }
}

// ===== Kind conversions =====

/// Widening a classic frame to FD: id, extended and error flags are kept,
/// the remote flag has no FD counterpart and is dropped, the FD flags start
/// cleared, the payload is unchanged (the wider buffer is zero-extended).
pub open spec fn widen(c: CanFrameView) -> CanFdFrameView {
    CanFdFrameView {
        id: c.id,
        extended: c.extended,
        error: c.error,
        brs: false,
        esi: false,
        data: c.data,
    }
}

/// Narrowing an FD frame to classic: fails exactly when the payload exceeds
/// the classic maximum of 8 bytes; otherwise id, extended and error flags
/// are kept and the remote flag is false.
pub open spec fn narrow(f: CanFdFrameView) -> Result<CanFrameView, ConstructionError> {
    if f.data.len() > CAN_DATA_LEN_MAX {
        Err(ConstructionError::TooMuchData)
    } else {
        Ok(
            CanFrameView {
                id: f.id,
                extended: f.extended,
                remote: false,
                error: f.error,
                data: f.data,
            },
        )
    }
}

impl CanFdFrame {
    /// The total widening conversion from a classic frame.
    pub fn from(frame: CanFrame) -> (r: CanFdFrame)
        requires
            frame.wf(),
        ensures
            r.wf(),
            r@ == widen(frame@),
    {
        let arr = slice_to_array::<64>(frame.data());
        let r = CanFdFrame {
            id: frame.id,
            extended: frame.extended,
            error: frame.error,
            len: frame.dlc,
            brs: false,
            esi: false,
            data: arr,
        };
        proof {
            assert(r@.data =~= frame@.data);
            assert(r@ =~= widen(frame@));
        }
        r
    }
}

impl CanFrame {
    /// The partial narrowing conversion from an FD frame: fails with
    /// `TooMuchData` exactly when the FD payload exceeds 8 bytes.
    pub fn try_from(frame: CanFdFrame) -> (r: Result<CanFrame, ConstructionError>)
        requires
            frame.wf(),
        ensures
            frame@.data.len() > CAN_DATA_LEN_MAX ==> r == Err::<CanFrame, ConstructionError>(
                ConstructionError::TooMuchData,
            ),
            frame@.data.len() <= CAN_DATA_LEN_MAX ==> (r matches Ok(c) && c.wf() && narrow(frame@)
                == Ok::<CanFrameView, ConstructionError>(c@)),
    {
        if frame.len > 8 {
            return Err(ConstructionError::TooMuchData);
        }
        let arr = slice_to_array::<8>(frame.data());
        let c = CanFrame {
            id: frame.id,
            extended: frame.extended,
            remote: false,
            error: frame.error,
            dlc: frame.len,
            data: arr,
        };
        proof {
            assert(c@.data =~= frame@.data);
            assert(narrow(frame@) matches Ok(v) && c@ =~= v);
        }
        Ok(c)
    }
}

// ===== Frame union =====

/// Either kind of frame, for call sites that must accept both without
/// knowing which ahead of time.
#[derive(Clone, Copy, Debug)]
pub enum CanAnyFrame {
    /// A classic CAN 2.0 frame, with up to 8 bytes of data.
    Normal(CanFrame),
    /// A flexible data rate frame, with up to 64 bytes of data.
    Fd(CanFdFrame),
}

impl CanAnyFrame {
    /// The held frame's internal invariant.
    pub open spec fn wf(&self) -> bool {
        match *self {
            CanAnyFrame::Normal(f) => f.wf(),
            CanAnyFrame::Fd(f) => f.wf(),
        }
    }
}

impl From<CanFrame> for CanAnyFrame {
    fn from(frame: CanFrame) -> (r: CanAnyFrame) {
        CanAnyFrame::Normal(frame)
    }
}

impl vstd::std_specs::convert::FromSpecImpl<CanFrame> for CanAnyFrame {
    open spec fn obeys_from_spec() -> bool {
        true
    }

    open spec fn from_spec(frame: CanFrame) -> CanAnyFrame {
        CanAnyFrame::Normal(frame)
    }
}

impl From<CanFdFrame> for CanAnyFrame {
    fn from(frame: CanFdFrame) -> (r: CanAnyFrame) {
        CanAnyFrame::Fd(frame)
    }
}

impl vstd::std_specs::convert::FromSpecImpl<CanFdFrame> for CanAnyFrame {
    open spec fn obeys_from_spec() -> bool {
        true
    }

    open spec fn from_spec(frame: CanFdFrame) -> CanAnyFrame {
        CanAnyFrame::Fd(frame)
    }
}

// ===== Canonical text rendering =====

/// Canonical text of a classic frame: the id word in uppercase hexadecimal,
/// a `#`, then the payload bytes as space-separated two-digit groups.
pub open spec fn classic_text(v: CanFrameView) -> Seq<char> {
    hex_of(pack_word(v.id, v.extended, v.remote, v.error) as nat) + seq!['#'] + payload_hex(v.data)
}

/// The value of the FD flags byte: bit-rate-switch in bit 0, error-state
/// indicator in bit 1.
pub open spec fn fd_flags_value(brs: bool, esi: bool) -> u8 {
    if brs && esi {
        3u8
    } else if esi {
        2u8
    } else if brs {
        1u8
    } else {
        0u8
    }
}

/// Canonical text of an FD frame: the id word in uppercase hexadecimal,
/// `##`, the flags value, a space, then the payload bytes as
/// space-separated two-digit groups.
pub open spec fn fd_text(v: CanFdFrameView) -> Seq<char> {
    hex_of(pack_word(v.id, v.extended, false, v.error) as nat) + seq!['#', '#'] + seq![
        hex_digit(fd_flags_value(v.brs, v.esi) as nat),
    ] + seq![' '] + payload_hex(v.data)
}

impl CanFrame {
    /// Renders the canonical uppercase-hexadecimal text of the frame.
    pub fn to_upper_hex(&self) -> (r: String)
        requires
            self.wf(),
        ensures
            r@ == classic_text(self@),
    {
        let mut s = String::new();
        append_hex_u32(&mut s, self.id_word());
        s.append("#");
        append_payload_hex(&mut s, self.data());
        proof {
            reveal_strlit("#");
            assert("#"@ =~= seq!['#']);
            assert(((Seq::<char>::empty() + hex_of(self.spec_id_word() as nat)) + "#"@)
                + payload_hex(self@.data) =~= classic_text(self@));
        }
        s
    }
}

impl CanFdFrame {
    /// Renders the canonical uppercase-hexadecimal text of the frame.
    pub fn to_upper_hex(&self) -> (r: String)
        requires
            self.wf(),
        ensures
            r@ == fd_text(self@),
    {
        let mut s = String::new();
        append_hex_u32(&mut s, self.id_word());
        s.append("##");
        let flags: u8 = if self.brs && self.esi {
            3
        } else if self.esi {
            2
        } else if self.brs {
            1
        } else {
            0
        };
        s.append(hex_digit_str(flags));
        s.append(" ");
        append_payload_hex(&mut s, self.data());
        proof {
            reveal_strlit("##");
            reveal_strlit(" ");
            assert("##"@ =~= seq!['#', '#']);
            assert(" "@ =~= seq![' ']);
            assert(flags == fd_flags_value(self@.brs, self@.esi));
            assert(((((Seq::<char>::empty() + hex_of(self.spec_id_word() as nat)) + "##"@) + seq![
                hex_digit(fd_flags_value(self@.brs, self@.esi) as nat),
            ]) + " "@) + payload_hex(self@.data) =~= fd_text(self@));
        }
        s
    }
}

impl CanAnyFrame {
    /// Renders the canonical text of whichever kind is held.
    pub fn to_upper_hex(&self) -> (r: String)
        requires
            self.wf(),
        ensures
            (*self) matches CanAnyFrame::Normal(f) ==> r@ == classic_text(f@),
            (*self) matches CanAnyFrame::Fd(f) ==> r@ == fd_text(f@),
    {
        match self {
            CanAnyFrame::Normal(f) => f.to_upper_hex(),
            CanAnyFrame::Fd(f) => f.to_upper_hex(),
        }
    }
}

// ===== Laws of construction and conversion =====

/// The closed model of a valid classic frame, stated over its public view:
/// the id word is the view's fields packed by the codec, the payload the
/// trait speaks of is the view's payload, and the view is bounded by the
/// classic limits, with the promotion to extended recorded.
pub proof fn lemma_classic_frame_model(f: &CanFrame)
    requires
        f.wf(),
    ensures
        f.spec_id_word() == pack_word(f@.id, f@.extended, f@.remote, f@.error),
        f.spec_data() == f@.data,
        f@.id <= EFF_MASK,
        f@.id > SFF_MASK ==> f@.extended,
        f@.data.len() <= CAN_DATA_LEN_MAX,
{
}

/// The closed model of a valid FD frame, stated over its public view: the
/// id word packs the view's fields with the remote flag fixed false, and
/// the view is bounded by the FD limits.
pub proof fn lemma_fd_frame_model(f: &CanFdFrame)
    requires
        f.wf(),
    ensures
        f.spec_id_word() == pack_word(f@.id, f@.extended, false, f@.error),
        f.spec_data() == f@.data,
        f@.id <= EFF_MASK,
        f@.id > SFF_MASK ==> f@.extended,
        f@.data.len() <= CANFD_DATA_LEN_MAX,
{
}


/// For an id within the 11-bit standard space, built without forcing
/// extended, the extended flag stays false and the rendered id is the id
/// itself in hexadecimal.
pub proof fn lemma_standard_id_stays_standard(id: u32, data: Seq<u8>)
    requires
        id <= SFF_MASK,
    ensures
        !classic_view(id, data, false, false, false).extended,
        classic_text(classic_view(id, data, false, false, false)) == hex_of(id as nat) + seq!['#']
            + payload_hex(data),
{
    let v = classic_view(id, data, false, false, false);
    assert(pack_word(v.id, v.extended, v.remote, v.error) == id);
}

/// Any id beyond the standard space is promoted to extended no matter what
/// the caller asked, for both frame kinds, and the packed word carries the
/// extended bit.
pub proof fn lemma_oversize_id_promoted(
    id: u32,
    data: Seq<u8>,
    ext: bool,
    rtr: bool,
    err: bool,
    brs: bool,
    esi: bool,
)
    requires
        SFF_MASK < id <= EFF_MASK,
    ensures
        classic_view(id, data, ext, rtr, err).extended,
        fd_view(id, data, ext, err, brs, esi).extended,
        pack_word(id, classic_view(id, data, ext, rtr, err).extended, rtr, err) & EFF_FLAG != 0,
{
    lemma_pack_word_fields(id, true, rtr, err);
}

/// Widening then narrowing gives the original classic frame back, whenever
/// its payload fits the classic maximum and it is not a remote request.
pub proof fn lemma_widen_then_narrow(c: CanFrameView)
    requires
        !c.remote,
        c.data.len() <= CAN_DATA_LEN_MAX,
    ensures
        narrow(widen(c)) == Ok::<CanFrameView, ConstructionError>(c),
{
    match narrow(widen(c)) {
        Ok(v) => {
            assert(v =~= c);
        },
        Err(_) => {
            assert(false);
        },
    }
}

/// Narrowing any FD view whose payload exceeds the classic maximum fails
/// with the oversized-payload error.
pub proof fn lemma_narrow_oversize_fails(f: CanFdFrameView)
    requires
        f.data.len() > CAN_DATA_LEN_MAX,
    ensures
        narrow(f) == Err::<CanFrameView, ConstructionError>(ConstructionError::TooMuchData),
{
}

} // verus!
