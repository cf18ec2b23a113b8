//! Target records: checked values for discovered or selected remote tags.
//!
//! The native library describes a remote tag or peer as a packed struct of
//! integer constants, fixed-size byte arrays and length fields. A [`Target`]
//! is the checked counterpart: a closed modulation, and per-protocol fields
//! whose lengths are validated against the native arrays' capacities.
//! Conversion from the raw representation is fallible — a record whose
//! constants or lengths do not fit the known shapes is rejected as
//! [`Error::InvalidTarget`], never defaulted.

use vstd::prelude::*;

use crate::enums::BaudRate;
use crate::enums::DepMode;
use crate::enums::Modulation;
use crate::enums::ModulationType;
use crate::enums::baud_rate_of_native;
use crate::enums::dep_mode_of_native;
use crate::error::Error;

verus! {

/// Largest unique identifier the native ISO/IEC 14443 type A record carries.
pub const ISO14443A_UID_MAX_LEN: usize = 10;

/// Largest answer-to-select the native ISO/IEC 14443 type A record carries.
pub const ISO14443A_ATS_MAX_LEN: usize = 254;

/// Length of the identifier in a native DEP record.
pub const DEP_NFCID3_LEN: usize = 10;

/// Largest general-bytes field the native DEP record carries.
pub const DEP_GB_MAX_LEN: usize = 48;

/// Fields of an ISO/IEC 14443 type A tag (such as MIFARE).
pub struct Iso14443aInfo {
    /// Answer to request, two bytes.
    pub atqa: [u8; 2],
    /// Select acknowledge byte.
    pub sak: u8,
    /// Unique identifier, at most 10 bytes.
    pub uid: Vec<u8>,
    /// Answer to select, at most 254 bytes.
    pub ats: Vec<u8>,
}

impl Iso14443aInfo {
    /// The validated shape: field lengths fit the native arrays.
    pub open spec fn wf(self) -> bool {
        &&& self.uid@.len() <= 10
        &&& self.ats@.len() <= 254
    }
}

/// Fields of a Data Exchange Protocol peer.
pub struct DepInfo {
    /// Identifier of the peer, exactly 10 bytes.
    pub nfcid3: Vec<u8>,
    /// Device identifier byte.
    pub did: u8,
    /// Supported send-bit rates.
    pub bs: u8,
    /// Supported receive-bit rates.
    pub br: u8,
    /// Timeout byte.
    pub to: u8,
    /// Protocol parameters byte.
    pub pp: u8,
    /// General bytes, at most 48.
    pub gb: Vec<u8>,
    /// Active or passive communication mode.
    pub dep_mode: DepMode,
}

impl DepInfo {
    /// The validated shape: field lengths fit the native arrays.
    pub open spec fn wf(self) -> bool {
        &&& self.nfcid3@.len() == 10
        &&& self.gb@.len() <= 48
    }
}

/// Protocol-specific fields of a target, one variant per supported shape.
pub enum TargetInfo {
    /// An ISO/IEC 14443 type A tag.
    Iso14443a(Iso14443aInfo),
    /// A Data Exchange Protocol peer.
    Dep(DepInfo),
}

impl TargetInfo {
    /// The validated shape of whichever variant is present.
    pub open spec fn wf(self) -> bool {
        match self {
            TargetInfo::Iso14443a(info) => info.wf(),
            TargetInfo::Dep(info) => info.wf(),
        }
    }

    /// The modulation type this shape belongs to.
    pub open spec fn spec_modulation_type(self) -> ModulationType {
        match self {
            TargetInfo::Iso14443a(_) => ModulationType::Iso14443a,
            TargetInfo::Dep(_) => ModulationType::Dep,
        }
    }
}

/// A discovered or selected remote tag or peer: its protocol-specific
/// fields and the baud rate it was reached at.
pub struct Target {
    /// Protocol-specific fields; the variant fixes the modulation type.
    pub info: TargetInfo,
    /// Communication speed the target was reached at.
    pub baud_rate: BaudRate,
}

impl Target {
    /// The validated shape of the record.
    pub open spec fn wf(self) -> bool {
        self.info.wf()
    }

    /// The modulation this target was reached with.
    pub open spec fn spec_modulation(self) -> Modulation {
        Modulation {
            modulation_type: self.info.spec_modulation_type(),
            baud_rate: self.baud_rate,
        }
    }

    /// The modulation this target was reached with.
    pub fn modulation(&self) -> (r: Modulation)
        ensures
            r == self.spec_modulation(),
    {
        let modulation_type = match &self.info {
            TargetInfo::Iso14443a(_) => ModulationType::Iso14443a,
            TargetInfo::Dep(_) => ModulationType::Dep,
        };
        Modulation { modulation_type, baud_rate: self.baud_rate }
    }

    /// A blank ISO/IEC 14443 type A record: all fields zero or empty. Used
    /// as the template a native call fills in.
    pub fn new_iso14443a() -> (r: Target)
        ensures
            r.wf(),
            r.baud_rate == BaudRate::Undefined,
            r.info matches TargetInfo::Iso14443a(info) && info.atqa@ == seq![0u8, 0u8]
                && info.sak == 0 && info.uid@ == Seq::<u8>::empty() && info.ats@ == Seq::<
            u8,
            >::empty(),
    {
        Target {
            info: TargetInfo::Iso14443a(
                Iso14443aInfo { atqa: [0, 0], sak: 0, uid: Vec::new(), ats: Vec::new() },
            ),
            baud_rate: BaudRate::Undefined,
        }
    }

    /// A blank DEP record: all fields zero or empty, mode undefined. Used as
    /// the template a native call fills in.
    pub fn new_dep() -> (r: Target)
        ensures
            r.wf(),
            r.baud_rate == BaudRate::Undefined,
            r.info matches TargetInfo::Dep(info) && info.nfcid3@ == Seq::new(10, |i: int| 0u8)
                && info.did == 0 && info.bs == 0 && info.br == 0 && info.to == 0 && info.pp == 0
                && info.gb@ == Seq::<u8>::empty() && info.dep_mode == DepMode::Undefined,
    {
        let mut nfcid3: Vec<u8> = Vec::new();
        let mut i: usize = 0;
        while i < 10
            invariant
                i <= 10,
                nfcid3@.len() == i,
                forall|j: int| 0 <= j < i ==> nfcid3@[j] == 0u8,
            decreases 10 - i,
        {
            nfcid3.push(0);
            i += 1;
        }
        proof {
            assert(nfcid3@ =~= Seq::new(10, |i: int| 0u8));
        }
        Target {
            info: TargetInfo::Dep(
                DepInfo {
                    nfcid3,
                    did: 0,
                    bs: 0,
                    br: 0,
                    to: 0,
                    pp: 0,
                    gb: Vec::new(),
                    dep_mode: DepMode::Undefined,
                },
            ),
            baud_rate: BaudRate::Undefined,
        }
    }
}

/// Whether a raw ISO/IEC 14443 type A record is well formed: its baud-rate
/// constant is recognized and its length fields fit both the bytes handed
/// over and the native arrays' capacities.
pub open spec fn iso14443a_raw_ok(
    br_raw: u32,
    uid_buf: Seq<u8>,
    uid_len: usize,
    ats_buf: Seq<u8>,
    ats_len: usize,
) -> bool {
    &&& baud_rate_of_native(br_raw) is Some
    &&& uid_len <= uid_buf.len()
    &&& uid_len <= 10
    &&& ats_len <= ats_buf.len()
    &&& ats_len <= 254
}

/// Build a checked ISO/IEC 14443 type A target from the raw native record:
/// the baud-rate constant, the answer-to-request pair, the select
/// acknowledge, and the identifier and answer-to-select arrays with their
/// length fields. Succeeds exactly when the record is well formed; a
/// malformed record is rejected as [`Error::InvalidTarget`].
pub fn iso14443a_target_from_raw(
    br_raw: u32,
    atqa: [u8; 2],
    sak: u8,
    uid_buf: &[u8],
    uid_len: usize,
    ats_buf: &[u8],
    ats_len: usize,
) -> (r: Result<Target, Error>)
    ensures
        r is Ok <==> iso14443a_raw_ok(br_raw, uid_buf@, uid_len, ats_buf@, ats_len),
        r matches Ok(t) ==> {
            &&& t.wf()
            &&& Some(t.baud_rate) == baud_rate_of_native(br_raw)
            &&& t.info matches TargetInfo::Iso14443a(info) && info.atqa@ == atqa@ && info.sak == sak
                && info.uid@ == uid_buf@.take(uid_len as int) && info.ats@ == ats_buf@.take(
                ats_len as int,
            )
        },
        r is Err ==> r == Err::<Target, Error>(Error::InvalidTarget),
{
    let baud_rate = match BaudRate::from_native(br_raw) {
        Ok(b) => b,
        Err(e) => {
            return Err(e);
        },
    };
    if uid_len > uid_buf.len() || uid_len > ISO14443A_UID_MAX_LEN {
        return Err(Error::InvalidTarget);
    }
    if ats_len > ats_buf.len() || ats_len > ISO14443A_ATS_MAX_LEN {
        return Err(Error::InvalidTarget);
    }
    let mut uid: Vec<u8> = Vec::new();
    let mut i: usize = 0;
    while i < uid_len
        invariant
            i <= uid_len,
            uid_len <= uid_buf@.len(),
            uid@.len() == i,
            forall|j: int| 0 <= j < i ==> uid@[j] == uid_buf@[j],
        decreases uid_len - i,
    {
        uid.push(uid_buf[i]);
        i += 1;
    }
    let mut ats: Vec<u8> = Vec::new();
    let mut k: usize = 0;
    while k < ats_len
        invariant
            k <= ats_len,
            ats_len <= ats_buf@.len(),
            ats@.len() == k,
            forall|j: int| 0 <= j < k ==> ats@[j] == ats_buf@[j],
        decreases ats_len - k,
    {
        ats.push(ats_buf[k]);
        k += 1;
    }
    proof {
        assert(uid@ =~= uid_buf@.take(uid_len as int));
        assert(ats@ =~= ats_buf@.take(ats_len as int));
    }
    Ok(
        Target {
            info: TargetInfo::Iso14443a(Iso14443aInfo { atqa, sak, uid, ats }),
            baud_rate,
        },
    )
}

/// Whether a raw DEP record is well formed: its baud-rate and mode
/// constants are recognized and its general-bytes length fits both the
/// bytes handed over and the native array's capacity.
pub open spec fn dep_raw_ok(br_raw: u32, ndm_raw: u32, gb_buf: Seq<u8>, gb_len: usize) -> bool {
    &&& baud_rate_of_native(br_raw) is Some
    &&& dep_mode_of_native(ndm_raw) is Some
    &&& gb_len <= gb_buf.len()
    &&& gb_len <= 48
}

/// Build a checked DEP target from the raw native record: the baud-rate and
/// mode constants, the 10-byte identifier, the parameter bytes, and the
/// general-bytes array with its length field. Succeeds exactly when the
/// record is well formed; a malformed record is rejected as
/// [`Error::InvalidTarget`].
pub fn dep_target_from_raw(
    br_raw: u32,
    ndm_raw: u32,
    nfcid3: &[u8],
    did: u8,
    bs: u8,
    br: u8,
    to: u8,
    pp: u8,
    gb_buf: &[u8],
    gb_len: usize,
) -> (r: Result<Target, Error>)
    requires
        nfcid3@.len() == 10,
    ensures
        r is Ok <==> dep_raw_ok(br_raw, ndm_raw, gb_buf@, gb_len),
        r matches Ok(t) ==> {
            &&& t.wf()
            &&& Some(t.baud_rate) == baud_rate_of_native(br_raw)
            &&& t.info matches TargetInfo::Dep(info) && info.nfcid3@ == nfcid3@ && info.did == did
                && info.bs == bs && info.br == br && info.to == to && info.pp == pp && info.gb@
                == gb_buf@.take(gb_len as int) && Some(info.dep_mode) == dep_mode_of_native(ndm_raw)
        },
        r is Err ==> r == Err::<Target, Error>(Error::InvalidTarget),
{
    let baud_rate = match BaudRate::from_native(br_raw) {
        Ok(b) => b,
        Err(e) => {
            return Err(e);
        },
    };
    let dep_mode = match DepMode::from_native(ndm_raw) {
        Ok(m) => m,
        Err(e) => {
            return Err(e);
        },
    };
    if gb_len > gb_buf.len() || gb_len > DEP_GB_MAX_LEN {
        return Err(Error::InvalidTarget);
    }
    let mut id: Vec<u8> = Vec::new();
    let mut i: usize = 0;
    while i < DEP_NFCID3_LEN
        invariant
            i <= 10,
            nfcid3@.len() == 10,
            id@.len() == i,
            forall|j: int| 0 <= j < i ==> id@[j] == nfcid3@[j],
        decreases 10 - i,
    {
        id.push(nfcid3[i]);
        i += 1;
    }
    let mut gb: Vec<u8> = Vec::new();
    let mut k: usize = 0;
    while k < gb_len
        invariant
            k <= gb_len,
            gb_len <= gb_buf@.len(),
            gb@.len() == k,
            forall|j: int| 0 <= j < k ==> gb@[j] == gb_buf@[j],
        decreases gb_len - k,
    {
        gb.push(gb_buf[k]);
        k += 1;
    }
    proof {
        assert(id@ =~= nfcid3@);
        assert(gb@ =~= gb_buf@.take(gb_len as int));
    }
    Ok(
        Target {
            info: TargetInfo::Dep(DepInfo { nfcid3: id, did, bs, br, to, pp, gb, dep_mode }),
            baud_rate,
        },
    )
}

} // verus!
