//! Decoding of the native sentinel-terminated capability lists.
//!
//! The native library reports the modulations and baud rates a device
//! supports as arrays of integer constants terminated by a zero sentinel.
//! Decoding reads entries strictly up to the first sentinel — never past it
//! — and translates each one, surfacing a conversion error on any value the
//! closed enumerations do not recognize rather than skipping it silently.

use vstd::prelude::*;

use crate::enums::BaudRate;
use crate::enums::ModulationType;
use crate::enums::baud_rate_of_native;
use crate::enums::modulation_type_of_native;
use crate::error::Error;

verus! {

/// Index of the first zero sentinel, or the length if there is none: where
/// the native list ends.
pub open spec fn sentinel_index(raw: Seq<u32>) -> int
    decreases raw.len(),
{
    if raw.len() == 0 {
        0
    } else if raw[0] == 0 {
        0
    } else {
        1 + sentinel_index(raw.drop_first())
    }
}

/// The entries of a native list: everything before the first zero sentinel.
pub open spec fn list_entries(raw: Seq<u32>) -> Seq<u32> {
    raw.take(sentinel_index(raw))
}

/// `sentinel_index` is what its name says: it is in bounds, every entry
/// before it is nonzero, and the entry at it (when it is not the end) is the
/// zero sentinel. In particular, a list whose first entry is the sentinel
/// has no entries at all.
pub proof fn lemma_sentinel_index_char(raw: Seq<u32>)
    ensures
        0 <= sentinel_index(raw) <= raw.len(),
        forall|j: int| 0 <= j < sentinel_index(raw) ==> raw[j] != 0,
        sentinel_index(raw) < raw.len() ==> raw[sentinel_index(raw)] == 0,
    decreases raw.len(),
{
    if raw.len() == 0 {
    } else if raw[0] == 0 {
    } else {
        let t = raw.drop_first();
        lemma_sentinel_index_char(t);
        assert forall|j: int| 0 <= j < sentinel_index(raw) implies raw[j] != 0 by {
            if j > 0 {
                assert(t[j - 1] == raw[j]);
            }
        }
        if sentinel_index(raw) < raw.len() {
            assert(t[sentinel_index(t)] == raw[sentinel_index(raw)]);
        }
    }
}

/// Whether every entry before the sentinel is a recognized modulation type.
pub open spec fn all_modulations_recognized(raw: Seq<u32>) -> bool {
    forall|j: int|
        0 <= j < list_entries(raw).len() ==> modulation_type_of_native(list_entries(raw)[j]) is Some
}

/// Decode a sentinel-terminated list of native modulation-type constants:
/// the entries strictly before the first zero sentinel, each translated
/// through the closed enumeration. Succeeds exactly when every entry before
/// the sentinel is recognized; an unrecognized entry is surfaced as a
/// conversion error, never skipped. Entries at or past the sentinel are
/// never read.
pub fn decode_supported_modulations(raw: &Vec<u32>) -> (r: Result<Vec<ModulationType>, Error>)
    ensures
        r is Ok <==> all_modulations_recognized(raw@),
        r matches Ok(v) ==> {
            &&& v@.len() == list_entries(raw@).len()
            &&& forall|j: int|
                0 <= j < v@.len() ==> Some(v@[j]) == modulation_type_of_native(list_entries(raw@)[j])
        },
        r is Err ==> r == Err::<Vec<ModulationType>, Error>(Error::InvalidTarget),
{
    proof {
        lemma_sentinel_index_char(raw@);
    }
    let ghost stop = sentinel_index(raw@);
    let mut out: Vec<ModulationType> = Vec::new();
    let mut i: usize = 0;
    while i < raw.len()
        invariant
            i <= raw@.len(),
            i <= stop,
            stop == sentinel_index(raw@),
            0 <= stop <= raw@.len(),
            forall|j: int| 0 <= j < stop ==> raw@[j] != 0,
            stop < raw@.len() ==> raw@[stop as int] == 0,
            out@.len() == i,
            forall|j: int| 0 <= j < i ==> Some(out@[j]) == modulation_type_of_native(raw@[j]),
        decreases raw@.len() - i,
    {
        let v = raw[i];
        if v == 0 {
            proof {
                assert(stop <= i);
                assert(list_entries(raw@) =~= raw@.take(i as int));
            }
            return Ok(out);
        }
        match ModulationType::from_native(v) {
            Ok(m) => {
                out.push(m);
            },
            Err(e) => {
                proof {
                    assert(list_entries(raw@)[i as int] == raw@[i as int]);
                    assert(!all_modulations_recognized(raw@));
                }
                return Err(e);
            },
        }
        i += 1;
    }
    proof {
        assert(stop == raw@.len());
        assert(list_entries(raw@) =~= raw@);
    }
    Ok(out)
}

/// Whether every entry before the sentinel is a recognized baud rate.
pub open spec fn all_baud_rates_recognized(raw: Seq<u32>) -> bool {
    forall|j: int|
        0 <= j < list_entries(raw).len() ==> baud_rate_of_native(list_entries(raw)[j]) is Some
}

/// Decode a sentinel-terminated list of native baud-rate constants, exactly
/// as [`decode_supported_modulations`] decodes modulation types: entries
/// strictly before the first zero sentinel, each translated, with an
/// unrecognized entry surfaced as a conversion error.
pub fn decode_supported_baud_rates(raw: &Vec<u32>) -> (r: Result<Vec<BaudRate>, Error>)
    ensures
        r is Ok <==> all_baud_rates_recognized(raw@),
        r matches Ok(v) ==> {
            &&& v@.len() == list_entries(raw@).len()
            &&& forall|j: int|
                0 <= j < v@.len() ==> Some(v@[j]) == baud_rate_of_native(list_entries(raw@)[j])
        },
        r is Err ==> r == Err::<Vec<BaudRate>, Error>(Error::InvalidTarget),
{
    proof {
        lemma_sentinel_index_char(raw@);
    }
    let ghost stop = sentinel_index(raw@);
    let mut out: Vec<BaudRate> = Vec::new();
    let mut i: usize = 0;
    while i < raw.len()
        invariant
            i <= raw@.len(),
            i <= stop,
            stop == sentinel_index(raw@),
            0 <= stop <= raw@.len(),
            forall|j: int| 0 <= j < stop ==> raw@[j] != 0,
            stop < raw@.len() ==> raw@[stop as int] == 0,
            out@.len() == i,
            forall|j: int| 0 <= j < i ==> Some(out@[j]) == baud_rate_of_native(raw@[j]),
        decreases raw@.len() - i,
    {
        let v = raw[i];
        if v == 0 {
            proof {
                assert(stop <= i);
                assert(list_entries(raw@) =~= raw@.take(i as int));
            }
            return Ok(out);
        }
        match BaudRate::from_native(v) {
            Ok(b) => {
                out.push(b);
            },
            Err(e) => {
                proof {
                    assert(list_entries(raw@)[i as int] == raw@[i as int]);
                    assert(!all_baud_rates_recognized(raw@));
                }
                return Err(e);
            },
        }
        i += 1;
    }
    proof {
        assert(stop == raw@.len());
        assert(list_entries(raw@) =~= raw@);
    }
    Ok(out)
}

/// A list whose first entry is already the zero sentinel decodes to the
/// empty sequence: enumeration stops at the sentinel immediately.
pub proof fn lemma_sentinel_first_empty(raw: Seq<u32>)
    requires
        raw.len() > 0,
        raw[0] == 0,
    ensures
        list_entries(raw) == Seq::<u32>::empty(),
{
    assert(list_entries(raw) =~= Seq::<u32>::empty());
}

/// Decoding never looks past the sentinel: two native lists that agree on
/// the entries before their first sentinel decode to the same entries,
/// whatever lies beyond.
pub proof fn lemma_entries_ignore_tail(a: Seq<u32>, b: Seq<u32>)
    requires
        list_entries(a) == list_entries(b),
    ensures
        all_modulations_recognized(a) == all_modulations_recognized(b),
        all_baud_rates_recognized(a) == all_baud_rates_recognized(b),
{
}

} // verus!
