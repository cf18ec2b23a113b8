//! Closed enumerations mirroring the native library's integer constants.
//!
//! Each enumeration maps one-to-one to the native constants: the encoding
//! direction (enum to native integer) is total, the decoding direction is
//! partial and rejects unrecognized values explicitly instead of defaulting.

use vstd::prelude::*;

use crate::error::Error;

verus! {

/// Role a device plays on the radio link: emulated tag or reader.
#[derive(Clone, Copy, Debug, PartialEq, Eq, Structural)]
pub enum Mode {
    /// The device emulates a tag and answers a remote initiator (native 0).
    Target,
    /// The device acts as the reader that initiates communication (native 1).
    Initiator,
}

impl Mode {
    /// The native constant for this mode.
    pub open spec fn spec_native(self) -> u32 {
        match self {
            Mode::Target => 0,
            Mode::Initiator => 1,
        }
    }

    /// Encode this mode as its native constant. Total.
    pub fn to_native(self) -> (r: u32)
        ensures
            r == self.spec_native(),
    {
        match self {
            Mode::Target => 0,
            Mode::Initiator => 1,
        }
    }
}

/// Active/passive mode of a peer-to-peer (DEP) link.
#[derive(Clone, Copy, Debug, PartialEq, Eq, Structural)]
pub enum DepMode {
    /// Mode not (yet) determined (native 0).
    Undefined,
    /// Passive communication mode (native 1).
    Passive,
    /// Active communication mode (native 2).
    Active,
}

/// The DEP mode a native constant decodes to, if it is recognized.
pub open spec fn dep_mode_of_native(v: u32) -> Option<DepMode> {
    if v == 0 {
        Some(DepMode::Undefined)
    } else if v == 1 {
        Some(DepMode::Passive)
    } else if v == 2 {
        Some(DepMode::Active)
    } else {
        None
    }
}

impl DepMode {
    /// The native constant for this DEP mode.
    pub open spec fn spec_native(self) -> u32 {
        match self {
            DepMode::Undefined => 0,
            DepMode::Passive => 1,
            DepMode::Active => 2,
        }
    }

    /// Encode this DEP mode as its native constant. Total.
    pub fn to_native(self) -> (r: u32)
        ensures
            r == self.spec_native(),
    {
        match self {
            DepMode::Undefined => 0,
            DepMode::Passive => 1,
            DepMode::Active => 2,
        }
    }

    /// Decode a native constant; unrecognized values are rejected as a
    /// malformed target record, never mapped to a default.
    pub fn from_native(v: u32) -> (r: Result<DepMode, Error>)
        ensures
            dep_mode_of_native(v) matches Some(m) ==> r == Ok::<DepMode, Error>(m),
            dep_mode_of_native(v) is None ==> r == Err::<DepMode, Error>(Error::InvalidTarget),
    {
        match v {
            0 => Ok(DepMode::Undefined),
            1 => Ok(DepMode::Passive),
            2 => Ok(DepMode::Active),
            _ => Err(Error::InvalidTarget),
        }
    }
}

/// Communication speed for a given modulation.
#[derive(Clone, Copy, Debug, PartialEq, Eq, Structural)]
pub enum BaudRate {
    /// Speed not (yet) determined (native 0).
    Undefined,
    /// 106 kbit/s (native 1).
    Baud106,
    /// 212 kbit/s (native 2).
    Baud212,
    /// 424 kbit/s (native 3).
    Baud424,
    /// 847 kbit/s (native 4).
    Baud847,
}

/// The baud rate a native constant decodes to, if it is recognized.
pub open spec fn baud_rate_of_native(v: u32) -> Option<BaudRate> {
    if v == 0 {
        Some(BaudRate::Undefined)
    } else if v == 1 {
        Some(BaudRate::Baud106)
    } else if v == 2 {
        Some(BaudRate::Baud212)
    } else if v == 3 {
        Some(BaudRate::Baud424)
    } else if v == 4 {
        Some(BaudRate::Baud847)
    } else {
        None
    }
}

impl BaudRate {
    /// The native constant for this baud rate.
    pub open spec fn spec_native(self) -> u32 {
        match self {
            BaudRate::Undefined => 0,
            BaudRate::Baud106 => 1,
            BaudRate::Baud212 => 2,
            BaudRate::Baud424 => 3,
            BaudRate::Baud847 => 4,
        }
    }

    /// Encode this baud rate as its native constant. Total.
    pub fn to_native(self) -> (r: u32)
        ensures
            r == self.spec_native(),
    {
        match self {
            BaudRate::Undefined => 0,
            BaudRate::Baud106 => 1,
            BaudRate::Baud212 => 2,
            BaudRate::Baud424 => 3,
            BaudRate::Baud847 => 4,
        }
    }

    /// Decode a native constant; unrecognized values are rejected
    /// explicitly, never mapped to a default.
    pub fn from_native(v: u32) -> (r: Result<BaudRate, Error>)
        ensures
            baud_rate_of_native(v) matches Some(b) ==> r == Ok::<BaudRate, Error>(b),
            baud_rate_of_native(v) is None ==> r == Err::<BaudRate, Error>(Error::InvalidTarget),
    {
        match v {
            0 => Ok(BaudRate::Undefined),
            1 => Ok(BaudRate::Baud106),
            2 => Ok(BaudRate::Baud212),
            3 => Ok(BaudRate::Baud424),
            4 => Ok(BaudRate::Baud847),
            _ => Err(Error::InvalidTarget),
        }
    }
}

/// Physical-layer encoding scheme used to talk to a tag or peer.
#[derive(Clone, Copy, Debug, PartialEq, Eq, Structural)]
pub enum ModulationType {
    /// ISO/IEC 14443 type A (native 1).
    Iso14443a,
    /// Innovision Jewel/Topaz (native 2).
    Jewel,
    /// ISO/IEC 14443 type B (native 3).
    Iso14443b,
    /// Pre-ISO/IEC 14443 type B, also called B' (native 4).
    Iso14443bi,
    /// ISO/IEC 14443-2 type B, ST SRx (native 5).
    Iso14443b2sr,
    /// ISO/IEC 14443-2 type B, ASK CTx (native 6).
    Iso14443b2ct,
    /// FeliCa (native 7).
    Felica,
    /// Data Exchange Protocol, peer to peer (native 8).
    Dep,
    /// Thinfilm NFC barcode (native 9).
    Barcode,
    /// HID iClass, ISO/IEC 14443 type B mode (native 10).
    Iso14443biclass,
}

/// The modulation type a native constant decodes to, if it is recognized.
/// Zero is never a modulation type: the native library reserves it as the
/// sentinel that terminates its lists.
pub open spec fn modulation_type_of_native(v: u32) -> Option<ModulationType> {
    if v == 1 {
        Some(ModulationType::Iso14443a)
    } else if v == 2 {
        Some(ModulationType::Jewel)
    } else if v == 3 {
        Some(ModulationType::Iso14443b)
    } else if v == 4 {
        Some(ModulationType::Iso14443bi)
    } else if v == 5 {
        Some(ModulationType::Iso14443b2sr)
    } else if v == 6 {
        Some(ModulationType::Iso14443b2ct)
    } else if v == 7 {
        Some(ModulationType::Felica)
    } else if v == 8 {
        Some(ModulationType::Dep)
    } else if v == 9 {
        Some(ModulationType::Barcode)
    } else if v == 10 {
        Some(ModulationType::Iso14443biclass)
    } else {
        None
    }
}

impl ModulationType {
    /// The native constant for this modulation type.
    pub open spec fn spec_native(self) -> u32 {
        match self {
            ModulationType::Iso14443a => 1,
            ModulationType::Jewel => 2,
            ModulationType::Iso14443b => 3,
            ModulationType::Iso14443bi => 4,
            ModulationType::Iso14443b2sr => 5,
            ModulationType::Iso14443b2ct => 6,
            ModulationType::Felica => 7,
            ModulationType::Dep => 8,
            ModulationType::Barcode => 9,
            ModulationType::Iso14443biclass => 10,
        }
    }

    /// Encode this modulation type as its native constant. Total.
    pub fn to_native(self) -> (r: u32)
        ensures
            r == self.spec_native(),
    {
        match self {
            ModulationType::Iso14443a => 1,
            ModulationType::Jewel => 2,
            ModulationType::Iso14443b => 3,
            ModulationType::Iso14443bi => 4,
            ModulationType::Iso14443b2sr => 5,
            ModulationType::Iso14443b2ct => 6,
            ModulationType::Felica => 7,
            ModulationType::Dep => 8,
            ModulationType::Barcode => 9,
            ModulationType::Iso14443biclass => 10,
        }
    }

    /// Decode a native constant; unrecognized values (including the zero
    /// sentinel) are rejected explicitly, never mapped to a default.
    pub fn from_native(v: u32) -> (r: Result<ModulationType, Error>)
        ensures
            modulation_type_of_native(v) matches Some(m) ==> r == Ok::<ModulationType, Error>(m),
            modulation_type_of_native(v) is None ==> r == Err::<ModulationType, Error>(
                Error::InvalidTarget,
            ),
    {
        match v {
            1 => Ok(ModulationType::Iso14443a),
            2 => Ok(ModulationType::Jewel),
            3 => Ok(ModulationType::Iso14443b),
            4 => Ok(ModulationType::Iso14443bi),
            5 => Ok(ModulationType::Iso14443b2sr),
            6 => Ok(ModulationType::Iso14443b2ct),
            7 => Ok(ModulationType::Felica),
            8 => Ok(ModulationType::Dep),
            9 => Ok(ModulationType::Barcode),
            10 => Ok(ModulationType::Iso14443biclass),
            _ => Err(Error::InvalidTarget),
        }
    }
}

/// A modulation: an encoding scheme together with a speed.
#[derive(Clone, Copy, Debug, PartialEq, Eq, Structural)]
pub struct Modulation {
    /// The physical-layer encoding scheme.
    pub modulation_type: ModulationType,
    /// The communication speed.
    pub baud_rate: BaudRate,
}

/// A configurable device property, set by enumerated key.
#[derive(Clone, Copy, Debug, PartialEq, Eq, Structural)]
pub enum Property {
    /// Default command processing timeout, in milliseconds (native 0).
    TimeoutCommand,
    /// Timeout between attribute request and response (native 1).
    TimeoutAtr,
    /// Timeout to give up reception from the target (native 2).
    TimeoutCom,
    /// Let the chip handle the CRC bytes of each frame (native 3).
    HandleCrc,
    /// Let the chip generate and validate parity bits (native 4).
    HandleParity,
    /// Enable or disable the device's electromagnetic field (native 5).
    ActivateField,
    /// Use the chip's internal crypto co-processor (native 6).
    ActivateCrypto1,
    /// Retry target invitation indefinitely instead of giving up (native 7).
    InfiniteSelect,
    /// Accept frames that carry fewer than four bits (native 8).
    AcceptInvalidFrames,
    /// Gather multiple frames in sequence in the chip's FIFO (native 9).
    AcceptMultipleFrames,
    /// Automatically switch to ISO/IEC 14443-4 when compliant (native 10).
    AutoIso14443_4,
    /// Use automatic frame encapsulation and chaining (native 11).
    EasyFraming,
    /// Force the chip to switch to ISO/IEC 14443 type A (native 12).
    ForceIso14443a,
    /// Force the chip to switch to ISO/IEC 14443 type B (native 13).
    ForceIso14443b,
    /// Force the chip to run at 106 kbit/s (native 14).
    ForceSpeed106,
}

impl Property {
    /// The native constant for this property key.
    pub open spec fn spec_native(self) -> u32 {
        match self {
            Property::TimeoutCommand => 0,
            Property::TimeoutAtr => 1,
            Property::TimeoutCom => 2,
            Property::HandleCrc => 3,
            Property::HandleParity => 4,
            Property::ActivateField => 5,
            Property::ActivateCrypto1 => 6,
            Property::InfiniteSelect => 7,
            Property::AcceptInvalidFrames => 8,
            Property::AcceptMultipleFrames => 9,
            Property::AutoIso14443_4 => 10,
            Property::EasyFraming => 11,
            Property::ForceIso14443a => 12,
            Property::ForceIso14443b => 13,
            Property::ForceSpeed106 => 14,
        }
    }

    /// Encode this property key as its native constant. Total.
    pub fn to_native(self) -> (r: u32)
        ensures
            r == self.spec_native(),
    {
        match self {
            Property::TimeoutCommand => 0,
            Property::TimeoutAtr => 1,
            Property::TimeoutCom => 2,
            Property::HandleCrc => 3,
            Property::HandleParity => 4,
            Property::ActivateField => 5,
            Property::ActivateCrypto1 => 6,
            Property::InfiniteSelect => 7,
            Property::AcceptInvalidFrames => 8,
            Property::AcceptMultipleFrames => 9,
            Property::AutoIso14443_4 => 10,
            Property::EasyFraming => 11,
            Property::ForceIso14443a => 12,
            Property::ForceIso14443b => 13,
            Property::ForceSpeed106 => 14,
        }
    }
}

/// How long a blocking native call may wait, passed through as a tri-state.
#[derive(Clone, Copy, Debug, PartialEq, Eq, Structural)]
pub enum Timeout {
    /// Use the native layer's default timeout (native -1).
    Default,
    /// Wait indefinitely: no timeout (native 0).
    Forever,
    /// Wait for a fixed duration, in milliseconds (native value, positive).
    Milliseconds(u32),
}

impl Timeout {
    /// Whether this timeout can be passed to the native layer unchanged: a
    /// fixed duration must be positive (zero and negative values are the
    /// native spellings of the other two states) and fit the native signed
    /// integer.
    pub open spec fn wf(self) -> bool {
        self matches Timeout::Milliseconds(ms) ==> 1 <= ms <= 0x7fff_ffff
    }

    /// The native value for this timeout.
    pub open spec fn spec_native(self) -> int {
        match self {
            Timeout::Default => -1,
            Timeout::Forever => 0,
            Timeout::Milliseconds(ms) => ms as int,
        }
    }

    /// Encode this timeout as the native value: -1 for the default, 0 for an
    /// indefinite wait, the duration in milliseconds otherwise.
    pub fn to_native(self) -> (r: i32)
        requires
            self.wf(),
        ensures
            r == self.spec_native(),
    {
        match self {
            Timeout::Default => -1,
            Timeout::Forever => 0,
            Timeout::Milliseconds(ms) => ms as i32,
        }
    }

    /// Encode this timeout as the native value with no precondition: a
    /// well-formed timeout encodes as [`Timeout::to_native`] does, and a
    /// fixed duration outside the representable range is clamped to the
    /// nearest representable wait — zero milliseconds to the shortest wait
    /// (the native value 0 would mean waiting forever), and anything above
    /// the native signed maximum down to that maximum.
    pub fn to_native_clamped(self) -> (r: i32)
        ensures
            self.wf() ==> r == self.spec_native(),
            self matches Timeout::Milliseconds(ms) ==> r == (if ms == 0 {
                1int
            } else if ms > 0x7fff_ffff {
                0x7fff_ffff as int
            } else {
                ms as int
            }),
    {
        match self {
            Timeout::Default => -1,
            Timeout::Forever => 0,
            Timeout::Milliseconds(ms) => {
                if ms == 0 {
                    1
                } else if ms > 0x7fff_ffff {
                    0x7fff_ffff
                } else {
                    ms as i32
                }
            },
        }
    }
}

/// Encoding then decoding a DEP mode gives it back: the mapping into native
/// constants loses nothing.
pub proof fn lemma_dep_mode_round_trip(m: DepMode)
    ensures
        dep_mode_of_native(m.spec_native()) == Some(m),
{
}

/// Encoding then decoding a baud rate gives it back.
pub proof fn lemma_baud_rate_round_trip(b: BaudRate)
    ensures
        baud_rate_of_native(b.spec_native()) == Some(b),
{
}

/// Encoding then decoding a modulation type gives it back.
pub proof fn lemma_modulation_type_round_trip(m: ModulationType)
    ensures
        modulation_type_of_native(m.spec_native()) == Some(m),
{
}

/// Decoding then encoding a native modulation-type constant gives it back:
/// together with the round trip above, the recognized constants and the
/// enumeration are in one-to-one correspondence.
pub proof fn lemma_modulation_type_decode_encode(v: u32)
    requires
        modulation_type_of_native(v) is Some,
    ensures
        modulation_type_of_native(v)->0.spec_native() == v,
{
}

/// Decoding then encoding a native baud-rate constant gives it back.
pub proof fn lemma_baud_rate_decode_encode(v: u32)
    requires
        baud_rate_of_native(v) is Some,
    ensures
        baud_rate_of_native(v)->0.spec_native() == v,
{
}

/// Decoding then encoding a native DEP-mode constant gives it back.
pub proof fn lemma_dep_mode_decode_encode(v: u32)
    requires
        dep_mode_of_native(v) is Some,
    ensures
        dep_mode_of_native(v)->0.spec_native() == v,
{
}

} // verus!
