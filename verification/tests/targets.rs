//! Enumeration round trips and target-record validation.

use nfc1::enums::{BaudRate, DepMode, Mode, ModulationType, Property, Timeout};
use nfc1::error::Error;
use nfc1::target::{
    dep_target_from_raw, iso14443a_target_from_raw, Target, TargetInfo,
};

#[test]
fn mode_and_property_encode_to_their_native_constants() {
    assert_eq!(Mode::Target.to_native(), 0);
    assert_eq!(Mode::Initiator.to_native(), 1);
    assert_eq!(Property::TimeoutCommand.to_native(), 0);
    assert_eq!(Property::HandleCrc.to_native(), 3);
    assert_eq!(Property::EasyFraming.to_native(), 11);
    assert_eq!(Property::ForceSpeed106.to_native(), 14);
}

#[test]
fn timeout_encodes_as_the_native_tri_state() {
    assert_eq!(Timeout::Default.to_native(), -1);
    assert_eq!(Timeout::Forever.to_native(), 0);
    assert_eq!(Timeout::Milliseconds(5000).to_native(), 5000);
}

#[test]
fn timeout_clamped_encoding_stays_in_the_fixed_duration_range() {
    assert_eq!(Timeout::Default.to_native_clamped(), -1);
    assert_eq!(Timeout::Forever.to_native_clamped(), 0);
    assert_eq!(Timeout::Milliseconds(5000).to_native_clamped(), 5000);
    // Zero would be the native spelling of an infinite wait.
    assert_eq!(Timeout::Milliseconds(0).to_native_clamped(), 1);
    assert_eq!(Timeout::Milliseconds(u32::MAX).to_native_clamped(), i32::MAX);
}

#[test]
fn modulation_types_round_trip_through_native_constants() {
    let all = [
        ModulationType::Iso14443a,
        ModulationType::Jewel,
        ModulationType::Iso14443b,
        ModulationType::Iso14443bi,
        ModulationType::Iso14443b2sr,
        ModulationType::Iso14443b2ct,
        ModulationType::Felica,
        ModulationType::Dep,
        ModulationType::Barcode,
        ModulationType::Iso14443biclass,
    ];
    for (i, mt) in all.into_iter().enumerate() {
        let native = mt.to_native();
        assert_eq!(native, i as u32 + 1);
        assert_eq!(ModulationType::from_native(native), Ok(mt));
    }
    assert_eq!(ModulationType::from_native(0), Err(Error::InvalidTarget));
    assert_eq!(ModulationType::from_native(11), Err(Error::InvalidTarget));
}

#[test]
fn baud_rates_round_trip_through_native_constants() {
    let all = [
        BaudRate::Undefined,
        BaudRate::Baud106,
        BaudRate::Baud212,
        BaudRate::Baud424,
        BaudRate::Baud847,
    ];
    for (i, br) in all.into_iter().enumerate() {
        let native = br.to_native();
        assert_eq!(native, i as u32);
        assert_eq!(BaudRate::from_native(native), Ok(br));
    }
    assert_eq!(BaudRate::from_native(5), Err(Error::InvalidTarget));
}

#[test]
fn dep_modes_round_trip_through_native_constants() {
    for (i, dm) in [DepMode::Undefined, DepMode::Passive, DepMode::Active]
        .into_iter()
        .enumerate()
    {
        let native = dm.to_native();
        assert_eq!(native, i as u32);
        assert_eq!(DepMode::from_native(native), Ok(dm));
    }
    assert_eq!(DepMode::from_native(3), Err(Error::InvalidTarget));
}

#[test]
fn iso14443a_record_converts_with_lengths_honored() {
    let uid_buf = [0xDE, 0xAD, 0xBE, 0xEF, 0, 0, 0, 0, 0, 0];
    let ats_buf = [0x75u8; 254];
    let target = iso14443a_target_from_raw(1, [0x00, 0x04], 0x08, &uid_buf, 4, &ats_buf, 2).unwrap();
    assert_eq!(target.baud_rate, BaudRate::Baud106);
    assert_eq!(
        target.modulation().modulation_type,
        ModulationType::Iso14443a
    );
    match target.info {
        TargetInfo::Iso14443a(info) => {
            assert_eq!(info.atqa, [0x00, 0x04]);
            assert_eq!(info.sak, 0x08);
            assert_eq!(info.uid, vec![0xDE, 0xAD, 0xBE, 0xEF]);
            assert_eq!(info.ats, vec![0x75, 0x75]);
        }
        TargetInfo::Dep(_) => panic!("wrong variant"),
    }
}

#[test]
fn iso14443a_record_rejects_malformed_shapes() {
    let uid_buf = [0u8; 10];
    let ats_buf = [0u8; 254];
    // Unrecognized baud-rate constant.
    assert!(matches!(
        iso14443a_target_from_raw(9, [0, 0], 0, &uid_buf, 4, &ats_buf, 0),
        Err(Error::InvalidTarget)
    ));
    // Identifier length field larger than the native array.
    assert!(matches!(
        iso14443a_target_from_raw(1, [0, 0], 0, &uid_buf, 11, &ats_buf, 0),
        Err(Error::InvalidTarget)
    ));
    // Answer-to-select length field larger than the bytes handed over.
    assert!(matches!(
        iso14443a_target_from_raw(1, [0, 0], 0, &uid_buf, 4, &ats_buf[..10], 11),
        Err(Error::InvalidTarget)
    ));
}

#[test]
fn dep_record_converts_with_lengths_honored() {
    let nfcid3 = [1, 2, 3, 4, 5, 6, 7, 8, 9, 10];
    let gb_buf = [0xAAu8; 48];
    let target =
        dep_target_from_raw(3, 2, &nfcid3, 7, 1, 2, 3, 4, &gb_buf, 3).unwrap();
    assert_eq!(target.baud_rate, BaudRate::Baud424);
    assert_eq!(target.modulation().modulation_type, ModulationType::Dep);
    match target.info {
        TargetInfo::Dep(info) => {
            assert_eq!(info.nfcid3, nfcid3.to_vec());
            assert_eq!(info.did, 7);
            assert_eq!(info.bs, 1);
            assert_eq!(info.br, 2);
            assert_eq!(info.to, 3);
            assert_eq!(info.pp, 4);
            assert_eq!(info.gb, vec![0xAA, 0xAA, 0xAA]);
            assert_eq!(info.dep_mode, DepMode::Active);
        }
        TargetInfo::Iso14443a(_) => panic!("wrong variant"),
    }
}

#[test]
fn dep_record_rejects_malformed_shapes() {
    let nfcid3 = [0u8; 10];
    let gb_buf = [0u8; 48];
    // Unrecognized DEP-mode constant.
    assert!(matches!(
        dep_target_from_raw(1, 3, &nfcid3, 0, 0, 0, 0, 0, &gb_buf, 0),
        Err(Error::InvalidTarget)
    ));
    // General-bytes length field larger than the native array.
    assert!(matches!(
        dep_target_from_raw(1, 1, &nfcid3, 0, 0, 0, 0, 0, &gb_buf, 49),
        Err(Error::InvalidTarget)
    ));
}

#[test]
fn blank_templates_are_zeroed() {
    let a = Target::new_iso14443a();
    assert_eq!(a.baud_rate, BaudRate::Undefined);
    match a.info {
        TargetInfo::Iso14443a(info) => {
            assert_eq!(info.atqa, [0, 0]);
            assert_eq!(info.sak, 0);
            assert!(info.uid.is_empty());
            assert!(info.ats.is_empty());
        }
        TargetInfo::Dep(_) => panic!("wrong variant"),
    }
    let d = Target::new_dep();
    assert_eq!(d.baud_rate, BaudRate::Undefined);
    match d.info {
        TargetInfo::Dep(info) => {
            assert_eq!(info.nfcid3, vec![0u8; 10]);
            assert_eq!(info.gb, Vec::<u8>::new());
            assert_eq!(info.dep_mode, DepMode::Undefined);
        }
        TargetInfo::Iso14443a(_) => panic!("wrong variant"),
    }
}
