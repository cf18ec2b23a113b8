//! Connection-string buffers, poll-period discretization and the
//! sentinel-terminated capability lists.

use nfc1::connstring::make_connstring_buffer;
use nfc1::enums::{BaudRate, ModulationType};
use nfc1::error::Error;
use nfc1::poll::poll_period_units;
use nfc1::supported::{decode_supported_baud_rates, decode_supported_modulations};

fn read_back(buf: &[u8]) -> Vec<u8> {
    buf.iter().take_while(|b| **b != 0).copied().collect()
}

#[test]
fn connstring_short_is_preserved_and_padded() {
    let s = b"pn532_uart:/dev/ttyUSB0";
    let buf = make_connstring_buffer(s);
    assert_eq!(buf.len(), 1024);
    assert_eq!(&buf[..s.len()], s);
    assert!(buf[s.len()..].iter().all(|b| *b == 0));
    assert_eq!(read_back(&buf), s.to_vec());
}

#[test]
fn connstring_empty_gives_all_zero_buffer() {
    let buf = make_connstring_buffer(b"");
    assert_eq!(buf.len(), 1024);
    assert!(buf.iter().all(|b| *b == 0));
    assert_eq!(read_back(&buf), Vec::<u8>::new());
}

#[test]
fn connstring_of_1023_bytes_fits_exactly() {
    let s = vec![b'x'; 1023];
    let buf = make_connstring_buffer(&s);
    assert_eq!(buf.len(), 1024);
    assert_eq!(&buf[..1023], &s[..]);
    assert_eq!(buf[1023], 0);
    assert_eq!(read_back(&buf), s);
}

#[test]
fn connstring_at_and_past_1024_truncates_to_1023_plus_terminator() {
    for len in [1024usize, 1025, 4096] {
        let s: Vec<u8> = (0..len).map(|i| (i % 255) as u8 + 1).collect();
        let buf = make_connstring_buffer(&s);
        assert_eq!(buf.len(), 1024);
        assert_eq!(&buf[..1023], &s[..1023]);
        assert_eq!(buf[1023], 0);
        assert_eq!(read_back(&buf), s[..1023].to_vec());
    }
}

#[test]
fn poll_period_zero_maps_to_unit_zero() {
    assert_eq!(poll_period_units(0), 0);
    assert_eq!(poll_period_units(149), 0);
}

#[test]
fn poll_period_rounds_down_to_150_ms_units() {
    assert_eq!(poll_period_units(150), 1);
    assert_eq!(poll_period_units(299), 1);
    assert_eq!(poll_period_units(300), 2);
    assert_eq!(poll_period_units(38249), 254);
}

#[test]
fn poll_period_saturates_at_255_units() {
    assert_eq!(poll_period_units(38250), 255);
    assert_eq!(poll_period_units(38400), 255);
    assert_eq!(poll_period_units(u64::MAX), 255);
}

#[test]
fn supported_modulations_stop_at_the_sentinel() {
    let raw = vec![1, 7, 0, 99, 0];
    let decoded = decode_supported_modulations(&raw).unwrap();
    assert_eq!(
        decoded,
        vec![ModulationType::Iso14443a, ModulationType::Felica]
    );
}

#[test]
fn supported_modulations_empty_when_first_entry_is_sentinel() {
    assert_eq!(decode_supported_modulations(&vec![0]).unwrap(), vec![]);
    assert_eq!(
        decode_supported_modulations(&vec![0, 1, 2]).unwrap(),
        vec![]
    );
    assert_eq!(decode_supported_modulations(&vec![]).unwrap(), vec![]);
}

#[test]
fn supported_modulations_reject_unrecognized_entries() {
    assert_eq!(
        decode_supported_modulations(&vec![1, 42, 0]),
        Err(Error::InvalidTarget)
    );
}

#[test]
fn supported_modulations_without_sentinel_decode_whole_list() {
    let raw = vec![8, 9, 10];
    let decoded = decode_supported_modulations(&raw).unwrap();
    assert_eq!(
        decoded,
        vec![
            ModulationType::Dep,
            ModulationType::Barcode,
            ModulationType::Iso14443biclass
        ]
    );
}

#[test]
fn supported_baud_rates_stop_at_the_sentinel() {
    let raw = vec![1, 2, 3, 4, 0, 1];
    let decoded = decode_supported_baud_rates(&raw).unwrap();
    assert_eq!(
        decoded,
        vec![
            BaudRate::Baud106,
            BaudRate::Baud212,
            BaudRate::Baud424,
            BaudRate::Baud847
        ]
    );
}

#[test]
fn supported_baud_rates_reject_unrecognized_entries() {
    assert_eq!(
        decode_supported_baud_rates(&vec![5, 0]),
        Err(Error::InvalidTarget)
    );
    assert_eq!(decode_supported_baud_rates(&vec![0]).unwrap(), vec![]);
}
