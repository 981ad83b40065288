use lief::pe::debug::{DebugEntry, Entries, Entry, Type};

fn entry(debug_type: u32, payload: &[u8]) -> Entry {
    Entry {
        characteristics: 0,
        timestamp: 0x5f00_0000,
        major_version: 1,
        minor_version: 2,
        debug_type,
        sizeof_data: payload.len() as u32,
        addressof_rawdata: 0x2000,
        pointerto_rawdata: 0x1000,
        payload: payload.to_vec(),
    }
}

#[test]
fn debug_kinds_round_trip() {
    for value in 0..=64u32 {
        assert_eq!(Type::from_value(value).to_value(), value);
    }
    assert_eq!(Type::from_value(u32::MAX).to_value(), u32::MAX);
    assert_eq!(Type::from_value(2), Type::CODEVIEW);
    assert_eq!(Type::from_value(13), Type::POGO);
    assert_eq!(Type::from_value(16), Type::REPRO);
    assert_eq!(Type::from_value(20), Type::EX_DLLCHARACTERISTICS);
    assert_eq!(Type::from_value(0), Type::UNKNOWN(0));
    assert_eq!(Type::from_value(17), Type::UNKNOWN(17));
    assert_eq!(Type::from_value(19), Type::UNKNOWN(19));
    assert_eq!(Type::from_value(21), Type::UNKNOWN(21));
}

#[test]
fn every_entry_has_one_flavour() {
    for value in 0..=32u32 {
        let record = entry(value, &[1, 2, 3]);
        let flavour = Entries::from_entry(&record);
        let expected = match value {
            2 => "codeview",
            13 => "pogo",
            16 => "repro",
            _ => "generic",
        };
        let found = match flavour {
            Entries::CodeView(_) => "codeview",
            Entries::Pogo(_) => "pogo",
            Entries::Repro(_) => "repro",
            Entries::Generic(_) => "generic",
        };
        assert_eq!(found, expected, "kind {}", value);
    }
}

#[test]
fn repro_entry_gives_its_hash() {
    let record = entry(16, &[0xde, 0xad, 0xbe, 0xef]);
    match Entries::from_entry(&record) {
        Entries::Repro(repro) => {
            assert!(!repro.hash().is_empty());
            assert_eq!(repro.hash(), &[0xde, 0xad, 0xbe, 0xef]);
            assert_eq!(repro.get_type(), Type::REPRO);
        }
        other => panic!("a reproducible build entry was expected, not {:?}", other),
    }
}

#[test]
fn debug_accessors_read_the_record() {
    let record = entry(0x99, &[7, 8]);
    match Entries::from_entry(&record) {
        Entries::Generic(view) => {
            assert_eq!(view.get_type(), Type::UNKNOWN(0x99));
            assert_eq!(view.get_type().to_value(), 0x99);
            assert_eq!(view.characteristics(), 0);
            assert_eq!(view.timestamp(), 0x5f00_0000);
            assert_eq!(view.major_version(), 1);
            assert_eq!(view.minor_version(), 2);
            assert_eq!(view.sizeof_data(), 2);
            assert_eq!(view.addressof_rawdata(), 0x2000);
            assert_eq!(view.pointerto_rawdata(), 0x1000);
            assert_eq!(view.payload(), &[7, 8]);
        }
        other => panic!("a generic entry was expected, not {:?}", other),
    }
}

#[test]
fn debug_entries_of_a_binary_keep_their_order() {
    let records = vec![entry(13, &[1]), entry(2, &[2]), entry(7, &[3]), entry(16, &[4])];
    let entries = Entries::from_entries(&records);
    assert_eq!(entries.len(), 4);
    assert!(matches!(entries[0], Entries::Pogo(_)));
    assert!(matches!(entries[1], Entries::CodeView(_)));
    assert!(matches!(entries[2], Entries::Generic(_)));
    assert!(matches!(entries[3], Entries::Repro(_)));
    match entries[2] {
        Entries::Generic(view) => assert_eq!(view.payload(), &[3]),
        _ => panic!("a generic entry was expected"),
    }
    assert!(Entries::from_entries(&[]).is_empty());
}
