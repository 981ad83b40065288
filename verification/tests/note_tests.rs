use lief::elf::note::{Generic, Note, NoteBase, Notes, Type};

fn sample(note_type: u32, original_type: u32) -> Note {
    Note {
        name: String::from("GNU"),
        note_type,
        original_type,
        size: 36,
        description: vec![0xde, 0xad, 0xbe, 0xef],
    }
}

#[test]
fn build_id_value_is_named() {
    assert_eq!(Type::from_value(0x0000_0003), Type::GNU_BUILD_ID);
    assert_eq!(Type::GNU_BUILD_ID.to_value(), 3);
}

#[test]
fn value_without_a_name_is_kept() {
    let kind = Type::from_value(0x0000_00ff);
    assert_eq!(kind, Type::UNKNOWN(0x0000_00ff));
    assert_eq!(kind.to_value(), 0x0000_00ff);
}

#[test]
fn note_classifies_by_its_type() {
    let build_id = sample(0x0000_0003, 3);
    let Notes::Generic(view) = Notes::from_note(&build_id);
    assert_eq!(view.get_type(), Type::GNU_BUILD_ID);

    let unknown = sample(0x0000_00ff, 0xff);
    let Notes::Generic(view) = Notes::from_note(&unknown);
    assert_eq!(view.get_type(), Type::UNKNOWN(0x0000_00ff));
    assert_eq!(view.get_type().to_value(), 0x0000_00ff);
}

#[test]
fn accessors_read_the_record() {
    let note = sample(1, 0x0000_0001);
    let view = Generic::new(&note);
    assert_eq!(view.name(), "GNU");
    assert_eq!(view.get_type(), Type::GNU_ABI_TAG);
    assert_eq!(view.original_type(), 1);
    assert_eq!(view.size(), 36);
    assert_eq!(view.description(), &[0xde, 0xad, 0xbe, 0xef]);
}

#[test]
fn every_value_round_trips() {
    for value in 0..=0x100u32 {
        assert_eq!(Type::from_value(value).to_value(), value);
    }
    for value in [0x2b, 0x7fff_ffff, 0x8000_0000, u32::MAX] {
        assert_eq!(Type::from_value(value), Type::UNKNOWN(value));
        assert_eq!(Type::from_value(value).to_value(), value);
    }
}

#[test]
fn named_values_have_their_names() {
    assert_eq!(Type::from_value(0), Type::UNKNOWN(0));
    assert_eq!(Type::from_value(0x01), Type::GNU_ABI_TAG);
    assert_eq!(Type::from_value(0x08), Type::CRASHPAD);
    assert_eq!(Type::from_value(0x14), Type::CORE_FILE);
    assert_eq!(Type::from_value(0x25), Type::CORE_X86_CET);
    assert_eq!(Type::from_value(0x2a), Type::STAPSDT);
    assert_eq!(Type::STAPSDT.to_value(), 0x2a);
    assert_eq!(Type::UNKNOWN(3).to_value(), 3);
    assert_eq!(Type::from_value(Type::UNKNOWN(3).to_value()), Type::GNU_BUILD_ID);
}

#[test]
fn notes_of_a_binary_keep_their_order() {
    let records = vec![sample(3, 3), sample(0xff, 0xff), sample(1, 1)];
    let notes = Notes::from_notes(&records);
    assert_eq!(notes.len(), 3);
    let kinds: Vec<Type> = notes
        .iter()
        .map(|note| {
            let Notes::Generic(view) = note;
            view.get_type()
        })
        .collect();
    assert_eq!(kinds, vec![Type::GNU_BUILD_ID, Type::UNKNOWN(0xff), Type::GNU_ABI_TAG]);
    assert!(Notes::from_notes(&[]).is_empty());
}
