use cxx::CxxVector;
use lief::macho::commands::source_version::SourceVersion;

#[test]
fn version_copies_the_components_in_order() {
    let mut components = CxxVector::<u64>::new();
    for part in [14u64, 2, 0, 5, 1] {
        components.pin_mut().push(part);
    }
    let command = SourceVersion::new(components.as_ref().unwrap());
    assert_eq!(command.version(), vec![14, 2, 0, 5, 1]);
}

#[test]
fn version_of_an_empty_vector_is_empty() {
    let components = CxxVector::<u64>::new();
    let command = SourceVersion::new(components.as_ref().unwrap());
    assert_eq!(command.version(), Vec::<u64>::new());
}
