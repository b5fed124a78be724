use fcopy::atoms::{AtomTable, WellKnown, NAME_COUNT};

const ORDER: [WellKnown; 7] = [
    WellKnown::Clipboard,
    WellKnown::Primary,
    WellKnown::Utf8String,
    WellKnown::Targets,
    WellKnown::Multiple,
    WellKnown::TextPlainUtf8,
    WellKnown::GtkTextBufferContents,
];

fn filled(atoms: [u32; 7]) -> AtomTable {
    let mut table = AtomTable::new();
    for (name, atom) in ORDER.iter().zip(atoms.iter()) {
        table.resolve(*name, *atom);
    }
    table
}

#[test]
fn names_are_numbered_in_order_of_resolution() {
    assert_eq!(NAME_COUNT, 7);
    for (i, name) in ORDER.iter().enumerate() {
        assert_eq!(name.index(), i);
        assert_eq!(WellKnown::from_index(i), Some(*name));
    }
    assert_eq!(WellKnown::from_index(7), None);
    assert_eq!(WellKnown::from_index(usize::MAX), None);
}

#[test]
fn next_walks_through_the_names_and_stops() {
    let mut name = WellKnown::Clipboard;
    let mut seen = vec![name];
    while let Some(next) = name.next() {
        seen.push(next);
        name = next;
    }
    assert_eq!(seen, ORDER.to_vec());
    assert_eq!(WellKnown::GtkTextBufferContents.next(), None);
}

#[test]
fn names_are_written_as_the_server_knows_them() {
    assert_eq!(WellKnown::Clipboard.name(), "CLIPBOARD");
    assert_eq!(WellKnown::Primary.name(), "PRIMARY");
    assert_eq!(WellKnown::Utf8String.name(), "UTF8_STRING");
    assert_eq!(WellKnown::Targets.name(), "TARGETS");
    assert_eq!(WellKnown::Multiple.name(), "MULTIPLE");
    assert_eq!(WellKnown::TextPlainUtf8.name(), "text/plain;charset=utf-8");
    assert_eq!(WellKnown::GtkTextBufferContents.name(), "GTK_TEXT_BUFFER_CONTENTS");
}

#[test]
fn parse_finds_each_name_again() {
    for name in ORDER.iter() {
        assert_eq!(WellKnown::parse(name.name()), Some(*name));
    }
}

#[test]
fn parse_knows_no_other_name() {
    assert_eq!(WellKnown::parse("IMAGE_PNG"), None);
    assert_eq!(WellKnown::parse(""), None);
    assert_eq!(WellKnown::parse("clipboard"), None);
    assert_eq!(WellKnown::parse("TARGET"), None);
    assert_eq!(WellKnown::parse("TARGETSS"), None);
    assert_eq!(WellKnown::parse("PRIMARX"), None);
    assert_eq!(WellKnown::parse("text/plain;charset=utf-9"), None);
    assert_eq!(WellKnown::parse("UTF8_STRIN\u{47}\u{301}"), None);
}

#[test]
fn new_table_binds_nothing() {
    let table = AtomTable::new();
    for name in ORDER.iter() {
        assert_eq!(table.lookup(*name), None);
    }
    assert!(table.all().is_empty());
    assert!(!table.is_complete());
    assert_eq!(table.first_unbound(), Some(WellKnown::Clipboard));
    assert_eq!(table.name_of(0), None);
}

#[test]
fn resolve_binds_the_name_to_the_servers_atom() {
    let mut table = AtomTable::new();
    assert_eq!(table.resolve(WellKnown::Utf8String, 419), 419);
    assert_eq!(table.lookup(WellKnown::Utf8String), Some(419));
    assert_eq!(table.lookup(WellKnown::Targets), None);
    assert_eq!(table.all(), vec![419]);
}

#[test]
fn resolve_twice_returns_the_same_atom() {
    let mut table = AtomTable::new();
    let first = table.resolve(WellKnown::Targets, 300);
    let second = table.resolve(WellKnown::Targets, 301);
    assert_eq!(first, 300);
    assert_eq!(second, 300);
    assert_eq!(table.lookup(WellKnown::Targets), Some(300));
    assert_eq!(table.all(), vec![300]);
}

#[test]
fn resolve_leaves_other_names_alone() {
    let mut table = AtomTable::new();
    table.resolve(WellKnown::Clipboard, 10);
    table.resolve(WellKnown::Multiple, 50);
    assert_eq!(table.lookup(WellKnown::Clipboard), Some(10));
    assert_eq!(table.lookup(WellKnown::Multiple), Some(50));
    assert_eq!(table.lookup(WellKnown::Primary), None);
    assert_eq!(table.first_unbound(), Some(WellKnown::Primary));
}

#[test]
fn all_lists_bound_atoms_in_order_of_resolution() {
    let mut table = AtomTable::new();
    table.resolve(WellKnown::GtkTextBufferContents, 7);
    table.resolve(WellKnown::Clipboard, 9);
    table.resolve(WellKnown::Targets, 8);
    assert_eq!(table.all(), vec![9, 8, 7]);
    let table = filled([11, 12, 13, 14, 15, 16, 17]);
    assert_eq!(table.all(), vec![11, 12, 13, 14, 15, 16, 17]);
}

#[test]
fn all_keeps_an_atom_that_two_names_share() {
    let table = filled([5, 1, 5, 6, 7, 8, 9]);
    assert_eq!(table.all(), vec![5, 1, 5, 6, 7, 8, 9]);
}

#[test]
fn complete_table_has_no_unbound_name() {
    let table = filled([11, 12, 13, 14, 15, 16, 17]);
    assert!(table.is_complete());
    assert_eq!(table.first_unbound(), None);
}

#[test]
fn first_unbound_is_the_earliest_gap() {
    let mut table = AtomTable::new();
    table.resolve(WellKnown::Clipboard, 1);
    table.resolve(WellKnown::Primary, 2);
    table.resolve(WellKnown::Targets, 4);
    table.resolve(WellKnown::GtkTextBufferContents, 7);
    assert_eq!(table.first_unbound(), Some(WellKnown::Utf8String));
    assert!(!table.is_complete());
}

#[test]
fn name_of_finds_the_name_of_an_atom() {
    let table = filled([11, 12, 13, 14, 15, 16, 17]);
    for (i, name) in ORDER.iter().enumerate() {
        assert_eq!(table.name_of(11 + i as u32), Some(*name));
    }
    assert_eq!(table.name_of(18), None);
    assert_eq!(table.name_of(0), None);
}

#[test]
fn name_of_takes_the_first_name_of_a_shared_atom() {
    let table = filled([11, 12, 13, 13, 15, 13, 17]);
    assert_eq!(table.name_of(13), Some(WellKnown::Utf8String));
}

#[test]
fn lookup_name_goes_by_the_written_name() {
    let mut table = AtomTable::new();
    table.resolve(WellKnown::Utf8String, 419);
    assert_eq!(table.lookup_name("UTF8_STRING"), Some(419));
    assert_eq!(table.lookup_name("TARGETS"), None);
    assert_eq!(table.lookup_name("IMAGE_PNG"), None);
    let table = filled([11, 12, 13, 14, 15, 16, 17]);
    assert_eq!(table.lookup_name("text/plain;charset=utf-8"), Some(16));
    assert_eq!(table.lookup_name("GTK_TEXT_BUFFER_CONTENTS"), Some(17));
}
