use jsembed::table::{FunctionEntry, NativeFunctionTable};

#[test]
fn table_retains_names_after_input_is_gone() {
    let table = {
        let entries = vec![
            FunctionEntry { name: String::from("foo"), handler: 1, arity: 1, flags: 0 },
            FunctionEntry { name: String::from("bar"), handler: 2, arity: 2, flags: 0 },
        ];
        NativeFunctionTable::build(&entries)
    };
    // The constructing scope is gone; the table is the single owner keeping
    // the name storage alive for the descriptors.
    assert_eq!(table.len(), 2);
    assert_eq!(table.name_at(0).as_str(), "foo");
    assert_eq!(table.name_at(1).as_str(), "bar");

    let first = table.descriptor_at(0);
    assert_eq!(first.name_index, 0);
    assert_eq!(first.handler, 1);
    assert_eq!(first.arity, 1);
    assert_eq!(first.flags, 0);

    let second = table.descriptor_at(1);
    assert_eq!(second.name_index, 1);
    assert_eq!(second.handler, 2);
    assert_eq!(second.arity, 2);
    assert_eq!(second.flags, 0);
}

#[test]
fn empty_table() {
    let entries: Vec<FunctionEntry> = vec![];
    let table = NativeFunctionTable::build(&entries);
    assert_eq!(table.len(), 0);
}

#[test]
fn descriptors_carry_flags() {
    let entries = vec![
        FunctionEntry { name: String::from("prop"), handler: 7, arity: 0, flags: 0x41 },
    ];
    let table = NativeFunctionTable::build(&entries);
    assert_eq!(table.len(), 1);
    assert_eq!(table.name_at(0).as_str(), "prop");
    assert_eq!(table.descriptor_at(0).flags, 0x41);
    assert_eq!(table.descriptor_at(0).arity, 0);
}
