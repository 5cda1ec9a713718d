use jsembed::gateway::{
    class_has_reserved_slots, handle_to_result, status_to_result, Error, JSOPTION_METHODJIT,
    JSOPTION_STRICT, JSOPTION_VAROBJFIX, JSOPTION_WERROR,
};
use jsembed::roots::{PrivateTable, RootRegistry};

#[test]
fn add_then_remove_succeeds_both_times() {
    let mut registry = RootRegistry::new();
    assert_eq!(registry.add_root(0xABCD), Ok(()));
    assert!(registry.contains_root(0xABCD));
    assert_eq!(registry.remove_root(0xABCD), Ok(()));
    assert!(!registry.contains_root(0xABCD));
}

#[test]
fn remove_of_never_rooted_handle_fails() {
    let mut registry = RootRegistry::new();
    assert_eq!(registry.remove_root(0x1), Err(Error::OperationFailed));
    registry.add_root(0x2).unwrap();
    assert_eq!(registry.remove_root(0x1), Err(Error::OperationFailed));
    assert_eq!(registry.root_count(), 1);
}

#[test]
fn unpaired_second_remove_fails() {
    let mut registry = RootRegistry::new();
    registry.add_root(0x7).unwrap();
    assert_eq!(registry.remove_root(0x7), Ok(()));
    assert_eq!(registry.remove_root(0x7), Err(Error::OperationFailed));
}

#[test]
fn each_registration_needs_its_own_release() {
    let mut registry = RootRegistry::new();
    registry.add_root(0x7).unwrap();
    registry.add_root(0x7).unwrap();
    assert_eq!(registry.root_count(), 2);
    assert_eq!(registry.remove_root(0x7), Ok(()));
    assert!(registry.contains_root(0x7));
    assert_eq!(registry.remove_root(0x7), Ok(()));
    assert!(!registry.contains_root(0x7));
}

#[test]
fn private_data_is_set_got_and_superseded() {
    let mut table = PrivateTable::new();
    assert_eq!(table.get_private(0x10), None);
    table.set_private(0x10, 111);
    table.set_private(0x20, 222);
    assert_eq!(table.get_private(0x10), Some(111));
    assert_eq!(table.get_private(0x20), Some(222));
    table.set_private(0x10, 333);
    assert_eq!(table.get_private(0x10), Some(333));
    assert_eq!(table.get_private(0x20), Some(222));
    assert_eq!(table.get_private(0x30), None);
}

#[test]
fn boolean_statuses_normalize() {
    assert_eq!(status_to_result(1), Ok(()));
    assert_eq!(status_to_result(-1), Ok(()));
    assert_eq!(status_to_result(0), Err(Error::OperationFailed));
}

#[test]
fn object_handles_normalize() {
    assert_eq!(handle_to_result(0x5005), Ok(0x5005));
    assert_eq!(handle_to_result(0), Err(Error::NullHandle));
}

#[test]
fn reserved_slot_counts_pack_into_class_flags() {
    assert_eq!(class_has_reserved_slots(0), 0);
    assert_eq!(class_has_reserved_slots(3), 0x300);
    // Counts wider than the field are masked to it.
    assert_eq!(class_has_reserved_slots(0x1FF), 0xFF00);
}

#[test]
fn option_flags_are_independent_bits() {
    let all = JSOPTION_STRICT | JSOPTION_WERROR | JSOPTION_VAROBJFIX | JSOPTION_METHODJIT;
    assert_eq!(all & JSOPTION_STRICT, JSOPTION_STRICT);
    assert_eq!(all & JSOPTION_WERROR, JSOPTION_WERROR);
    assert_eq!(all & JSOPTION_VAROBJFIX, JSOPTION_VAROBJFIX);
    assert_eq!(all & JSOPTION_METHODJIT, JSOPTION_METHODJIT);
    assert_eq!(JSOPTION_STRICT & JSOPTION_WERROR, 0);
    assert_eq!(JSOPTION_VAROBJFIX & JSOPTION_METHODJIT, 0);
}
