use wrapped_mono::error::CallError;
use wrapped_mono::handle::DomainToken;
use wrapped_mono::internal_call::{find_signature_split, IcallRegistry, ManagedArray};
use wrapped_mono::jit;
use wrapped_mono::jit::Runtime;

fn running_runtime() -> Runtime {
    let mut rt = Runtime::new();
    let _root = jit::init(&mut rt, 0x1000).unwrap();
    rt
}

#[test]
fn well_shaped_signatures_split_at_the_separator() {
    assert_eq!(find_signature_split("Test::PassArgCount"), Some(4));
    assert_eq!(find_signature_split("Some.Namespace.Type::Method"), Some(19));
    assert_eq!(find_signature_split("A::B"), Some(1));
}

#[test]
fn the_split_position_counts_bytes() {
    // 'é' takes two bytes, so the separator of "Té::M" sits at byte 3.
    assert_eq!(find_signature_split("Té::M"), Some(3));
}

#[test]
fn malformed_signatures_are_refused() {
    assert_eq!(find_signature_split(""), None);
    assert_eq!(find_signature_split("NoSeparator"), None);
    assert_eq!(find_signature_split("Single:Colon"), None);
    assert_eq!(find_signature_split("::NoPath"), None);
    assert_eq!(find_signature_split("NoMethod::"), None);
    assert_eq!(find_signature_split("A::B::C"), None);
    assert_eq!(find_signature_split("A:::B"), None);
    assert_eq!(find_signature_split(":::"), None);
}

#[test]
fn registration_needs_a_running_runtime() {
    let rt = Runtime::new();
    let mut reg = IcallRegistry::new();
    assert_eq!(
        reg.register(&rt, "Test::PassArgCount", 0x9000).unwrap_err(),
        CallError::NotStarted
    );
}

#[test]
fn registration_maps_a_signature_to_an_address() {
    let rt = running_runtime();
    let mut reg = IcallRegistry::new();
    assert_eq!(reg.lookup("Test::PassArgCount"), None);
    reg.register(&rt, "Test::PassArgCount", 0x9000).unwrap();
    reg.register(&rt, "Test::PassDataArray", 0x9100).unwrap();
    assert_eq!(reg.lookup("Test::PassArgCount"), Some(0x9000));
    assert_eq!(reg.lookup("Test::PassDataArray"), Some(0x9100));
    assert_eq!(reg.lookup("Test::GetObject"), None);
}

#[test]
fn the_last_registration_of_a_signature_wins() {
    let rt = running_runtime();
    let mut reg = IcallRegistry::new();
    reg.register(&rt, "Test::PassArgCount", 0x9000).unwrap();
    reg.register(&rt, "Test::SendTestString", 0x9200).unwrap();
    reg.register(&rt, "Test::PassArgCount", 0x9300).unwrap();
    assert_eq!(reg.lookup("Test::PassArgCount"), Some(0x9300));
    assert_eq!(reg.lookup("Test::SendTestString"), Some(0x9200));
}

#[test]
fn registration_rejects_bad_signatures_and_null_addresses() {
    let rt = running_runtime();
    let mut reg = IcallRegistry::new();
    assert_eq!(
        reg.register(&rt, "NoSeparator", 0x9000).unwrap_err(),
        CallError::InvalidOperation
    );
    assert_eq!(
        reg.register(&rt, "Test::PassArgCount", 0).unwrap_err(),
        CallError::InvalidOperation
    );
    assert_eq!(reg.lookup("Test::PassArgCount"), None);
}

#[test]
fn a_one_dimensional_array_is_indexed_by_stride() {
    let token = DomainToken { index: 0 };
    // Six 32-bit integers, as a managed callback would receive them.
    let arr = ManagedArray::from_raw(0x8000, token, vec![6], 4).unwrap();
    assert_eq!(arr.get_rank(), 1);
    assert_eq!(arr.len(), 6);
    assert_eq!(arr.dim_length(0), Some(6));
    assert_eq!(arr.dim_length(1), None);
    for i in 0..6usize {
        assert_eq!(arr.element_offset(&vec![i]).unwrap(), i * 4);
    }
    // One past the end is a checked error, not an address.
    assert_eq!(
        arr.element_offset(&vec![6]).unwrap_err(),
        CallError::IndexOutOfBounds
    );
    // So is an index of the wrong rank.
    assert_eq!(
        arr.element_offset(&vec![0, 0]).unwrap_err(),
        CallError::IndexOutOfBounds
    );
}

#[test]
fn multi_dimensional_indexing_is_row_major() {
    let token = DomainToken { index: 0 };
    let arr = ManagedArray::from_raw(0x8000, token, vec![2, 3], 8).unwrap();
    assert_eq!(arr.get_rank(), 2);
    assert_eq!(arr.len(), 6);
    assert_eq!(arr.element_offset(&vec![0, 0]).unwrap(), 0);
    assert_eq!(arr.element_offset(&vec![0, 2]).unwrap(), 16);
    assert_eq!(arr.element_offset(&vec![1, 0]).unwrap(), 24);
    assert_eq!(arr.element_offset(&vec![1, 2]).unwrap(), 40);
    assert_eq!(
        arr.element_offset(&vec![1, 3]).unwrap_err(),
        CallError::IndexOutOfBounds
    );
    assert_eq!(
        arr.element_offset(&vec![2, 0]).unwrap_err(),
        CallError::IndexOutOfBounds
    );
}

#[test]
fn an_empty_array_has_no_addressable_element() {
    let token = DomainToken { index: 0 };
    let arr = ManagedArray::from_raw(0x8000, token, vec![0], 4).unwrap();
    assert_eq!(arr.len(), 0);
    assert_eq!(
        arr.element_offset(&vec![0]).unwrap_err(),
        CallError::IndexOutOfBounds
    );
}

#[test]
fn unaddressable_shapes_are_refused() {
    let token = DomainToken { index: 0 };
    // A null handle, a missing dimension, a zero stride.
    assert!(ManagedArray::from_raw(0, token, vec![6], 4).is_err());
    assert!(ManagedArray::from_raw(0x8000, token, vec![], 4).is_err());
    assert!(ManagedArray::from_raw(0x8000, token, vec![6], 0).is_err());
    // A byte size beyond the native address space.
    assert!(ManagedArray::from_raw(0x8000, token, vec![usize::MAX, 2], 1).is_err());
    assert!(ManagedArray::from_raw(0x8000, token, vec![usize::MAX], 2).is_err());
}
