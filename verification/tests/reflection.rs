use wrapped_mono::class::{Class, ClassField};
use wrapped_mono::cursor::CursorSession;
use wrapped_mono::error::{CallError, MarshalError};
use wrapped_mono::handle::{DomainToken, Image, Object};
use wrapped_mono::jit;
use wrapped_mono::jit::Runtime;
use wrapped_mono::value::{TypeTag, Value};

fn running_runtime() -> (Runtime, DomainToken) {
    let mut rt = Runtime::new();
    let root = jit::init(&mut rt, 0x1000).unwrap();
    let token = root.token_exec();
    (rt, token)
}

#[test]
fn null_pointers_become_absence() {
    let token = DomainToken { index: 0 };
    assert!(Class::from_ptr(0, token).is_none());
    assert!(ClassField::from_ptr(0, token).is_none());
    let c = Class::from_ptr(0x10, token).unwrap();
    assert_eq!(c.get_ptr(), 0x10);
}

#[test]
fn lookup_marshals_namespace_and_name() {
    let (rt, token) = running_runtime();
    let image = Image::from_ptr(0x20, token).unwrap();
    let call = Class::lookup(&rt, &image, "SomeNamespace", "SomeClass", true).unwrap();
    assert_eq!(call.image_ptr, 0x20);
    assert_eq!(call.namespace, b"SomeNamespace\0".to_vec());
    assert_eq!(call.name, b"SomeClass\0".to_vec());
    assert!(call.case_sensitive);

    // The default namespace is the empty string.
    let call = Class::from_name(&rt, &image, "", "Test").unwrap();
    assert_eq!(call.namespace, vec![0u8]);
    assert!(call.case_sensitive);

    // The name a lookup carries reads back as the very same string: this
    // is the round trip behind resolving a class and asking its name.
    let looked_up = Class::from_ptr(0x30, token).unwrap();
    let mut name_bytes = call.name.clone();
    assert_eq!(name_bytes.pop(), Some(0u8));
    assert_eq!(looked_up.get_name(&name_bytes).unwrap(), "Test");

    let call = Class::from_name_case(&rt, &image, "", "test").unwrap();
    assert!(!call.case_sensitive);
}

#[test]
fn lookup_needs_a_running_runtime() {
    let rt = Runtime::new();
    let image = Image::from_ptr(0x20, DomainToken { index: 0 }).unwrap();
    let r = Class::lookup(&rt, &image, "", "Test", true);
    assert_eq!(r.unwrap_err(), CallError::NotStarted);
}

#[test]
fn missing_field_is_absence_not_an_error() {
    let (rt, token) = running_runtime();
    let class = Class::from_ptr(0x30, token).unwrap();
    let call = class.get_field_from_name(&rt, "noSuchField").unwrap();
    assert_eq!(call.class_ptr, 0x30);
    assert_eq!(call.name, b"noSuchField\0".to_vec());
    // The runtime found nothing: a null reply is absence, not an error.
    assert!(ClassField::from_ptr(0, token).is_none());
}

#[test]
fn names_come_back_through_the_marshal() {
    let token = DomainToken { index: 0 };
    let class = Class::from_ptr(0x30, token).unwrap();
    assert_eq!(class.get_name(&b"SomeClass".to_vec()).unwrap(), "SomeClass");
    assert_eq!(class.get_namespace(&Vec::new()).unwrap(), "");
    assert_eq!(
        class.get_name(&vec![0xFF]).unwrap_err(),
        MarshalError::InvalidUtf8
    );
    let field = ClassField::from_ptr(0x31, token).unwrap();
    assert_eq!(field.get_name(&b"someField".to_vec()).unwrap(), "someField");
}

#[test]
fn array_operations_are_checked() {
    let token = DomainToken { index: 0 };
    let class = Class::from_ptr(0x30, token).unwrap();
    // Unclassified classes refuse array-only operations.
    assert_eq!(class.get_rank().unwrap_err(), CallError::InvalidOperation);
    assert_eq!(
        class.get_element_class().unwrap_err(),
        CallError::InvalidOperation
    );
    // A rank of zero means: not an array.
    assert_eq!(
        class.mark_array(0, 0x40).unwrap_err(),
        CallError::InvalidOperation
    );
    // A negative rank or a missing element class breaks the contract.
    assert_eq!(
        class.mark_array(-1, 0x40).unwrap_err(),
        CallError::ForeignContract
    );
    assert_eq!(
        class.mark_array(2, 0).unwrap_err(),
        CallError::ForeignContract
    );
    // A classified array answers both queries, with rank at least one.
    let arr = class.mark_array(2, 0x40).unwrap();
    assert_eq!(arr.get_rank().unwrap(), 2);
    let elem = arr.get_element_class().unwrap();
    assert_eq!(elem.get_ptr(), 0x40);
    assert_eq!(elem.get_rank().unwrap_err(), CallError::InvalidOperation);
}

#[test]
fn a_class_never_implements_itself() {
    let token = DomainToken { index: 0 };
    let class = Class::from_ptr(0x30, token).unwrap();
    let same = Class::from_ptr(0x30, token).unwrap();
    let iface = Class::from_ptr(0x31, token).unwrap();
    // Even an affirmative foreign reply does not make a class implement
    // its own descriptor.
    assert!(!class.implements_interface(&same, 1));
    assert!(class.implements_interface(&iface, 1));
    assert!(!class.implements_interface(&iface, 0));
    assert!(class.same_as(&same));
    assert!(!class.same_as(&iface));
}

#[test]
fn category_queries_interpret_the_reply() {
    let token = DomainToken { index: 0 };
    let class = Class::from_ptr(0x30, token).unwrap();
    let other = Class::from_ptr(0x31, token).unwrap();
    assert!(class.is_assignable_from(&other, 1));
    assert!(!class.is_assignable_from(&other, 0));
    assert!(class.is_enum(5));
    assert!(!class.is_delegate(0));
    assert!(class.is_valuetype(1));
}

#[test]
fn counts_must_not_be_negative() {
    let token = DomainToken { index: 0 };
    let class = Class::from_ptr(0x30, token).unwrap();
    assert_eq!(class.num_fields(3).unwrap(), 3);
    assert_eq!(class.num_methods(0).unwrap(), 0);
    assert_eq!(class.num_properties(7).unwrap(), 7);
    assert_eq!(class.data_size(16).unwrap(), 16);
    assert_eq!(class.array_element_size(8).unwrap(), 8);
    assert_eq!(class.num_fields(-1).unwrap_err(), CallError::ForeignContract);
    assert_eq!(class.data_size(-4).unwrap_err(), CallError::ForeignContract);
}

#[test]
fn derived_classes_keep_the_origin() {
    let token = DomainToken { index: 0 };
    let class = Class::from_ptr(0x30, token).unwrap();
    assert!(class.get_parent(0).is_none());
    let parent = class.get_parent(0x32).unwrap();
    assert_eq!(parent.get_ptr(), 0x32);
    assert!(class.get_nesting_type(0).is_none());
    let image = class.get_image(0x21).unwrap();
    assert_eq!(image.get_ptr(), 0x21);
    assert_eq!(class.get_image(0).unwrap_err(), CallError::ForeignContract);
    assert_eq!(
        class.get_field_from_name(&Runtime::new(), "f").unwrap_err(),
        CallError::NotStarted
    );
}

#[test]
fn empty_enumeration_yields_an_empty_sequence() {
    let token = DomainToken { index: 0 };
    let class = Class::from_ptr(0x30, token).unwrap();
    let mut session = CursorSession::begin();
    // The very first reply already signals exhaustion.
    assert!(!session.feed(0));
    assert!(session.is_exhausted());
    assert_eq!(session.count(), 0);
    let fields = class.get_fields(&session);
    assert!(fields.is_empty());
    let methods = class.get_methods(&session);
    assert!(methods.is_empty());
}

#[test]
fn enumeration_keeps_count_and_order() {
    let token = DomainToken { index: 0 };
    let class = Class::from_ptr(0x30, token).unwrap();
    let mut session = CursorSession::begin();
    assert!(session.feed(0x51));
    assert!(session.feed(0x52));
    assert!(session.feed(0x53));
    assert!(!session.feed(0));
    // The enumeration's length agrees with the direct count the runtime
    // reports for the same class.
    assert_eq!(session.count(), class.num_fields(3).unwrap());
    let fields = class.get_fields(&session);
    assert_eq!(fields.len(), 3);
    assert_eq!(fields[0].get_ptr(), 0x51);
    assert_eq!(fields[1].get_ptr(), 0x52);
    assert_eq!(fields[2].get_ptr(), 0x53);

    let methods = class.get_methods(&session);
    assert_eq!(methods.len(), 3);
    assert_eq!(methods[1].get_ptr(), 0x52);

    let nested = class.get_nested_types(&session);
    assert_eq!(nested.len(), 3);
    assert_eq!(nested[2].get_ptr(), 0x53);

    let interfaces = class.get_interfaces(&session);
    assert_eq!(interfaces.len(), 3);
    // Consistency with the interface query: a listed interface may be
    // implemented, the class's own descriptor may not.
    assert!(class.implements_interface(&interfaces[0], 1));
}

#[test]
fn field_reads_stay_in_the_objects_domain() {
    let (rt, token) = running_runtime();
    let field = ClassField::from_ptr(0x60, token).unwrap();
    let obj = Object::from_ptr(0x61, token).unwrap();
    let call = field.value_request(&rt, &obj).unwrap();
    assert_eq!(call.field_ptr, 0x60);
    assert_eq!(call.object_ptr, 0x61);
    assert!(field.get_value_object(&obj, 0).is_none());
    let boxed = field.get_value_object(&obj, 0x62).unwrap();
    assert_eq!(boxed.get_ptr(), 0x62);
    let parent = field.get_parent(0x30).unwrap();
    assert_eq!(parent.get_ptr(), 0x30);
}

#[test]
fn field_writes_check_the_declared_type() {
    let (rt, token) = running_runtime();
    let obj = Object::from_ptr(0x61, token).unwrap();
    let untyped = ClassField::from_ptr(0x60, token).unwrap();
    // Without a recorded declared type no write goes through.
    assert_eq!(
        untyped
            .set_value(&rt, &obj, Value::Int32(11))
            .unwrap_err(),
        CallError::UnknownType
    );
    let field = untyped.with_type(TypeTag::Int32);
    // A mismatched shape is refused before any foreign write.
    assert_eq!(
        field.set_value(&rt, &obj, Value::Int64(11)).unwrap_err(),
        CallError::TypeMismatch
    );
    assert_eq!(
        field.set_value(&rt, &obj, Value::Bool(true)).unwrap_err(),
        CallError::TypeMismatch
    );
    // A character beyond the basic plane cannot be one managed char.
    let ch_field = ClassField::from_ptr(0x65, token)
        .unwrap()
        .with_type(TypeTag::Char);
    assert_eq!(
        ch_field
            .set_value(&rt, &obj, Value::Char('\u{1F3B5}'))
            .unwrap_err(),
        CallError::TypeMismatch
    );
    assert!(ch_field.set_value(&rt, &obj, Value::Char('ó')).is_ok());
    // The matching shape is passed through unchanged.
    let call = field.set_value(&rt, &obj, Value::Int32(11)).unwrap();
    assert_eq!(call.object_ptr, 0x61);
    assert_eq!(call.field_ptr, 0x60);
    assert!(matches!(call.value, Value::Int32(11)));
    // Reference values must live in a domain that is still alive.
    let ref_field = ClassField::from_ptr(0x63, token)
        .unwrap()
        .with_type(TypeTag::Reference);
    let stale = Object::from_ptr(0x64, DomainToken { index: 9 }).unwrap();
    assert_eq!(
        ref_field
            .set_value(&rt, &obj, Value::Reference(stale))
            .unwrap_err(),
        CallError::UseAfterFree
    );
    let live = Object::from_ptr(0x64, token).unwrap();
    assert!(ref_field.set_value(&rt, &obj, Value::Reference(live)).is_ok());
}

#[test]
fn built_in_types_are_owed_by_the_runtime() {
    let token = DomainToken { index: 0 };
    assert_eq!(Class::get_object(0x70, token).unwrap().get_ptr(), 0x70);
    assert_eq!(Class::get_string(0x71, token).unwrap().get_ptr(), 0x71);
    assert_eq!(Class::get_int_32(0x72, token).unwrap().get_ptr(), 0x72);
    assert_eq!(Class::get_boolean(0x73, token).unwrap().get_ptr(), 0x73);
    assert_eq!(Class::get_char(0x74, token).unwrap().get_ptr(), 0x74);
    assert_eq!(Class::get_thread(0x75, token).unwrap().get_ptr(), 0x75);
    assert_eq!(Class::get_void(0x76, token).unwrap().get_ptr(), 0x76);
    assert_eq!(Class::get_array(0x77, token).unwrap().get_ptr(), 0x77);
    assert_eq!(Class::get_int_16(0x78, token).unwrap().get_ptr(), 0x78);
    assert_eq!(Class::get_int_64(0x79, token).unwrap().get_ptr(), 0x79);
    assert_eq!(Class::get_double(0x7a, token).unwrap().get_ptr(), 0x7a);
    assert_eq!(Class::get_single(0x7b, token).unwrap().get_ptr(), 0x7b);
    assert_eq!(Class::get_enum(0x7c, token).unwrap().get_ptr(), 0x7c);
    assert_eq!(Class::get_sbyte(0x7d, token).unwrap().get_ptr(), 0x7d);
    assert_eq!(Class::get_byte(0x7e, token).unwrap().get_ptr(), 0x7e);
    assert_eq!(Class::get_uint16(0x7f, token).unwrap().get_ptr(), 0x7f);
    assert_eq!(Class::get_uint32(0x80, token).unwrap().get_ptr(), 0x80);
    assert_eq!(Class::get_uint64(0x81, token).unwrap().get_ptr(), 0x81);
    assert_eq!(Class::get_int_ptr(0x82, token).unwrap().get_ptr(), 0x82);
    assert_eq!(Class::get_uint_ptr(0x83, token).unwrap().get_ptr(), 0x83);
    // A null reply for a built-in type breaks the foreign contract.
    assert_eq!(
        Class::get_object(0, token).unwrap_err(),
        CallError::ForeignContract
    );
}
