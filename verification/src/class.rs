//! The reflection layer: classes and their fields.
//!
//! A [`Class`] is a non-owning wrapper around a type descriptor owned by the
//! runtime, acquired by name lookup in an image, from a built-in type
//! accessor, or derived from another class. A [`ClassField`] is a field
//! descriptor on a class. Neither is ever freed on this side; their
//! lifetime is tied to the domain they were acquired under, and every
//! operation that would reach the runtime is gated on that domain being
//! alive.
//!
//! Array-only operations are checked: a class answers rank and element
//! queries only after the foreign classification has been absorbed with
//! [`Class::mark_array`]; on any other class they are a reported error,
//! never a crash. Assignability, interface and category queries are asked
//! of the runtime's own type system — this layer does not reimplement those
//! rules — and only their replies are interpreted here.

use vstd::prelude::*;
use crate::cursor::CursorSession;
use crate::error::{CallError, MarshalError};
use crate::handle::{DomainToken, Image, Method, Object};
use crate::jit::Runtime;
use crate::marshal;
use crate::value::{TypeTag, Value};

verus! {

/// What the runtime answered when a class was classified as an array: its
/// rank and its element class.
#[derive(Clone, Copy, Debug, PartialEq, Eq, Structural)]
pub struct ArrayInfo {
    /// Number of dimensions; at least one.
    pub rank: i32,
    /// Foreign pointer of the element class; never null.
    pub element_ptr: usize,
}

/// A type descriptor (reference type, value type, array, interface, enum or
/// delegate) owned by the runtime.
#[derive(Clone, Copy, Debug)]
pub struct Class {
    ptr: usize,
    origin: DomainToken,
    array: Option<ArrayInfo>,
}

/// A field descriptor (static or instance) on a class.
#[derive(Clone, Copy, Debug)]
pub struct ClassField {
    ptr: usize,
    origin: DomainToken,
    ty: Option<TypeTag>,
}

/// The marshaled arguments of the foreign class-by-name lookup.
#[derive(Debug)]
pub struct ClassLookupCall {
    /// Foreign pointer of the image to resolve in.
    pub image_ptr: usize,
    /// C-string bytes of the namespace ("" for the default namespace).
    pub namespace: Vec<u8>,
    /// C-string bytes of the simple class name.
    pub name: Vec<u8>,
    /// Whether the case-sensitive foreign lookup is meant; otherwise the
    /// case-insensitive variant is called.
    pub case_sensitive: bool,
}

/// The marshaled arguments of the foreign field-by-name lookup.
#[derive(Debug)]
pub struct FieldLookupCall {
    /// Foreign pointer of the class to search.
    pub class_ptr: usize,
    /// C-string bytes of the field's name.
    pub name: Vec<u8>,
}

/// The arguments of the foreign field-read call, performed within the
/// object's own domain (which the shell queries from the object).
#[derive(Debug)]
pub struct FieldGetCall {
    /// Foreign pointer of the field descriptor.
    pub field_ptr: usize,
    /// Foreign pointer of the instance read from.
    pub object_ptr: usize,
}

/// The checked arguments of the foreign field-write call: the value's shape
/// has already been matched against the field's declared type.
#[derive(Debug)]
pub struct FieldWriteCall {
    /// Foreign pointer of the instance written to.
    pub object_ptr: usize,
    /// Foreign pointer of the field descriptor.
    pub field_ptr: usize,
    /// The value to write, with its checked tag.
    pub value: Value,
}

impl Class {
    /// The wrapped foreign pointer.
    pub closed spec fn raw(&self) -> usize {
        self.ptr
    }

    /// The domain this class was acquired under.
    pub closed spec fn origin(&self) -> DomainToken {
        self.origin
    }

    /// The absorbed array classification, if any.
    pub closed spec fn array_info(&self) -> Option<ArrayInfo> {
        self.array
    }

    /// A present class never wraps a null pointer, and an absorbed array
    /// classification always holds a positive rank and a present element
    /// class.
    pub open spec fn wf(&self) -> bool {
        &&& self.raw() != 0
        &&& (self.array_info() matches Some(a) ==> a.rank >= 1 && a.element_ptr != 0)
    }

    /// Wraps a raw foreign pointer: absent exactly when the pointer is
    /// null. The class starts without an array classification.
    pub fn from_ptr(raw: usize, origin: DomainToken) -> (r: Option<Class>)
        ensures
            r is Some <==> raw != 0,
            r is Some ==> {
                &&& r.unwrap().raw() == raw
                &&& r.unwrap().origin() == origin
                &&& r.unwrap().array_info() is None
                &&& r.unwrap().wf()
            },
    {
        if raw == 0 {
            None
        } else {
            Some(Class { ptr: raw, origin, array: None })
        }
    }

    /// A pure projection of the wrapped pointer; never null.
    pub fn get_ptr(&self) -> (r: usize)
        requires
            self.wf(),
        ensures
            r == self.raw(),
            r != 0,
    {
        self.ptr
    }

    /// The token of the domain this class was acquired under.
    pub fn get_origin(&self) -> (r: DomainToken)
        ensures
            r == self.origin(),
    {
        self.origin
    }

    /// Pointer identity, the only equality these descriptors have.
    pub fn same_as(&self, other: &Class) -> (r: bool)
        ensures
            r == (self.raw() == other.raw()),
    {
        self.ptr == other.ptr
    }

    /// Prepares the foreign class-by-name lookup in `image`, resolving a
    /// simple name inside a namespace.
    ///
    /// Succeeds exactly when the runtime is running, the image's domain is
    /// alive and both strings can become C strings. The call's outcome is
    /// absorbed with [`Class::from_ptr`]: absent on not-found, never on
    /// ambiguity, since the metadata tables hold one class per
    /// namespace-and-name pair.
    pub fn lookup(rt: &Runtime, image: &Image, namespace: &str, name: &str, case_sensitive: bool)
        -> (r: Result<ClassLookupCall, CallError>)
        requires
            image.wf(),
        ensures
            r is Ok <==> rt.state_spec() is Running && rt.token_valid(image.origin())
                && marshal::nul_free(namespace@) && marshal::nul_free(name@),
            r is Ok ==> {
                &&& r->Ok_0.image_ptr == image.raw()
                &&& r->Ok_0.namespace@ == marshal::cstr_of(namespace@)
                &&& r->Ok_0.name@ == marshal::cstr_of(name@)
                &&& r->Ok_0.case_sensitive == case_sensitive
            },
            rt.state_spec() is Uninitialized ==> r == Err::<ClassLookupCall, CallError>(
                CallError::NotStarted,
            ),
            rt.state_spec() is ShutDown ==> r == Err::<ClassLookupCall, CallError>(
                CallError::ShutDown,
            ),
            rt.state_spec() is Running && !rt.token_valid(image.origin()) ==> r == Err::<
                ClassLookupCall,
                CallError,
            >(CallError::UseAfterFree),
    {
        if !rt.is_running() {
            if rt.can_init() {
                return Err(CallError::NotStarted);
            }
            return Err(CallError::ShutDown);
        }
        if !rt.token_live(image.get_origin()) {
            return Err(CallError::UseAfterFree);
        }
        let nspace = match marshal::to_cstring_bytes(namespace) {
            Ok(v) => v,
            Err(e) => {
                return Err(CallError::Marshal(e));
            },
        };
        let cname = match marshal::to_cstring_bytes(name) {
            Ok(v) => v,
            Err(e) => {
                return Err(CallError::Marshal(e));
            },
        };
        Ok(
            ClassLookupCall {
                image_ptr: image.get_ptr(),
                namespace: nspace,
                name: cname,
                case_sensitive,
            },
        )
    }

    /// Prepares the case-sensitive class-by-name lookup; see
    /// [`Class::lookup`].
    pub fn from_name(rt: &Runtime, image: &Image, namespace: &str, name: &str) -> (r: Result<
        ClassLookupCall,
        CallError,
    >)
        requires
            image.wf(),
        ensures
            r is Ok <==> rt.state_spec() is Running && rt.token_valid(image.origin())
                && marshal::nul_free(namespace@) && marshal::nul_free(name@),
            r is Ok ==> {
                &&& r->Ok_0.image_ptr == image.raw()
                &&& r->Ok_0.namespace@ == marshal::cstr_of(namespace@)
                &&& r->Ok_0.name@ == marshal::cstr_of(name@)
                &&& r->Ok_0.case_sensitive == true
            },
    {
        Self::lookup(rt, image, namespace, name, true)
    }

    /// Prepares the lookup that forwards to the runtime's case-insensitive
    /// class-by-name variant; see [`Class::lookup`].
    pub fn from_name_case(rt: &Runtime, image: &Image, namespace: &str, name: &str) -> (r: Result<
        ClassLookupCall,
        CallError,
    >)
        requires
            image.wf(),
        ensures
            r is Ok <==> rt.state_spec() is Running && rt.token_valid(image.origin())
                && marshal::nul_free(namespace@) && marshal::nul_free(name@),
            r is Ok ==> {
                &&& r->Ok_0.image_ptr == image.raw()
                &&& r->Ok_0.namespace@ == marshal::cstr_of(namespace@)
                &&& r->Ok_0.name@ == marshal::cstr_of(name@)
                &&& r->Ok_0.case_sensitive == false
            },
    {
        Self::lookup(rt, image, namespace, name, false)
    }

    /// Prepares the foreign field-by-name lookup on this class.
    ///
    /// Succeeds exactly when the runtime is running, this class's domain is
    /// alive and the name can become a C string. The outcome is absorbed
    /// with [`ClassField::from_ptr`]: a missing field is absence, not an
    /// error.
    pub fn get_field_from_name(&self, rt: &Runtime, name: &str) -> (r: Result<
        FieldLookupCall,
        CallError,
    >)
        requires
            self.wf(),
        ensures
            r is Ok <==> rt.state_spec() is Running && rt.token_valid(self.origin())
                && marshal::nul_free(name@),
            r is Ok ==> r->Ok_0.class_ptr == self.raw() && r->Ok_0.name@ == marshal::cstr_of(
                name@,
            ),
            rt.state_spec() is Uninitialized ==> r == Err::<FieldLookupCall, CallError>(
                CallError::NotStarted,
            ),
            rt.state_spec() is ShutDown ==> r == Err::<FieldLookupCall, CallError>(
                CallError::ShutDown,
            ),
            rt.state_spec() is Running && !rt.token_valid(self.origin()) ==> r == Err::<
                FieldLookupCall,
                CallError,
            >(CallError::UseAfterFree),
    {
        if !rt.is_running() {
            if rt.can_init() {
                return Err(CallError::NotStarted);
            }
            return Err(CallError::ShutDown);
        }
        if !rt.token_live(self.get_origin()) {
            return Err(CallError::UseAfterFree);
        }
        match marshal::to_cstring_bytes(name) {
            Ok(cname) => Ok(FieldLookupCall { class_ptr: self.get_ptr(), name: cname }),
            Err(e) => Err(CallError::Marshal(e)),
        }
    }

    /// Absorbs the borrowed bytes of this class's name, copied from memory
    /// the runtime still owns. Succeeds exactly when the bytes are valid
    /// UTF-8.
    pub fn get_name(&self, name_bytes: &Vec<u8>) -> (r: Result<String, MarshalError>)
        ensures
            r is Ok <==> vstd::utf8::valid_utf8(name_bytes@),
            r is Ok ==> r->Ok_0@ == vstd::utf8::decode_utf8(name_bytes@),
            r is Err ==> r->Err_0 == MarshalError::InvalidUtf8,
    {
        marshal::read_foreign_cstr(name_bytes)
    }

    /// Absorbs the borrowed bytes of this class's namespace ("" when the
    /// class is in no namespace). Succeeds exactly when the bytes are valid
    /// UTF-8.
    pub fn get_namespace(&self, namespace_bytes: &Vec<u8>) -> (r: Result<String, MarshalError>)
        ensures
            r is Ok <==> vstd::utf8::valid_utf8(namespace_bytes@),
            r is Ok ==> r->Ok_0@ == vstd::utf8::decode_utf8(namespace_bytes@),
            r is Err ==> r->Err_0 == MarshalError::InvalidUtf8,
    {
        marshal::read_foreign_cstr(namespace_bytes)
    }

    /// Absorbs the runtime's array classification of this class: its rank
    /// and its element class, as the foreign rank and element-class queries
    /// answered them.
    ///
    /// Succeeds exactly when the replies describe an array: a rank of at
    /// least one and a present element class. A rank of zero means this
    /// class is no array, so marking it is an invalid operation; a negative
    /// rank or a missing element class breaks the foreign contract.
    pub fn mark_array(self, raw_rank: i32, element_raw: usize) -> (r: Result<Class, CallError>)
        requires
            self.wf(),
        ensures
            r is Ok <==> raw_rank >= 1 && element_raw != 0,
            r is Ok ==> {
                &&& r->Ok_0.raw() == self.raw()
                &&& r->Ok_0.origin() == self.origin()
                &&& r->Ok_0.array_info() == Some(
                    ArrayInfo { rank: raw_rank, element_ptr: element_raw },
                )
                &&& r->Ok_0.wf()
            },
            raw_rank == 0 ==> r == Err::<Class, CallError>(CallError::InvalidOperation),
            raw_rank < 0 || (raw_rank >= 1 && element_raw == 0) ==> r == Err::<Class, CallError>(
                CallError::ForeignContract,
            ),
    {
        if raw_rank == 0 {
            Err(CallError::InvalidOperation)
        } else if raw_rank < 0 || element_raw == 0 {
            Err(CallError::ForeignContract)
        } else {
            Ok(
                Class {
                    ptr: self.ptr,
                    origin: self.origin,
                    array: Some(ArrayInfo { rank: raw_rank, element_ptr: element_raw }),
                },
            )
        }
    }

    /// The number of dimensions of an array class.
    ///
    /// Succeeds exactly when this class carries an absorbed array
    /// classification, and then the rank is at least one; on any other
    /// class the call is a reported invalid operation, never a crash.
    pub fn get_rank(&self) -> (r: Result<i32, CallError>)
        requires
            self.wf(),
        ensures
            r is Ok <==> self.array_info() is Some,
            r is Ok ==> r->Ok_0 == self.array_info().unwrap().rank && r->Ok_0 >= 1,
            r is Err ==> r->Err_0 == CallError::InvalidOperation,
    {
        match self.array {
            Some(a) => Ok(a.rank),
            None => Err(CallError::InvalidOperation),
        }
    }

    /// The element class of an array class.
    ///
    /// Succeeds exactly when this class carries an absorbed array
    /// classification; on any other class the call is a reported invalid
    /// operation, never a crash.
    pub fn get_element_class(&self) -> (r: Result<Class, CallError>)
        requires
            self.wf(),
        ensures
            r is Ok <==> self.array_info() is Some,
            r is Ok ==> {
                &&& r->Ok_0.raw() == self.array_info().unwrap().element_ptr
                &&& r->Ok_0.origin() == self.origin()
                &&& r->Ok_0.wf()
            },
            r is Err ==> r->Err_0 == CallError::InvalidOperation,
    {
        match self.array {
            Some(a) => Ok(Class { ptr: a.element_ptr, origin: self.origin, array: None }),
            None => Err(CallError::InvalidOperation),
        }
    }

    /// Interprets the runtime's reply on whether this class implements the
    /// interface `iface`.
    ///
    /// A class never "implements" itself: for the class's own descriptor
    /// the answer is false without consulting the reply; otherwise the
    /// reply's truth value is the answer.
    pub fn implements_interface(&self, iface: &Class, raw_reply: i32) -> (r: bool)
        ensures
            r == (self.raw() != iface.raw() && raw_reply != 0),
    {
        self.ptr != iface.ptr && raw_reply != 0
    }

    /// Interprets the runtime's reply on whether a value of class `other`
    /// can be assigned to this class. The rule itself belongs to the
    /// managed type system and is asked of it, never reimplemented here.
    pub fn is_assignable_from(&self, other: &Class, raw_reply: i32) -> (r: bool)
        ensures
            r == (raw_reply != 0),
    {
        raw_reply != 0
    }

    /// Interprets the runtime's reply on whether this class is a delegate
    /// type.
    pub fn is_delegate(&self, raw_reply: i32) -> (r: bool)
        ensures
            r == (raw_reply != 0),
    {
        raw_reply != 0
    }

    /// Interprets the runtime's reply on whether this class is an
    /// enumeration type.
    pub fn is_enum(&self, raw_reply: i32) -> (r: bool)
        ensures
            r == (raw_reply != 0),
    {
        raw_reply != 0
    }

    /// Interprets the runtime's reply on whether this class is a value
    /// type.
    pub fn is_valuetype(&self, raw_reply: i32) -> (r: bool)
        ensures
            r == (raw_reply != 0),
    {
        raw_reply != 0
    }

    /// Absorbs the direct count of this class's static and instance
    /// fields. Succeeds exactly when the reply is not negative; a negative
    /// count breaks the foreign contract.
    pub fn num_fields(&self, raw_count: i32) -> (r: Result<usize, CallError>)
        ensures
            r is Ok <==> raw_count >= 0,
            r is Ok ==> r->Ok_0 == raw_count,
            r is Err ==> r->Err_0 == CallError::ForeignContract,
    {
        if raw_count >= 0 {
            Ok(raw_count as usize)
        } else {
            Err(CallError::ForeignContract)
        }
    }

    /// Absorbs the direct count of this class's methods. Succeeds exactly
    /// when the reply is not negative.
    pub fn num_methods(&self, raw_count: i32) -> (r: Result<usize, CallError>)
        ensures
            r is Ok <==> raw_count >= 0,
            r is Ok ==> r->Ok_0 == raw_count,
            r is Err ==> r->Err_0 == CallError::ForeignContract,
    {
        if raw_count >= 0 {
            Ok(raw_count as usize)
        } else {
            Err(CallError::ForeignContract)
        }
    }

    /// Absorbs the direct count of this class's properties. Succeeds
    /// exactly when the reply is not negative.
    pub fn num_properties(&self, raw_count: i32) -> (r: Result<usize, CallError>)
        ensures
            r is Ok <==> raw_count >= 0,
            r is Ok ==> r->Ok_0 == raw_count,
            r is Err ==> r->Err_0 == CallError::ForeignContract,
    {
        if raw_count >= 0 {
            Ok(raw_count as usize)
        } else {
            Err(CallError::ForeignContract)
        }
    }

    /// Absorbs the size in bytes of this class's static data. Succeeds
    /// exactly when the reply is not negative.
    pub fn data_size(&self, raw_size: i32) -> (r: Result<usize, CallError>)
        ensures
            r is Ok <==> raw_size >= 0,
            r is Ok ==> r->Ok_0 == raw_size,
            r is Err ==> r->Err_0 == CallError::ForeignContract,
    {
        if raw_size >= 0 {
            Ok(raw_size as usize)
        } else {
            Err(CallError::ForeignContract)
        }
    }

    /// Absorbs the memory an instance of this class occupies inside an
    /// array. Succeeds exactly when the reply is not negative.
    pub fn array_element_size(&self, raw_size: i32) -> (r: Result<usize, CallError>)
        ensures
            r is Ok <==> raw_size >= 0,
            r is Ok ==> r->Ok_0 == raw_size,
            r is Err ==> r->Err_0 == CallError::ForeignContract,
    {
        if raw_size >= 0 {
            Ok(raw_size as usize)
        } else {
            Err(CallError::ForeignContract)
        }
    }

    /// Absorbs the image this class lives in. The runtime owes every class
    /// an image, so a null reply breaks the foreign contract.
    pub fn get_image(&self, raw: usize) -> (r: Result<Image, CallError>)
        ensures
            r is Ok <==> raw != 0,
            r is Ok ==> r->Ok_0.raw() == raw && r->Ok_0.origin() == self.origin() && r->Ok_0.wf(),
            r is Err ==> r->Err_0 == CallError::ForeignContract,
    {
        match Image::from_ptr(raw, self.get_origin()) {
            Some(img) => Ok(img),
            None => Err(CallError::ForeignContract),
        }
    }

    /// Absorbs the class this class derives from: absent when it derives
    /// none.
    pub fn get_parent(&self, raw: usize) -> (r: Option<Class>)
        ensures
            r is Some <==> raw != 0,
            r is Some ==> {
                &&& r.unwrap().raw() == raw
                &&& r.unwrap().origin() == self.origin()
                &&& r.unwrap().array_info() is None
                &&& r.unwrap().wf()
            },
    {
        Class::from_ptr(raw, self.get_origin())
    }

    /// Absorbs the class this class is nested in: absent when it is nested
    /// in none.
    pub fn get_nesting_type(&self, raw: usize) -> (r: Option<Class>)
        ensures
            r is Some <==> raw != 0,
            r is Some ==> {
                &&& r.unwrap().raw() == raw
                &&& r.unwrap().origin() == self.origin()
                &&& r.unwrap().array_info() is None
                &&& r.unwrap().wf()
            },
    {
        Class::from_ptr(raw, self.get_origin())
    }

    /// Materializes a finished enumeration pass over this class's fields
    /// into field descriptors, in the order the runtime yielded them. An
    /// empty pass gives an empty sequence, not an error.
    pub fn get_fields(&self, session: &CursorSession) -> (r: Vec<ClassField>)
        requires
            session.exhausted_spec(),
            session.wf(),
        ensures
            r@.len() == session.items_spec().len(),
            forall|k: int|
                0 <= k < r@.len() ==> {
                    &&& (#[trigger] r@[k]).raw() == session.items_spec()[k]
                    &&& r@[k].origin() == self.origin()
                    &&& r@[k].declared_type() is None
                    &&& r@[k].wf()
                },
    {
        let items = session.raw_items();
        let n = items.len();
        let mut out: Vec<ClassField> = Vec::new();
        let mut i: usize = 0;
        while i < n
            invariant
                i <= n,
                n == items@.len(),
                items@ == session.items_spec(),
                session.wf(),
                out@.len() == i,
                forall|k: int|
                    0 <= k < i ==> {
                        &&& (#[trigger] out@[k]).raw() == session.items_spec()[k]
                        &&& out@[k].origin() == self.origin()
                        &&& out@[k].declared_type() is None
                        &&& out@[k].wf()
                    },
            decreases n - i,
        {
            let raw = items[i];
            proof {
                assert(session.items_spec()[i as int] != 0);
            }
            out.push(ClassField { ptr: raw, origin: self.get_origin(), ty: None });
            i = i + 1;
        }
        out
    }

    /// Materializes a finished enumeration pass over this class's methods,
    /// in the order the runtime yielded them.
    pub fn get_methods(&self, session: &CursorSession) -> (r: Vec<Method>)
        requires
            session.exhausted_spec(),
            session.wf(),
        ensures
            r@.len() == session.items_spec().len(),
            forall|k: int|
                0 <= k < r@.len() ==> {
                    &&& (#[trigger] r@[k]).raw() == session.items_spec()[k]
                    &&& r@[k].origin() == self.origin()
                    &&& r@[k].wf()
                },
    {
        let items = session.raw_items();
        let n = items.len();
        let mut out: Vec<Method> = Vec::new();
        let mut i: usize = 0;
        while i < n
            invariant
                i <= n,
                n == items@.len(),
                items@ == session.items_spec(),
                session.wf(),
                out@.len() == i,
                forall|k: int|
                    0 <= k < i ==> {
                        &&& (#[trigger] out@[k]).raw() == session.items_spec()[k]
                        &&& out@[k].origin() == self.origin()
                        &&& out@[k].wf()
                    },
            decreases n - i,
        {
            let raw = items[i];
            proof {
                assert(session.items_spec()[i as int] != 0);
            }
            out.push(Method::wrap(raw, self.get_origin()));
            i = i + 1;
        }
        out
    }

    /// Materializes a finished enumeration pass over the types nested in
    /// this class, in the order the runtime yielded them.
    pub fn get_nested_types(&self, session: &CursorSession) -> (r: Vec<Class>)
        requires
            session.exhausted_spec(),
            session.wf(),
        ensures
            r@.len() == session.items_spec().len(),
            forall|k: int|
                0 <= k < r@.len() ==> {
                    &&& (#[trigger] r@[k]).raw() == session.items_spec()[k]
                    &&& r@[k].origin() == self.origin()
                    &&& r@[k].array_info() is None
                    &&& r@[k].wf()
                },
    {
        self.classes_of(session)
    }

    /// Materializes a finished enumeration pass over the interfaces this
    /// class implements, in the order the runtime yielded them.
    pub fn get_interfaces(&self, session: &CursorSession) -> (r: Vec<Class>)
        requires
            session.exhausted_spec(),
            session.wf(),
        ensures
            r@.len() == session.items_spec().len(),
            forall|k: int|
                0 <= k < r@.len() ==> {
                    &&& (#[trigger] r@[k]).raw() == session.items_spec()[k]
                    &&& r@[k].origin() == self.origin()
                    &&& r@[k].array_info() is None
                    &&& r@[k].wf()
                },
    {
        self.classes_of(session)
    }

    /// Turns the raw items of a finished pass into class descriptors under
    /// this class's domain.
    fn classes_of(&self, session: &CursorSession) -> (r: Vec<Class>)
        requires
            session.exhausted_spec(),
            session.wf(),
        ensures
            r@.len() == session.items_spec().len(),
            forall|k: int|
                0 <= k < r@.len() ==> {
                    &&& (#[trigger] r@[k]).raw() == session.items_spec()[k]
                    &&& r@[k].origin() == self.origin()
                    &&& r@[k].array_info() is None
                    &&& r@[k].wf()
                },
    {
        let items = session.raw_items();
        let n = items.len();
        let mut out: Vec<Class> = Vec::new();
        let mut i: usize = 0;
        while i < n
            invariant
                i <= n,
                n == items@.len(),
                items@ == session.items_spec(),
                session.wf(),
                out@.len() == i,
                forall|k: int|
                    0 <= k < i ==> {
                        &&& (#[trigger] out@[k]).raw() == session.items_spec()[k]
                        &&& out@[k].origin() == self.origin()
                        &&& out@[k].array_info() is None
                        &&& out@[k].wf()
                    },
            decreases n - i,
        {
            let raw = items[i];
            proof {
                assert(session.items_spec()[i as int] != 0);
            }
            out.push(Class { ptr: raw, origin: self.get_origin(), array: None });
            i = i + 1;
        }
        out
    }
}

/// The name round trip of the reflection layer.
///
/// A lookup carries a class's namespace and name out as C-string bytes
/// ([`Class::lookup`] ensures they are exactly `cstr_of` of each string),
/// and [`Class::get_name`] / [`Class::get_namespace`] decode the borrowed
/// bytes the runtime hands back. For every name a lookup can carry, those
/// bytes — without the terminator — are valid UTF-8 and decode to the very
/// same text: whenever the runtime returns the looked-up name's own bytes,
/// reading the name back yields the string the lookup started from.
pub proof fn lemma_lookup_name_round_trip(name: Seq<char>)
    requires
        marshal::nul_free(name),
    ensures
        vstd::utf8::valid_utf8(marshal::cstr_of(name).drop_last()),
        vstd::utf8::decode_utf8(marshal::cstr_of(name).drop_last()) == name,
{
    marshal::lemma_cstring_round_trip(name);
}

/// How an absorbed built-in type lookup relates to the raw reply: present
/// exactly when the reply is non-null — these types exist in any loaded
/// runtime, so a null reply breaks the foreign contract — and then a fresh
/// class descriptor under the given domain.
pub open spec fn well_known_absorbed(
    r: Result<Class, CallError>,
    raw: usize,
    origin: DomainToken,
) -> bool {
    &&& (r is Ok <==> raw != 0)
    &&& (r is Ok ==> r->Ok_0.raw() == raw && r->Ok_0.origin() == origin && r->Ok_0.array_info()
        is None && r->Ok_0.wf())
    &&& (r is Err ==> r->Err_0 == CallError::ForeignContract)
}

impl Class {
    /// Absorbs the foreign lookup of a built-in type's class.
    pub fn well_known(raw: usize, origin: DomainToken) -> (r: Result<Class, CallError>)
        ensures
            well_known_absorbed(r, raw, origin),
    {
        match Class::from_ptr(raw, origin) {
            Some(c) => Ok(c),
            None => Err(CallError::ForeignContract),
        }
    }

    /// Absorbs the built-in lookup of `System.Object`.
    pub fn get_object(raw: usize, origin: DomainToken) -> (r: Result<Class, CallError>)
        ensures
            well_known_absorbed(r, raw, origin),
    {
        Self::well_known(raw, origin)
    }

    /// Absorbs the built-in lookup of `System.Int16`.
    pub fn get_int_16(raw: usize, origin: DomainToken) -> (r: Result<Class, CallError>)
        ensures
            well_known_absorbed(r, raw, origin),
    {
        Self::well_known(raw, origin)
    }

    /// Absorbs the built-in lookup of `System.Int32`.
    pub fn get_int_32(raw: usize, origin: DomainToken) -> (r: Result<Class, CallError>)
        ensures
            well_known_absorbed(r, raw, origin),
    {
        Self::well_known(raw, origin)
    }

    /// Absorbs the built-in lookup of `System.Int64`.
    pub fn get_int_64(raw: usize, origin: DomainToken) -> (r: Result<Class, CallError>)
        ensures
            well_known_absorbed(r, raw, origin),
    {
        Self::well_known(raw, origin)
    }

    /// Absorbs the built-in lookup of `System.Double`.
    pub fn get_double(raw: usize, origin: DomainToken) -> (r: Result<Class, CallError>)
        ensures
            well_known_absorbed(r, raw, origin),
    {
        Self::well_known(raw, origin)
    }

    /// Absorbs the built-in lookup of `System.Enum`.
    pub fn get_enum(raw: usize, origin: DomainToken) -> (r: Result<Class, CallError>)
        ensures
            well_known_absorbed(r, raw, origin),
    {
        Self::well_known(raw, origin)
    }

    /// Absorbs the built-in lookup of `System.IntPtr`.
    pub fn get_int_ptr(raw: usize, origin: DomainToken) -> (r: Result<Class, CallError>)
        ensures
            well_known_absorbed(r, raw, origin),
    {
        Self::well_known(raw, origin)
    }

    /// Absorbs the built-in lookup of `System.SByte`.
    pub fn get_sbyte(raw: usize, origin: DomainToken) -> (r: Result<Class, CallError>)
        ensures
            well_known_absorbed(r, raw, origin),
    {
        Self::well_known(raw, origin)
    }

    /// Absorbs the built-in lookup of `System.Single`.
    pub fn get_single(raw: usize, origin: DomainToken) -> (r: Result<Class, CallError>)
        ensures
            well_known_absorbed(r, raw, origin),
    {
        Self::well_known(raw, origin)
    }

    /// Absorbs the built-in lookup of `System.String`.
    pub fn get_string(raw: usize, origin: DomainToken) -> (r: Result<Class, CallError>)
        ensures
            well_known_absorbed(r, raw, origin),
    {
        Self::well_known(raw, origin)
    }

    /// Absorbs the built-in lookup of `System.Threading.Thread`.
    pub fn get_thread(raw: usize, origin: DomainToken) -> (r: Result<Class, CallError>)
        ensures
            well_known_absorbed(r, raw, origin),
    {
        Self::well_known(raw, origin)
    }

    /// Absorbs the built-in lookup of `System.UInt16`.
    pub fn get_uint16(raw: usize, origin: DomainToken) -> (r: Result<Class, CallError>)
        ensures
            well_known_absorbed(r, raw, origin),
    {
        Self::well_known(raw, origin)
    }

    /// Absorbs the built-in lookup of `System.UInt32`.
    pub fn get_uint32(raw: usize, origin: DomainToken) -> (r: Result<Class, CallError>)
        ensures
            well_known_absorbed(r, raw, origin),
    {
        Self::well_known(raw, origin)
    }

    /// Absorbs the built-in lookup of `System.UInt64`.
    pub fn get_uint64(raw: usize, origin: DomainToken) -> (r: Result<Class, CallError>)
        ensures
            well_known_absorbed(r, raw, origin),
    {
        Self::well_known(raw, origin)
    }

    /// Absorbs the built-in lookup of `System.UIntPtr`.
    pub fn get_uint_ptr(raw: usize, origin: DomainToken) -> (r: Result<Class, CallError>)
        ensures
            well_known_absorbed(r, raw, origin),
    {
        Self::well_known(raw, origin)
    }

    /// Absorbs the built-in lookup of `System.Void`.
    pub fn get_void(raw: usize, origin: DomainToken) -> (r: Result<Class, CallError>)
        ensures
            well_known_absorbed(r, raw, origin),
    {
        Self::well_known(raw, origin)
    }

    /// Absorbs the built-in lookup of `System.Array`.
    pub fn get_array(raw: usize, origin: DomainToken) -> (r: Result<Class, CallError>)
        ensures
            well_known_absorbed(r, raw, origin),
    {
        Self::well_known(raw, origin)
    }

    /// Absorbs the built-in lookup of `System.Boolean`.
    pub fn get_boolean(raw: usize, origin: DomainToken) -> (r: Result<Class, CallError>)
        ensures
            well_known_absorbed(r, raw, origin),
    {
        Self::well_known(raw, origin)
    }

    /// Absorbs the built-in lookup of `System.Byte`.
    pub fn get_byte(raw: usize, origin: DomainToken) -> (r: Result<Class, CallError>)
        ensures
            well_known_absorbed(r, raw, origin),
    {
        Self::well_known(raw, origin)
    }

    /// Absorbs the built-in lookup of `System.Char`.
    pub fn get_char(raw: usize, origin: DomainToken) -> (r: Result<Class, CallError>)
        ensures
            well_known_absorbed(r, raw, origin),
    {
        Self::well_known(raw, origin)
    }
}

impl PartialEq for Class {
    /// Pointer identity, as for every descriptor the runtime owns.
    fn eq(&self, other: &Class) -> (r: bool) {
        self.ptr == other.ptr
    }
}

impl vstd::std_specs::cmp::PartialEqSpecImpl for Class {
    open spec fn obeys_eq_spec() -> bool {
        true
    }

    open spec fn eq_spec(&self, other: &Class) -> bool {
        self.raw() == other.raw()
    }
}

impl ClassField {
    /// The wrapped foreign pointer.
    pub closed spec fn raw(&self) -> usize {
        self.ptr
    }

    /// The domain this field descriptor was acquired under.
    pub closed spec fn origin(&self) -> DomainToken {
        self.origin
    }

    /// The recorded declared type of the field, if it was recorded.
    pub closed spec fn declared_type(&self) -> Option<TypeTag> {
        self.ty
    }

    /// A present field descriptor never wraps a null pointer.
    pub open spec fn wf(&self) -> bool {
        self.raw() != 0
    }

    /// Wraps a raw foreign pointer: absent exactly when the pointer is
    /// null — a field lookup that found nothing is absence, not an error.
    pub fn from_ptr(raw: usize, origin: DomainToken) -> (r: Option<ClassField>)
        ensures
            r is Some <==> raw != 0,
            r is Some ==> {
                &&& r.unwrap().raw() == raw
                &&& r.unwrap().origin() == origin
                &&& r.unwrap().declared_type() is None
                &&& r.unwrap().wf()
            },
    {
        if raw == 0 {
            None
        } else {
            Some(ClassField { ptr: raw, origin, ty: None })
        }
    }

    /// A pure projection of the wrapped pointer; never null.
    pub fn get_ptr(&self) -> (r: usize)
        requires
            self.wf(),
        ensures
            r == self.raw(),
            r != 0,
    {
        self.ptr
    }

    /// Records the field's declared type, as the shell read it from the
    /// field's metadata, so that writes can be checked against it.
    pub fn with_type(self, tag: TypeTag) -> (r: ClassField)
        ensures
            r.raw() == self.raw(),
            r.origin() == self.origin(),
            r.declared_type() == Some(tag),
    {
        ClassField { ptr: self.ptr, origin: self.origin, ty: Some(tag) }
    }

    /// Absorbs the borrowed bytes of this field's name, copied from memory
    /// the runtime still owns. Succeeds exactly when the bytes are valid
    /// UTF-8.
    pub fn get_name(&self, name_bytes: &Vec<u8>) -> (r: Result<String, MarshalError>)
        ensures
            r is Ok <==> vstd::utf8::valid_utf8(name_bytes@),
            r is Ok ==> r->Ok_0@ == vstd::utf8::decode_utf8(name_bytes@),
            r is Err ==> r->Err_0 == MarshalError::InvalidUtf8,
    {
        marshal::read_foreign_cstr(name_bytes)
    }

    /// Absorbs the class this field is attached to. The runtime owes every
    /// field a parent, so a null reply breaks the foreign contract.
    pub fn get_parent(&self, raw: usize) -> (r: Result<Class, CallError>)
        ensures
            r is Ok <==> raw != 0,
            r is Ok ==> {
                &&& r->Ok_0.raw() == raw
                &&& r->Ok_0.origin() == self.origin()
                &&& r->Ok_0.array_info() is None
                &&& r->Ok_0.wf()
            },
            r is Err ==> r->Err_0 == CallError::ForeignContract,
    {
        match Class::from_ptr(raw, self.get_origin()) {
            Some(c) => Ok(c),
            None => Err(CallError::ForeignContract),
        }
    }

    /// The token of the domain this field descriptor was acquired under.
    pub fn get_origin(&self) -> (r: DomainToken)
        ensures
            r == self.origin(),
    {
        self.origin
    }

    /// Prepares the foreign field-read call for this field on `obj`,
    /// performed within the object's own domain. For boxable types the
    /// result is a boxed copy.
    ///
    /// Succeeds exactly when the runtime is running and both this
    /// descriptor's and the object's domains are alive.
    pub fn value_request(&self, rt: &Runtime, obj: &Object) -> (r: Result<FieldGetCall, CallError>)
        requires
            self.wf(),
            obj.wf(),
        ensures
            r is Ok <==> rt.state_spec() is Running && rt.token_valid(self.origin())
                && rt.token_valid(obj.origin()),
            r is Ok ==> r->Ok_0.field_ptr == self.raw() && r->Ok_0.object_ptr == obj.raw(),
            rt.state_spec() is Uninitialized ==> r == Err::<FieldGetCall, CallError>(
                CallError::NotStarted,
            ),
            rt.state_spec() is ShutDown ==> r == Err::<FieldGetCall, CallError>(
                CallError::ShutDown,
            ),
            rt.state_spec() is Running && !(rt.token_valid(self.origin()) && rt.token_valid(
                obj.origin(),
            )) ==> r == Err::<FieldGetCall, CallError>(CallError::UseAfterFree),
    {
        if !rt.is_running() {
            if rt.can_init() {
                return Err(CallError::NotStarted);
            }
            return Err(CallError::ShutDown);
        }
        if !rt.token_live(self.get_origin()) || !rt.token_live(obj.get_origin()) {
            return Err(CallError::UseAfterFree);
        }
        Ok(FieldGetCall { field_ptr: self.get_ptr(), object_ptr: obj.get_ptr() })
    }

    /// Absorbs the outcome of the field-read call: absent when the runtime
    /// returned nothing, otherwise a value living in the object's domain.
    pub fn get_value_object(&self, obj: &Object, raw: usize) -> (r: Option<Object>)
        ensures
            r is Some <==> raw != 0,
            r is Some ==> r.unwrap().raw() == raw && r.unwrap().origin() == obj.origin(),
    {
        Object::from_ptr(raw, obj.get_origin())
    }

    /// Prepares the checked field-write call for this field on `obj`.
    ///
    /// The foreign write path performs no type check of its own, so this
    /// layer refuses to prepare a write unless the value's shape equals
    /// the field's recorded declared type; a field whose type was never
    /// recorded cannot be written through this layer at all. A reference
    /// value must itself live in a domain that is still alive, and a
    /// character must fit the managed character type's single UTF-16
    /// unit.
    ///
    /// Succeeds exactly when the runtime is running, every domain involved
    /// is alive, the declared type is recorded, the tags match, and the
    /// value fits its managed representation.
    pub fn set_value(&self, rt: &Runtime, obj: &Object, value: Value) -> (r: Result<
        FieldWriteCall,
        CallError,
    >)
        requires
            self.wf(),
            obj.wf(),
        ensures
            r is Ok <==> {
                &&& rt.state_spec() is Running
                &&& rt.token_valid(self.origin())
                &&& rt.token_valid(obj.origin())
                &&& (value matches Value::Reference(o) ==> rt.token_valid(o.origin()))
                &&& self.declared_type() is Some
                &&& value.tag() == self.declared_type().unwrap()
                &&& (value matches Value::Char(c) ==> (c as u32) <= 0xffff)
            },
            r is Ok ==> {
                &&& r->Ok_0.object_ptr == obj.raw()
                &&& r->Ok_0.field_ptr == self.raw()
                &&& r->Ok_0.value == value
            },
            rt.state_spec() is Running && rt.token_valid(self.origin()) && rt.token_valid(
                obj.origin(),
            ) && (value matches Value::Reference(o) ==> rt.token_valid(o.origin()))
                && self.declared_type() is None ==> r == Err::<FieldWriteCall, CallError>(
                CallError::UnknownType,
            ),
            rt.state_spec() is Running && rt.token_valid(self.origin()) && rt.token_valid(
                obj.origin(),
            ) && (value matches Value::Reference(o) ==> rt.token_valid(o.origin())) && (
            self.declared_type() matches Some(t) && t != value.tag()) ==> r == Err::<
                FieldWriteCall,
                CallError,
            >(CallError::TypeMismatch),
    {
        if !rt.is_running() {
            if rt.can_init() {
                return Err(CallError::NotStarted);
            }
            return Err(CallError::ShutDown);
        }
        if !rt.token_live(self.get_origin()) || !rt.token_live(obj.get_origin()) {
            return Err(CallError::UseAfterFree);
        }
        if let Value::Reference(o) = &value {
            if !rt.token_live(o.get_origin()) {
                return Err(CallError::UseAfterFree);
            }
        }
        let declared = match self.ty {
            Some(t) => t,
            None => {
                return Err(CallError::UnknownType);
            },
        };
        if value.tag_of() != declared {
            return Err(CallError::TypeMismatch);
        }
        if let Value::Char(c) = &value {
            if *c as u32 > 0xffff {
                return Err(CallError::TypeMismatch);
            }
        }
        Ok(FieldWriteCall { object_ptr: obj.get_ptr(), field_ptr: self.get_ptr(), value })
    }
}

impl PartialEq for ClassField {
    /// Pointer identity, as for every descriptor the runtime owns.
    fn eq(&self, other: &ClassField) -> (r: bool) {
        self.ptr == other.ptr
    }
}

impl vstd::std_specs::cmp::PartialEqSpecImpl for ClassField {
    open spec fn obeys_eq_spec() -> bool {
        true
    }

    open spec fn eq_spec(&self, other: &ClassField) -> bool {
        self.raw() == other.raw()
    }
}

} // verus!
