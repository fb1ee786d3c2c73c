//! Null-checked wrappers around foreign pointers.
//!
//! Every entity of the managed runtime is reached through an opaque pointer
//! owned by the runtime. A wrapper here never frees the pointee and never
//! dereferences it; the only validation possible at this level is the null
//! check, so the one invariant a handle carries is that its pointer is not
//! null: a caller can never observe a null-but-present handle. Equality is
//! pointer identity.
//!
//! Each handle also records the domain it was acquired under as a
//! [`DomainToken`]. Freeing a domain invalidates every handle acquired under
//! it; the runtime state machine in [`crate::jit`] checks a token against its
//! registry and rejects a stale one instead of letting a dangling foreign
//! pointer cross the boundary again.

use vstd::prelude::*;

verus! {

/// Marks the domain a handle was acquired under: the position of that domain
/// in the runtime's registry. The registry decides whether the domain behind
/// a token is still alive; see [`crate::jit::Runtime`].
#[derive(Clone, Copy, Debug, PartialEq, Eq, Structural)]
pub struct DomainToken {
    /// Position of the owning domain in the runtime's domain registry.
    pub index: usize,
}

/// A loaded unit of managed code, owned by the domain that opened it.
#[derive(Clone, Copy, Debug, PartialEq, Eq, Structural)]
pub struct Assembly {
    ptr: usize,
    origin: DomainToken,
}

/// The metadata table of an assembly; the namespace in which class names
/// are resolved.
#[derive(Clone, Copy, Debug, PartialEq, Eq, Structural)]
pub struct Image {
    ptr: usize,
    origin: DomainToken,
}

/// A method descriptor on a class, obtained only by enumeration.
#[derive(Clone, Copy, Debug, PartialEq, Eq, Structural)]
pub struct Method {
    ptr: usize,
    origin: DomainToken,
}

/// A managed heap value (boxed or reference), owned by the domain that
/// produced it.
#[derive(Clone, Copy, Debug, PartialEq, Eq, Structural)]
pub struct Object {
    ptr: usize,
    origin: DomainToken,
}

impl Assembly {
    /// The wrapped foreign pointer.
    pub closed spec fn raw(&self) -> usize {
        self.ptr
    }

    /// The domain this handle was acquired under.
    pub closed spec fn origin(&self) -> DomainToken {
        self.origin
    }

    /// A present handle never wraps a null pointer.
    pub open spec fn wf(&self) -> bool {
        self.raw() != 0
    }

    /// Wraps a raw foreign pointer: absent exactly when the pointer is null.
    pub fn from_ptr(raw: usize, origin: DomainToken) -> (r: Option<Assembly>)
        ensures
            r is Some <==> raw != 0,
            r is Some ==> r.unwrap().raw() == raw && r.unwrap().origin() == origin,
    {
        if raw == 0 {
            None
        } else {
            Some(Assembly { ptr: raw, origin })
        }
    }

    /// A pure projection of the wrapped pointer; never null.
    pub fn get_ptr(&self) -> (r: usize)
        requires
            self.wf(),
        ensures
            r == self.raw(),
            r != 0,
    {
        self.ptr
    }

    /// The token of the domain this assembly was loaded under.
    pub fn get_origin(&self) -> (r: DomainToken)
        ensures
            r == self.origin(),
    {
        self.origin
    }
}

impl Image {
    /// The wrapped foreign pointer.
    pub closed spec fn raw(&self) -> usize {
        self.ptr
    }

    /// The domain this handle was acquired under.
    pub closed spec fn origin(&self) -> DomainToken {
        self.origin
    }

    /// A present handle never wraps a null pointer.
    pub open spec fn wf(&self) -> bool {
        self.raw() != 0
    }

    /// Wraps a raw foreign pointer: absent exactly when the pointer is null.
    pub fn from_ptr(raw: usize, origin: DomainToken) -> (r: Option<Image>)
        ensures
            r is Some <==> raw != 0,
            r is Some ==> r.unwrap().raw() == raw && r.unwrap().origin() == origin,
    {
        if raw == 0 {
            None
        } else {
            Some(Image { ptr: raw, origin })
        }
    }

    /// A pure projection of the wrapped pointer; never null.
    pub fn get_ptr(&self) -> (r: usize)
        requires
            self.wf(),
        ensures
            r == self.raw(),
            r != 0,
    {
        self.ptr
    }

    /// The token of the domain this image was obtained under.
    pub fn get_origin(&self) -> (r: DomainToken)
        ensures
            r == self.origin(),
    {
        self.origin
    }
}

impl Method {
    /// The wrapped foreign pointer.
    pub closed spec fn raw(&self) -> usize {
        self.ptr
    }

    /// The domain this handle was acquired under.
    pub closed spec fn origin(&self) -> DomainToken {
        self.origin
    }

    /// A present handle never wraps a null pointer.
    pub open spec fn wf(&self) -> bool {
        self.raw() != 0
    }

    /// Wraps a raw foreign pointer: absent exactly when the pointer is null.
    pub fn from_ptr(raw: usize, origin: DomainToken) -> (r: Option<Method>)
        ensures
            r is Some <==> raw != 0,
            r is Some ==> r.unwrap().raw() == raw && r.unwrap().origin() == origin,
    {
        if raw == 0 {
            None
        } else {
            Some(Method { ptr: raw, origin })
        }
    }

    /// A pure projection of the wrapped pointer; never null.
    pub fn get_ptr(&self) -> (r: usize)
        requires
            self.wf(),
        ensures
            r == self.raw(),
            r != 0,
    {
        self.ptr
    }

    /// Wraps a pointer already known to be non-null, as enumeration yields
    /// them.
    pub(crate) fn wrap(raw: usize, origin: DomainToken) -> (r: Method)
        requires
            raw != 0,
        ensures
            r.raw() == raw,
            r.origin() == origin,
            r.wf(),
    {
        Method { ptr: raw, origin }
    }
}

impl Object {
    /// The wrapped foreign pointer.
    pub closed spec fn raw(&self) -> usize {
        self.ptr
    }

    /// The domain this handle was acquired under.
    pub closed spec fn origin(&self) -> DomainToken {
        self.origin
    }

    /// A present handle never wraps a null pointer.
    pub open spec fn wf(&self) -> bool {
        self.raw() != 0
    }

    /// Wraps a raw foreign pointer: absent exactly when the pointer is null.
    pub fn from_ptr(raw: usize, origin: DomainToken) -> (r: Option<Object>)
        ensures
            r is Some <==> raw != 0,
            r is Some ==> r.unwrap().raw() == raw && r.unwrap().origin() == origin,
    {
        if raw == 0 {
            None
        } else {
            Some(Object { ptr: raw, origin })
        }
    }

    /// A pure projection of the wrapped pointer; never null.
    pub fn get_ptr(&self) -> (r: usize)
        requires
            self.wf(),
        ensures
            r == self.raw(),
            r != 0,
    {
        self.ptr
    }

    /// The token of the domain this object lives in.
    pub fn get_origin(&self) -> (r: DomainToken)
        ensures
            r == self.origin(),
    {
        self.origin
    }
}

} // verus!
