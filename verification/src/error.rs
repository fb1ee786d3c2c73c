//! Error taxonomy of the boundary layer.
//!
//! Absence (a name that is not there, an assembly that cannot be opened, an
//! exhausted enumeration) is never an error: it is `None` or an empty
//! sequence. Errors are reserved for marshaling failures and for precondition
//! violations that the layer can detect before reaching the foreign runtime.

use vstd::prelude::*;

verus! {

/// Failure to move text across the native/managed boundary.
#[derive(Clone, Copy, Debug, PartialEq, Eq, Structural)]
pub enum MarshalError {
    /// The foreign bytes do not form valid UTF-8.
    InvalidUtf8,
    /// The native string holds an interior NUL byte and cannot become a
    /// C string.
    InteriorNul,
}

/// A checked violation caught before any foreign call is issued, or a foreign
/// reply that breaks the documented contract of the call that produced it.
#[derive(Clone, Copy, Debug, PartialEq, Eq, Structural)]
pub enum CallError {
    /// The runtime has not been started yet.
    NotStarted,
    /// The runtime was started once already and cannot be started again.
    AlreadyStarted,
    /// The runtime has been shut down for good.
    ShutDown,
    /// The handle was acquired under a domain that has since been freed.
    UseAfterFree,
    /// An operation that only an array type supports was asked of a
    /// non-array class, or the root domain was freed without force.
    InvalidOperation,
    /// The tagged value does not match the field's declared type.
    TypeMismatch,
    /// The field's declared type was never recorded, so a typed write
    /// cannot be checked.
    UnknownType,
    /// A multi-index into a managed array has the wrong number of
    /// dimensions or leaves the array's bounds.
    IndexOutOfBounds,
    /// The foreign runtime replied outside its documented contract
    /// (a negative count, a null pointer where one is owed).
    ForeignContract,
    /// Text could not be marshaled across the boundary.
    Marshal(MarshalError),
}

} // verus!
