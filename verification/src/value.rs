//! Tagged values for checked field writes.
//!
//! The foreign field-write call takes an untyped pointer and performs no
//! type check of its own: a mismatched write is memory-unsafe on the
//! runtime's side. This layer therefore never issues a raw write. A field
//! records its declared type as a [`TypeTag`], a caller supplies a
//! [`Value`], and the write is prepared only when the value's tag equals
//! the field's declared tag.
//!
//! Floating-point field values cross the boundary as their IEEE 754 bit
//! patterns, untouched: marshaling moves bits, and this layer does no
//! arithmetic on them.

use vstd::prelude::*;
use crate::handle::Object;

verus! {

/// The declared type of a field, as the closed set of marshalable shapes.
#[derive(Clone, Copy, Debug, PartialEq, Eq, Structural)]
pub enum TypeTag {
    /// `System.Boolean`.
    Boolean,
    /// `System.Char`.
    Char,
    /// `System.SByte`.
    SByte,
    /// `System.Byte`.
    Byte,
    /// `System.Int16`.
    Int16,
    /// `System.UInt16`.
    UInt16,
    /// `System.Int32`.
    Int32,
    /// `System.UInt32`.
    UInt32,
    /// `System.Int64`.
    Int64,
    /// `System.UInt64`.
    UInt64,
    /// `System.IntPtr`.
    IntPtr,
    /// `System.UIntPtr`.
    UIntPtr,
    /// `System.Single`, carried as raw bits.
    Single,
    /// `System.Double`, carried as raw bits.
    Double,
    /// Any reference type, carried as an object handle.
    Reference,
}

/// A native value headed for a managed field, tagged with its shape.
#[derive(Clone, Copy, Debug)]
pub enum Value {
    /// A `System.Boolean` value.
    Bool(bool),
    /// A `System.Char` value.
    Char(char),
    /// A `System.SByte` value.
    SByte(i8),
    /// A `System.Byte` value.
    Byte(u8),
    /// A `System.Int16` value.
    Int16(i16),
    /// A `System.UInt16` value.
    UInt16(u16),
    /// A `System.Int32` value.
    Int32(i32),
    /// A `System.UInt32` value.
    UInt32(u32),
    /// A `System.Int64` value.
    Int64(i64),
    /// A `System.UInt64` value.
    UInt64(u64),
    /// A `System.IntPtr` value.
    IntPtr(isize),
    /// A `System.UIntPtr` value.
    UIntPtr(usize),
    /// A `System.Single` value as its IEEE 754 bit pattern.
    SingleBits(u32),
    /// A `System.Double` value as its IEEE 754 bit pattern.
    DoubleBits(u64),
    /// A reference value: a live handle in the target object's domain.
    Reference(Object),
}

impl Value {
    /// The shape of this value.
    pub open spec fn tag(&self) -> TypeTag {
        match *self {
            Value::Bool(_) => TypeTag::Boolean,
            Value::Char(_) => TypeTag::Char,
            Value::SByte(_) => TypeTag::SByte,
            Value::Byte(_) => TypeTag::Byte,
            Value::Int16(_) => TypeTag::Int16,
            Value::UInt16(_) => TypeTag::UInt16,
            Value::Int32(_) => TypeTag::Int32,
            Value::UInt32(_) => TypeTag::UInt32,
            Value::Int64(_) => TypeTag::Int64,
            Value::UInt64(_) => TypeTag::UInt64,
            Value::IntPtr(_) => TypeTag::IntPtr,
            Value::UIntPtr(_) => TypeTag::UIntPtr,
            Value::SingleBits(_) => TypeTag::Single,
            Value::DoubleBits(_) => TypeTag::Double,
            Value::Reference(_) => TypeTag::Reference,
        }
    }

    /// The shape of this value, for checking in executable code.
    pub fn tag_of(&self) -> (r: TypeTag)
        ensures
            r == self.tag(),
    {
        match *self {
            Value::Bool(_) => TypeTag::Boolean,
            Value::Char(_) => TypeTag::Char,
            Value::SByte(_) => TypeTag::SByte,
            Value::Byte(_) => TypeTag::Byte,
            Value::Int16(_) => TypeTag::Int16,
            Value::UInt16(_) => TypeTag::UInt16,
            Value::Int32(_) => TypeTag::Int32,
            Value::UInt32(_) => TypeTag::UInt32,
            Value::Int64(_) => TypeTag::Int64,
            Value::UInt64(_) => TypeTag::UInt64,
            Value::IntPtr(_) => TypeTag::IntPtr,
            Value::UIntPtr(_) => TypeTag::UIntPtr,
            Value::SingleBits(_) => TypeTag::Single,
            Value::DoubleBits(_) => TypeTag::Double,
            Value::Reference(_) => TypeTag::Reference,
        }
    }
}

} // verus!
