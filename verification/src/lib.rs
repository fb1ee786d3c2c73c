//! A safety layer between native code and an embedded, garbage-collected
//! managed runtime reached through a C ABI.
//!
//! Every entity of the runtime (domains, assemblies, images, classes, fields,
//! methods, objects) is reached through an opaque foreign pointer that this
//! crate never dereferences. The crate's job is to keep the unchecked parts of
//! that boundary as small as possible:
//!
//! - handles wrap foreign pointers with a null check, so a present handle is
//!   never null ([`handle`], [`class`], [`domain`]);
//! - the process-wide runtime lifecycle is a checked state machine, and every
//!   operation says in its contract which state it needs ([`jit`]);
//! - walking a runtime-owned collection goes through a cursor protocol that
//!   cannot be rewound or resumed after exhaustion ([`cursor`]);
//! - text crossing the boundary is validated UTF-8, and rejection is a
//!   reported error, never a crash ([`marshal`]);
//! - field writes carry a tagged value that is checked against the field's
//!   declared type before any foreign write is issued ([`value`]);
//! - native callbacks are registered under validated signature strings, and
//!   managed arrays are indexed through a bounds-checked descriptor
//!   ([`internal_call`]).
//!
//! The foreign calls themselves cannot be verified; an unverified shell
//! performs them and hands their raw outcomes (pointers as integers, counts,
//! name bytes) to this crate, which decides everything that can be decided on
//! this side of the boundary.

pub mod class;
pub mod cursor;
pub mod domain;
pub mod error;
pub mod handle;
pub mod internal_call;
pub mod jit;
pub mod marshal;
pub mod value;
