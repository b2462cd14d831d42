//! The scalars that the service places in fields of unreliable type.

use vstd::prelude::*;

verus! {

/// One JSON scalar as the service sends it, before any coercion.
#[derive(Clone, Debug)]
pub enum JsonScalar {
    /// `null`, or a field that carries no value.
    Null,
    /// A non-negative integer.
    Unsigned(u64),
    /// A negative (or signed) integer.
    Signed(i64),
    /// A floating-point number; its value stays with the caller.
    Float,
    /// A string.
    Text(String),
}

} // verus!
