//! Ownership primitives built over an explicit heap model: a unique-owner
//! box, a reference-counted shared pointer with weak references, a growable
//! array, and a two-variant sum type.

pub mod boxed;
pub mod either;
pub mod rc;
pub mod vec;
