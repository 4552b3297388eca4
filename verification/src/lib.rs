//! Declarative signatures, bindings and dispatch sizing for elementwise
//! tensor kernels.
//!
//! A tensor is a strided view over a device buffer. An elementwise operation is
//! described by a label and a one-line body; from the striders of its
//! arguments the crate derives everything a compute runtime needs to run it:
//! the validated buffer bindings, the indexing parameters and the number of
//! invocations. Nothing here touches a device or reads the contents of a
//! buffer.

pub mod element;
pub mod error;
pub mod kernel;
pub mod name;
pub mod packing;
pub mod tensor;
