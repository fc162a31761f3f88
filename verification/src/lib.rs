//! Marshalling between native values and the Java Virtual Machine over JNI.
//!
//! The crate describes the ten Java kinds it supports, converts values of
//! those kinds to and from what crosses the JNI boundary, and builds Java
//! objects and object arrays from them.
//!
//! What a function decides by itself is stated in its contract and proved.
//! What the virtual machine decides is not: a function that calls it says
//! which outcomes it can hand on, and which values never reach it.

pub mod boundary;
pub mod classes;
pub mod conversion;
pub mod errors;
pub mod java_types;

pub use classes::{ArraySpec, Class, JavaArray};
pub use conversion::{primitive_to_rust, require_string, text_to_rust, to_rust, BoundaryValue};
pub use errors::{propagate, EasyJNIResult, EasyJniError};
pub use java_types::{unit_of, JavaType, JavaTypeSignature};

pub use jni;
