//! A source-to-source transformer for trait declarations.
//!
//! Given a trait with asynchronous methods and opaque-return-type methods,
//! the library synthesizes a "variant" trait whose such methods carry extra
//! capability bounds (for example a thread-safety marker), together with a
//! blanket implementation that lets every implementer of the variant trait
//! satisfy the original trait.
//!
//! The library works on a structured model of the declaration tree; turning
//! program text into that model and back is left to the caller.

pub mod ast;
pub mod dup;
pub mod rename;
pub mod transform;
pub mod variant;
pub mod attr;
pub mod blanket;
pub mod expand;
pub mod laws;
