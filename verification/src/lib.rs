//! The verified core of a safe binding over a native 2D puppet library.
//!
//! Nothing here calls into the native layer. Every native call that a wrapper
//! would make is handed out as a [`native::NativeCall`] value for the embedding
//! program to carry out, and every answer of the native layer comes back in as
//! a plain argument.

pub mod error;
pub mod instance;
pub mod lifecycle;
pub mod native;
pub mod puppet;
