//! Dynamic library loading as a protocol.
//!
//! The operating system's loader is driven from outside this crate: each
//! backend module decides which native entry point is invoked next and what
//! its answer means, and the caller performs the invocation. The search path
//! helpers work on the text of the loader's environment variable.

pub mod library;
pub mod platform;
pub mod posix;
pub mod search_path;
pub mod text;
pub mod windows;

pub use library::DynamicLibrary;
pub use platform::Platform;
