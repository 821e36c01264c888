//! Bootstrap logic of a desktop application shell.
//!
//! The shell's only job is to assemble an application builder, attach a
//! logger in debug builds and a deep-link handler in every build, and hand
//! control to the host runtime's event loop. The decisions made along the
//! way — which plugins to attach, how diagnostic records are filtered, and
//! how startup failures are handled — are plain functions over plain values,
//! stated and verified here. A thin unverified launcher performs the actual
//! runtime calls and feeds their outcomes back into this logic.

pub mod bootstrap;
pub mod level;
