//! Compatibility inputs for a target Python environment: the ordered wheel
//! tags and the marker environment of a target that may differ from the
//! running interpreter, and the rewriting of sysconfig values for a target
//! layout.

pub mod chars;
pub mod markers;
pub mod resolution;
pub mod status;
pub mod sysconfig;
pub mod tags;
pub mod target;
pub mod text;
