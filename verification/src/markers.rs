//! The marker environment: the values that the conditions of dependency
//! declarations are compared against.
//!
//! The environment itself is `uv_pep508::MarkerEnvironment`. What it holds is
//! modelled as a map from the marker variable to its text, and each setter
//! that the resolution uses is described as an update of that map.

use vstd::prelude::*;
use uv_pep508::uv_pep440::Version;
use uv_pep508::MarkerEnvironment;
use crate::text::decimal;

verus! {

/// `uv_pep508::MarkerEnvironment`. The verifier sees nothing inside it: what
/// it holds is spoken of through [`marker_values`] alone.
#[verifier::external_type_specification]
#[verifier::external_body]
pub struct ExMarkerEnvironment(uv_pep508::MarkerEnvironment);

/// The variables of a marker environment.
#[derive(Debug, Clone, Copy)]
pub enum MarkerKey {
    ImplementationName,
    ImplementationVersion,
    OsName,
    PlatformMachine,
    PlatformPythonImplementation,
    PlatformRelease,
    PlatformSystem,
    PlatformVersion,
    PythonFullVersion,
    PythonVersion,
    SysPlatform,
}

/// The text that a marker environment holds for each of its variables. For
/// the three version variables it is the text that the version was written
/// as.
pub uninterp spec fn marker_values(env: MarkerEnvironment) -> Map<MarkerKey, Seq<char>>;

/// The text of a version of two release numbers, such as `3.9`.
pub open spec fn version_text(major: u8, minor: u8) -> Seq<char> {
    decimal(major as nat) + "."@ + decimal(minor as nat)
}

/// The text of a version of three release numbers, such as `3.9.0`.
pub open spec fn full_version_text(major: u8, minor: u8, patch: u8) -> Seq<char> {
    version_text(major, minor) + "."@ + decimal(patch as nat)
}

/// Calls `MarkerEnvironment::clone`. The copy is the same environment.
#[verifier::external_body]
pub(crate) fn clone_markers(env: &MarkerEnvironment) -> (copy: MarkerEnvironment)
    ensures
        copy == *env,
{
    env.clone()
}

/// Calls `MarkerEnvironment::implementation_name`, which hands out the value
/// of `implementation_name`.
#[verifier::external_body]
pub(crate) fn implementation_name(env: &MarkerEnvironment) -> (name: &str)
    ensures
        name@ == marker_values(*env)[MarkerKey::ImplementationName],
{
    env.implementation_name()
}

/// Calls `MarkerEnvironment::with_os_name`, which sets `os_name` and leaves
/// the other variables as they are.
#[verifier::external_body]
pub(crate) fn with_os_name(env: MarkerEnvironment, value: &str) -> (updated: MarkerEnvironment)
    ensures
        marker_values(updated) == marker_values(env).insert(MarkerKey::OsName, value@),
{
    env.with_os_name(value)
}

/// Calls `MarkerEnvironment::with_platform_machine`, which sets
/// `platform_machine` and leaves the other variables as they are.
#[verifier::external_body]
pub(crate) fn with_platform_machine(env: MarkerEnvironment, value: &str) -> (updated:
    MarkerEnvironment)
    ensures
        marker_values(updated) == marker_values(env).insert(MarkerKey::PlatformMachine, value@),
{
    env.with_platform_machine(value)
}

/// Calls `MarkerEnvironment::with_platform_system`, which sets
/// `platform_system` and leaves the other variables as they are.
#[verifier::external_body]
pub(crate) fn with_platform_system(env: MarkerEnvironment, value: &str) -> (updated:
    MarkerEnvironment)
    ensures
        marker_values(updated) == marker_values(env).insert(MarkerKey::PlatformSystem, value@),
{
    env.with_platform_system(value)
}

/// Calls `MarkerEnvironment::with_sys_platform`, which sets `sys_platform`
/// and leaves the other variables as they are.
#[verifier::external_body]
pub(crate) fn with_sys_platform(env: MarkerEnvironment, value: &str) -> (updated:
    MarkerEnvironment)
    ensures
        marker_values(updated) == marker_values(env).insert(MarkerKey::SysPlatform, value@),
{
    env.with_sys_platform(value)
}

/// Calls `MarkerEnvironment::with_platform_release`, which sets
/// `platform_release` and leaves the other variables as they are.
#[verifier::external_body]
pub(crate) fn with_platform_release(env: MarkerEnvironment, value: &str) -> (updated:
    MarkerEnvironment)
    ensures
        marker_values(updated) == marker_values(env).insert(MarkerKey::PlatformRelease, value@),
{
    env.with_platform_release(value)
}

/// Calls `MarkerEnvironment::with_platform_version`, which sets
/// `platform_version` and leaves the other variables as they are.
#[verifier::external_body]
pub(crate) fn with_platform_version(env: MarkerEnvironment, value: &str) -> (updated:
    MarkerEnvironment)
    ensures
        marker_values(updated) == marker_values(env).insert(MarkerKey::PlatformVersion, value@),
{
    env.with_platform_version(value)
}

/// Calls `MarkerEnvironment::with_python_version` with the version that
/// `Version::new` makes of the two release numbers. The variable's text is
/// then that version as it prints: the numbers in decimal, with a dot
/// between them. The other variables stay as they are.
#[verifier::external_body]
pub(crate) fn with_python_version(env: MarkerEnvironment, major: u8, minor: u8) -> (updated:
    MarkerEnvironment)
    ensures
        marker_values(updated) == marker_values(env).insert(
            MarkerKey::PythonVersion,
            version_text(major, minor),
        ),
{
    env.with_python_version(Version::new([u64::from(major), u64::from(minor)]))
}

/// Calls `MarkerEnvironment::with_python_full_version` with the version that
/// `Version::new` makes of the three release numbers. The variable's text is
/// then that version as it prints: the numbers in decimal, with dots
/// between them. The other variables stay as they are.
#[verifier::external_body]
pub(crate) fn with_python_full_version(
    env: MarkerEnvironment,
    major: u8,
    minor: u8,
    patch: u8,
) -> (updated: MarkerEnvironment)
    ensures
        marker_values(updated) == marker_values(env).insert(
            MarkerKey::PythonFullVersion,
            full_version_text(major, minor, patch),
        ),
{
    env.with_python_full_version(
        Version::new([u64::from(major), u64::from(minor), u64::from(patch)]),
    )
}

/// Calls `MarkerEnvironment::with_implementation_version` with the version
/// that `Version::new` makes of the three release numbers. The variable's
/// text is then that version as it prints: the numbers in decimal, with dots
/// between them. The other variables stay as they are.
#[verifier::external_body]
pub(crate) fn with_implementation_version(
    env: MarkerEnvironment,
    major: u8,
    minor: u8,
    patch: u8,
) -> (updated: MarkerEnvironment)
    ensures
        marker_values(updated) == marker_values(env).insert(
            MarkerKey::ImplementationVersion,
            full_version_text(major, minor, patch),
        ),
{
    env.with_implementation_version(
        Version::new([u64::from(major), u64::from(minor), u64::from(patch)]),
    )
}

} // verus!
