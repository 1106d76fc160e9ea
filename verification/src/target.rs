//! The facts and the overrides that a resolution starts from.
//!
//! The facts describe the running interpreter. A target version and a target
//! platform may each replace what the facts say; either, both or neither may
//! be given. Each override also layers its own marker values on top of a
//! marker environment.

use vstd::prelude::*;
use uv_pep508::MarkerEnvironment;
use uv_platform_tags::{Platform, Tags};
use crate::chars::same_text;
use crate::markers::{
    clone_markers, full_version_text, implementation_name, marker_values, version_text,
    with_implementation_version, with_os_name, with_platform_machine, with_platform_release,
    with_platform_system, with_platform_version, with_python_full_version, with_python_version,
    with_sys_platform, MarkerKey,
};

verus! {

/// A snapshot of the running interpreter. The tags and the markers are the
/// interpreter's own defaults, computed beforehand.
pub struct InterpreterFacts {
    /// The platform that the interpreter runs on.
    pub platform: Platform,
    /// The interpreter's own major and minor version.
    pub python_tuple: (u8, u8),
    /// The name of the Python implementation, such as `cpython`.
    pub implementation_name: String,
    /// The major and minor version of the implementation.
    pub implementation_tuple: (u8, u8),
    /// Whether the host takes manylinux wheels.
    pub manylinux_compatible: bool,
    /// Whether the interpreter runs without a global interpreter lock.
    pub gil_disabled: bool,
    /// The interpreter's own tags.
    pub tags: Tags,
    /// The interpreter's own marker environment.
    pub markers: MarkerEnvironment,
}

/// A Python version to resolve for, in place of the interpreter's own.
#[derive(Debug, Clone, Copy)]
pub struct TargetVersion {
    pub major: u8,
    pub minor: u8,
    /// The patch version, where one was asked for.
    pub patch: Option<u8>,
}

impl TargetVersion {
    /// The patch version, taken as zero where none was asked for.
    pub open spec fn spec_patch_or_zero(self) -> u8 {
        match self.patch {
            Some(patch) => patch,
            None => 0u8,
        }
    }

    /// The marker values with this version layered on top of `base`:
    /// `python_version` and `python_full_version` are this version's, and so
    /// is `implementation_version` where the implementation is CPython,
    /// whose version is that of the language. The rest is `base`.
    pub open spec fn overlay(self, base: Map<MarkerKey, Seq<char>>) -> Map<MarkerKey, Seq<char>> {
        let full = full_version_text(self.major, self.minor, self.spec_patch_or_zero());
        let implementation = if base[MarkerKey::ImplementationName] == "cpython"@ {
            base.insert(MarkerKey::ImplementationVersion, full)
        } else {
            base
        };
        implementation.insert(MarkerKey::PythonFullVersion, full).insert(
            MarkerKey::PythonVersion,
            version_text(self.major, self.minor),
        )
    }

    /// The major version.
    pub fn major(&self) -> (major: u8)
        ensures
            major == self.major,
    {
        self.major
    }

    /// The minor version.
    pub fn minor(&self) -> (minor: u8)
        ensures
            minor == self.minor,
    {
        self.minor
    }

    /// The patch version, taken as zero where none was asked for.
    pub fn patch_or_zero(&self) -> (patch: u8)
        ensures
            patch == self.spec_patch_or_zero(),
    {
        match self.patch {
            Some(patch) => patch,
            None => 0,
        }
    }

    /// Layers this version on top of `base`, which is left untouched.
    pub fn markers(&self, base: &MarkerEnvironment) -> (layered: MarkerEnvironment)
        ensures
            marker_values(layered) == self.overlay(marker_values(*base)),
    {
        let patch = self.patch_or_zero();
        let mut layered = clone_markers(base);
        if same_text(implementation_name(base), "cpython") {
            layered = with_implementation_version(layered, self.major, self.minor, patch);
        }
        layered = with_python_full_version(layered, self.major, self.minor, patch);
        with_python_version(layered, self.major, self.minor)
    }
}

/// A platform to resolve for, in place of the interpreter's own.
pub struct TargetPlatform {
    /// The platform that tags are generated for.
    pub platform: Platform,
    /// Whether the target takes manylinux wheels.
    pub manylinux_compatible: bool,
    /// The target's `os.name`.
    pub os_name: String,
    /// The target's `platform.machine()`.
    pub platform_machine: String,
    /// The target's `platform.system()`.
    pub platform_system: String,
    /// The target's `sys.platform`.
    pub sys_platform: String,
    /// The target's `platform.release()`.
    pub platform_release: String,
    /// The target's `platform.version()`.
    pub platform_version: String,
}

impl TargetPlatform {
    /// The marker values with this platform layered on top of `base`: the
    /// six variables that describe the operating system and the machine are
    /// this platform's. The rest is `base`.
    pub open spec fn overlay(self, base: Map<MarkerKey, Seq<char>>) -> Map<MarkerKey, Seq<char>> {
        base.insert(MarkerKey::OsName, self.os_name@).insert(
            MarkerKey::PlatformMachine,
            self.platform_machine@,
        ).insert(MarkerKey::PlatformSystem, self.platform_system@).insert(
            MarkerKey::SysPlatform,
            self.sys_platform@,
        ).insert(MarkerKey::PlatformRelease, self.platform_release@).insert(
            MarkerKey::PlatformVersion,
            self.platform_version@,
        )
    }

    /// The platform that tags are generated for.
    pub fn platform(&self) -> (platform: &Platform)
        ensures
            *platform == self.platform,
    {
        &self.platform
    }

    /// Whether the target takes manylinux wheels.
    pub fn manylinux_compatible(&self) -> (compatible: bool)
        ensures
            compatible == self.manylinux_compatible,
    {
        self.manylinux_compatible
    }

    /// Layers this platform on top of `base`, which is left untouched.
    pub fn markers(&self, base: &MarkerEnvironment) -> (layered: MarkerEnvironment)
        ensures
            marker_values(layered) == self.overlay(marker_values(*base)),
    {
        let layered = clone_markers(base);
        let layered = with_os_name(layered, self.os_name.as_str());
        let layered = with_platform_machine(layered, self.platform_machine.as_str());
        let layered = with_platform_system(layered, self.platform_system.as_str());
        let layered = with_sys_platform(layered, self.sys_platform.as_str());
        let layered = with_platform_release(layered, self.platform_release.as_str());
        with_platform_version(layered, self.platform_version.as_str())
    }
}

} // verus!
