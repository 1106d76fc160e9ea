use std::borrow::Cow;

use target_env::resolution::{
    resolution_environment, resolution_markers, resolution_tags, Overrides,
};
use target_env::tags::from_generation;
use target_env::target::{InterpreterFacts, TargetPlatform, TargetVersion};
use uv_pep508::{CanonicalMarkerValueString, MarkerEnvironment, MarkerEnvironmentBuilder};
use uv_platform_tags::{AbiTag, Arch, LanguageTag, Os, Platform, Tags, TagsError, TagsOptions};

fn linux() -> Platform {
    Platform::new(Os::Manylinux { major: 2, minor: 17 }, Arch::X86_64)
}

fn macos() -> Platform {
    Platform::new(Os::Macos { major: 14, minor: 0 }, Arch::Aarch64)
}

fn host_markers(implementation: &str) -> MarkerEnvironment {
    MarkerEnvironment::try_from(MarkerEnvironmentBuilder {
        implementation_name: implementation,
        implementation_version: "3.11.4",
        os_name: "posix",
        platform_machine: "x86_64",
        platform_python_implementation: "CPython",
        platform_release: "6.5.0",
        platform_system: "Linux",
        platform_version: "#1 SMP",
        python_full_version: "3.11.4",
        python_version: "3.11",
        sys_platform: "linux",
    })
    .unwrap()
}

fn generate(
    platform: &Platform,
    version: (u8, u8),
    implementation: &str,
    manylinux_compatible: bool,
    gil_disabled: bool,
    is_cross: bool,
) -> Result<Tags, TagsError> {
    Tags::from_env(
        platform,
        version,
        implementation,
        (3, 11),
        TagsOptions {
            manylinux_compatible,
            gil_disabled,
            debug_enabled: false,
            is_cross,
        },
    )
}

fn facts_of(implementation: &str, gil_disabled: bool) -> InterpreterFacts {
    InterpreterFacts {
        platform: linux(),
        python_tuple: (3, 11),
        implementation_name: implementation.to_string(),
        implementation_tuple: (3, 11),
        manylinux_compatible: true,
        gil_disabled,
        tags: generate(&linux(), (3, 11), "cpython", true, false, false).unwrap(),
        markers: host_markers(implementation),
    }
}

fn facts() -> InterpreterFacts {
    facts_of("cpython", false)
}

fn mac_target() -> TargetPlatform {
    TargetPlatform {
        platform: macos(),
        manylinux_compatible: false,
        os_name: "posix".to_string(),
        platform_machine: "arm64".to_string(),
        platform_system: "Darwin".to_string(),
        sys_platform: "darwin".to_string(),
        platform_release: String::new(),
        platform_version: String::new(),
    }
}

fn linux_target(manylinux_compatible: bool) -> TargetPlatform {
    TargetPlatform {
        platform: linux(),
        manylinux_compatible,
        os_name: "posix".to_string(),
        platform_machine: "x86_64".to_string(),
        platform_system: "Linux".to_string(),
        sys_platform: "linux".to_string(),
        platform_release: String::new(),
        platform_version: String::new(),
    }
}

fn py(major: u8, minor: u8) -> TargetVersion {
    TargetVersion {
        major,
        minor,
        patch: None,
    }
}

#[test]
fn no_override_borrows_the_interpreters_own_tags() {
    let facts = facts();
    let tags = resolution_tags(None, None, &facts).unwrap();
    assert!(matches!(tags, Cow::Borrowed(_)));
    assert!(std::ptr::eq(tags.as_ref(), &facts.tags));
    assert_eq!(tags.to_string(), facts.tags.to_string());
    assert!(!tags.is_cross());
}

#[test]
fn no_override_never_fails() {
    let facts = facts_of("jython", true);
    let tags = resolution_tags(None, None, &facts).unwrap();
    assert!(std::ptr::eq(tags.as_ref(), &facts.tags));
    assert!(resolution_environment(None, None, &facts).is_ok());
}

#[test]
fn no_override_returns_the_interpreters_own_markers() {
    let facts = facts();
    assert_eq!(resolution_markers(None, None, &facts), facts.markers);
    let (tags, markers) = resolution_environment(None, None, &facts).unwrap();
    assert_eq!(markers, facts.markers);
    assert!(std::ptr::eq(tags.as_ref(), &facts.tags));
}

#[test]
fn version_override_generates_tags_for_that_version() {
    let facts = facts();
    let version = py(3, 9);
    let tags = resolution_tags(Some(&version), None, &facts).unwrap();
    assert!(matches!(tags, Cow::Owned(_)));
    assert_eq!(tags.python_version(), (3, 9));
    assert_eq!(tags.python_platform(), &linux());
    assert!(!tags.is_freethreaded());
    assert!(tags.is_cross());
    assert_eq!(
        tags.python_tag(),
        Some(LanguageTag::CPython {
            python_version: (3, 9)
        })
    );
    assert!(matches!(
        tags.abi_tag(),
        Some(AbiTag::CPython {
            python_version: (3, 9),
            ..
        })
    ));
    let expected = generate(&linux(), (3, 9), "cpython", true, false, true).unwrap();
    assert_eq!(tags.to_string(), expected.to_string());
    assert!(tags.to_string().starts_with("cp39-cp39-manylinux_2_17_x86_64\n"));
    assert!(tags.to_string().contains("cp39-abi3-linux_x86_64\n"));
    assert!(!tags.to_string().contains("cp311"));
    assert!(!tags.to_string().contains("cp310"));
}

#[test]
fn version_override_sets_the_version_markers_only() {
    let facts = facts();
    let version = py(3, 9);
    let markers = resolution_markers(Some(&version), None, &facts);
    assert_eq!(markers.python_version().string, "3.9");
    assert_eq!(markers.python_full_version().string, "3.9.0");
    assert_eq!(markers.implementation_version().string, "3.9.0");
    assert_eq!(markers.implementation_name(), "cpython");
    assert_eq!(markers.os_name(), "posix");
    assert_eq!(markers.platform_machine(), "x86_64");
    assert_eq!(markers.platform_python_implementation(), "CPython");
    assert_eq!(markers.platform_release(), "6.5.0");
    assert_eq!(markers.platform_system(), "Linux");
    assert_eq!(markers.get_string(CanonicalMarkerValueString::PlatformVersion), "#1 SMP");
    assert_eq!(markers.sys_platform(), "linux");
    assert_eq!(facts.markers, host_markers("cpython"));
}

#[test]
fn version_override_with_patch_and_two_digit_numbers() {
    let facts = facts();
    let version = TargetVersion {
        major: 3,
        minor: 12,
        patch: Some(10),
    };
    let markers = resolution_markers(Some(&version), None, &facts);
    assert_eq!(markers.python_version().string, "3.12");
    assert_eq!(markers.python_full_version().string, "3.12.10");
    assert_eq!(markers.implementation_version().string, "3.12.10");
    assert_eq!(version.major(), 3);
    assert_eq!(version.minor(), 12);
    assert_eq!(version.patch_or_zero(), 10);
    assert_eq!(py(3, 9).patch_or_zero(), 0);
    let extreme = TargetVersion {
        major: 255,
        minor: 0,
        patch: Some(200),
    };
    let markers = extreme.markers(&facts.markers);
    assert_eq!(markers.python_version().string, "255.0");
    assert_eq!(markers.python_full_version().string, "255.0.200");
}

#[test]
fn version_override_keeps_the_version_of_another_implementation() {
    let facts = facts_of("pypy", false);
    let markers = resolution_markers(Some(&py(3, 9)), None, &facts);
    assert_eq!(markers.python_version().string, "3.9");
    assert_eq!(markers.python_full_version().string, "3.9.0");
    assert_eq!(markers.implementation_version().string, "3.11.4");
    assert_eq!(markers.implementation_name(), "pypy");
}

#[test]
fn platform_override_generates_tags_for_that_platform() {
    let facts = facts();
    let target = mac_target();
    let tags = resolution_tags(None, Some(&target), &facts).unwrap();
    assert_eq!(tags.python_version(), (3, 11));
    assert_eq!(tags.python_platform(), &macos());
    assert!(tags.is_cross());
    let expected = generate(&macos(), (3, 11), "cpython", false, false, true).unwrap();
    assert_eq!(tags.to_string(), expected.to_string());
    assert!(tags.to_string().starts_with("cp311-cp311-macosx_14_0_arm64\n"));
    assert!(!tags.to_string().contains("linux"));
    assert_eq!(target.platform(), &macos());
    assert!(!target.manylinux_compatible());
}

#[test]
fn platform_override_sets_the_platform_markers_only() {
    let facts = facts();
    let markers = resolution_markers(None, Some(&mac_target()), &facts);
    assert_eq!(markers.os_name(), "posix");
    assert_eq!(markers.platform_machine(), "arm64");
    assert_eq!(markers.platform_system(), "Darwin");
    assert_eq!(markers.sys_platform(), "darwin");
    assert_eq!(markers.platform_release(), "");
    assert_eq!(markers.get_string(CanonicalMarkerValueString::PlatformVersion), "");
    assert_eq!(markers.python_version().string, "3.11");
    assert_eq!(markers.python_full_version().string, "3.11.4");
    assert_eq!(markers.implementation_version().string, "3.11.4");
    assert_eq!(markers.implementation_name(), "cpython");
    assert_eq!(markers.platform_python_implementation(), "CPython");
}

#[test]
fn platform_override_sets_each_marker_from_its_own_field() {
    let target = TargetPlatform {
        platform: linux(),
        manylinux_compatible: true,
        os_name: "a".to_string(),
        platform_machine: "b".to_string(),
        platform_system: "c".to_string(),
        sys_platform: "d".to_string(),
        platform_release: "e".to_string(),
        platform_version: "f".to_string(),
    };
    let markers = target.markers(&host_markers("cpython"));
    assert_eq!(markers.os_name(), "a");
    assert_eq!(markers.platform_machine(), "b");
    assert_eq!(markers.platform_system(), "c");
    assert_eq!(markers.sys_platform(), "d");
    assert_eq!(markers.platform_release(), "e");
    assert_eq!(markers.get_string(CanonicalMarkerValueString::PlatformVersion), "f");
}

#[test]
fn both_overrides_use_the_target_platform_and_version() {
    let facts = facts();
    let target = mac_target();
    let version = py(3, 13);
    let tags = resolution_tags(Some(&version), Some(&target), &facts).unwrap();
    assert_eq!(tags.python_version(), (3, 13));
    assert_eq!(tags.python_platform(), &macos());
    let expected = generate(&macos(), (3, 13), "cpython", false, false, true).unwrap();
    assert_eq!(tags.to_string(), expected.to_string());

    let markers = resolution_markers(Some(&version), Some(&target), &facts);
    assert_eq!(markers.python_version().string, "3.13");
    assert_eq!(markers.python_full_version().string, "3.13.0");
    assert_eq!(markers.implementation_version().string, "3.13.0");
    assert_eq!(markers.platform_system(), "Darwin");
    assert_eq!(markers.sys_platform(), "darwin");
    assert_eq!(markers.platform_machine(), "arm64");
    assert_eq!(markers.platform_release(), "");
    assert_eq!(markers, version.markers(&target.markers(&facts.markers)));
}

#[test]
fn manylinux_compatibility_comes_from_the_platform_override() {
    let facts = facts();
    let without = linux_target(false);
    let tags = resolution_tags(None, Some(&without), &facts).unwrap();
    assert!(!tags.to_string().contains("manylinux"));
    assert!(tags.to_string().starts_with("cp311-cp311-linux_x86_64\n"));
    let with = linux_target(true);
    let tags = resolution_tags(Some(&py(3, 11)), Some(&with), &facts).unwrap();
    assert!(tags.to_string().contains("manylinux_2_17_x86_64"));
}

#[test]
fn manylinux_compatibility_comes_from_the_facts_without_platform_override() {
    let mut facts = facts();
    facts.manylinux_compatible = false;
    let tags = resolution_tags(Some(&py(3, 9)), None, &facts).unwrap();
    assert!(!tags.to_string().contains("manylinux"));
    assert!(tags.to_string().starts_with("cp39-cp39-linux_x86_64\n"));
}

#[test]
fn implementation_is_always_the_interpreters_own() {
    let facts = facts_of("pypy", false);
    let target = mac_target();
    let version = py(3, 9);
    let cases = [
        (Some(&version), Some(&target)),
        (None, Some(&target)),
        (Some(&version), None),
    ];
    for (version, platform) in cases {
        let tags = resolution_tags(version, platform, &facts).unwrap();
        assert!(matches!(tags.python_tag(), Some(LanguageTag::PyPy { .. })));
        assert!(matches!(
            tags.abi_tag(),
            Some(AbiTag::PyPy {
                implementation_version: (3, 11),
                ..
            })
        ));
        assert!(!tags.is_freethreaded());
    }
}

#[test]
fn gil_state_is_always_the_interpreters_own() {
    let facts = facts_of("cpython", true);
    let target = mac_target();
    let version = py(3, 13);
    let cases = [
        (Some(&version), Some(&target)),
        (None, Some(&target)),
        (Some(&version), None),
    ];
    for (version, platform) in cases {
        let tags = resolution_tags(version, platform, &facts).unwrap();
        assert!(tags.is_freethreaded());
    }
    let tags = resolution_tags(Some(&version), None, &facts).unwrap();
    assert!(tags.to_string().starts_with("cp313-cp313t-"));
}

#[test]
fn unsupported_implementation_fails() {
    let facts = facts_of("jython", false);
    let failure = resolution_tags(Some(&py(3, 9)), None, &facts).unwrap_err();
    assert!(matches!(failure.cause, TagsError::UnsupportedImplementation(ref name) if name == "jython"));
    assert_eq!(failure.cause.to_string(), "Unsupported implementation: `jython`");
}

#[test]
fn unknown_implementation_fails() {
    let facts = facts_of("snake", false);
    let target = mac_target();
    let failure = resolution_tags(None, Some(&target), &facts).unwrap_err();
    assert!(matches!(failure.cause, TagsError::UnknownImplementation(ref name) if name == "snake"));
    let failure = resolution_environment(Some(py(3, 9)), Some(mac_target()), &facts).unwrap_err();
    assert!(matches!(failure.cause, TagsError::UnknownImplementation(_)));
}

#[test]
fn free_threading_of_another_implementation_fails() {
    let facts = facts_of("pypy", true);
    let failure = resolution_tags(Some(&py(3, 13)), None, &facts).unwrap_err();
    assert!(matches!(failure.cause, TagsError::GilIsACPythonProblem(ref name) if name == "pypy"));
}

#[test]
fn generation_outcome_becomes_the_result() {
    let tags = generate(&linux(), (3, 9), "cpython", true, false, true).unwrap();
    let text = tags.to_string();
    let result = from_generation(Ok(tags)).unwrap();
    assert!(matches!(result, Cow::Owned(_)));
    assert_eq!(result.to_string(), text);
    let error = generate(&linux(), (3, 9), "ironpython", true, false, true).unwrap_err();
    let failure = from_generation(Err(error)).unwrap_err();
    assert!(matches!(failure.cause, TagsError::UnsupportedImplementation(_)));
}

#[test]
fn environment_is_the_pair_of_tags_and_markers() {
    let facts = facts();
    let cases = [
        (Some(py(3, 9)), true),
        (None, true),
        (Some(py(3, 9)), false),
        (None, false),
    ];
    for (version, with_platform) in cases {
        let platform = if with_platform { Some(mac_target()) } else { None };
        let tags = resolution_tags(version.as_ref(), platform.as_ref(), &facts).unwrap();
        let markers = resolution_markers(version.as_ref(), platform.as_ref(), &facts);
        let both_platform = if with_platform { Some(mac_target()) } else { None };
        let (both_tags, both_markers) =
            resolution_environment(version, both_platform, &facts).unwrap();
        assert_eq!(both_tags.to_string(), tags.to_string());
        assert_eq!(both_tags.python_version(), tags.python_version());
        assert_eq!(both_tags.python_platform(), tags.python_platform());
        assert_eq!(both_tags.is_cross(), tags.is_cross());
        assert_eq!(
            matches!(both_tags, Cow::Borrowed(_)),
            matches!(tags, Cow::Borrowed(_))
        );
        assert_eq!(both_markers, markers);
    }
}

#[test]
fn environment_fails_where_the_tags_fail() {
    let facts = facts_of("jython", false);
    for version in [Some(py(3, 9)), None] {
        for with_platform in [true, false] {
            let platform = if with_platform { Some(mac_target()) } else { None };
            let tags = resolution_tags(version.as_ref(), platform.as_ref(), &facts);
            let both_platform = if with_platform { Some(mac_target()) } else { None };
            let both = resolution_environment(version, both_platform, &facts);
            assert_eq!(both.is_ok(), tags.is_ok());
            assert_eq!(tags.is_ok(), version.is_none() && !with_platform);
            if let (Err(a), Err(b)) = (tags, both) {
                assert_eq!(a.cause.to_string(), b.cause.to_string());
            }
        }
    }
}

#[test]
fn overrides_tell_the_four_combinations_apart() {
    let version = py(3, 9);
    let platform = mac_target();
    assert!(matches!(
        Overrides::of(Some(&version), Some(&platform)),
        Overrides::Both(p, v) if std::ptr::eq(p, &platform) && std::ptr::eq(v, &version)
    ));
    assert!(matches!(
        Overrides::of(None, Some(&platform)),
        Overrides::PlatformOnly(p) if std::ptr::eq(p, &platform)
    ));
    assert!(matches!(
        Overrides::of(Some(&version), None),
        Overrides::VersionOnly(v) if std::ptr::eq(v, &version)
    ));
    assert!(matches!(Overrides::of(None, None), Overrides::Neither));
}
