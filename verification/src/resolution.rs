//! The tags and the markers to resolve with, for a target that may differ
//! from the running interpreter.
//!
//! A target version replaces the interpreter's version, a target platform
//! replaces its platform and its manylinux compatibility. The identity of
//! the implementation and the state of its global interpreter lock are
//! always the interpreter's own. With no override at all, the interpreter's
//! own tags and markers are handed out as they are.

use vstd::prelude::*;
use std::borrow::Cow;
use uv_pep508::MarkerEnvironment;
use uv_platform_tags::Tags;
use crate::markers::{clone_markers, marker_values, version_text, MarkerKey};
use crate::tags::{
    from_generation, generation_result, tags_from_env, target_tags, TagInputs, TagsFailure,
};
use crate::target::{InterpreterFacts, TargetPlatform, TargetVersion};

verus! {

/// The value behind an optional reference.
pub open spec fn owned<T>(value: Option<&T>) -> Option<T> {
    match value {
        Some(inner) => Some(*inner),
        None => None,
    }
}

/// Which of the two overrides are given, with what they hold.
pub enum Overrides<'a> {
    /// A target platform and a target version.
    Both(&'a TargetPlatform, &'a TargetVersion),
    /// A target platform only.
    PlatformOnly(&'a TargetPlatform),
    /// A target version only.
    VersionOnly(&'a TargetVersion),
    /// No override: the target is the running interpreter.
    Neither,
}

impl<'a> Overrides<'a> {
    /// The target version, where one is given.
    pub open spec fn version(self) -> Option<TargetVersion> {
        match self {
            Overrides::Both(_, version) => Some(*version),
            Overrides::VersionOnly(version) => Some(*version),
            _ => None,
        }
    }

    /// The target platform, where one is given.
    pub open spec fn platform(self) -> Option<TargetPlatform> {
        match self {
            Overrides::Both(platform, _) => Some(*platform),
            Overrides::PlatformOnly(platform) => Some(*platform),
            _ => None,
        }
    }

    /// Tells the four combinations of the two overrides apart. Each
    /// override is kept as it is given, whatever the other is.
    pub fn of(version: Option<&'a TargetVersion>, platform: Option<&'a TargetPlatform>) -> (which:
        Self)
        ensures
            which.version() == owned(version),
            which.platform() == owned(platform),
            which is Both <==> version is Some && platform is Some,
            which is PlatformOnly <==> version is None && platform is Some,
            which is VersionOnly <==> version is Some && platform is None,
            which is Neither <==> version is None && platform is None,
    {
        match (platform, version) {
            (Some(platform), Some(version)) => Overrides::Both(platform, version),
            (Some(platform), None) => Overrides::PlatformOnly(platform),
            (None, Some(version)) => Overrides::VersionOnly(version),
            (None, None) => Overrides::Neither,
        }
    }
}

/// What the generation of tags is handed for a target: the platform and its
/// manylinux compatibility from the target platform where there is one, the
/// version from the target version where there is one, and everything else
/// from the interpreter.
pub open spec fn tag_inputs(
    version: Option<TargetVersion>,
    platform: Option<TargetPlatform>,
    facts: InterpreterFacts,
) -> TagInputs {
    TagInputs {
        platform: match platform {
            Some(target) => target.platform,
            None => facts.platform,
        },
        python_version: match version {
            Some(target) => (target.major, target.minor),
            None => facts.python_tuple,
        },
        implementation_name: facts.implementation_name@,
        implementation_tuple: facts.implementation_tuple,
        manylinux_compatible: match platform {
            Some(target) => target.manylinux_compatible,
            None => facts.manylinux_compatible,
        },
        gil_disabled: facts.gil_disabled,
    }
}

/// The tags to resolve with: the interpreter's own, borrowed, where nothing
/// is overridden, and otherwise what the generation yields for the target.
pub open spec fn resolved_tags<'env>(
    version: Option<TargetVersion>,
    platform: Option<TargetPlatform>,
    facts: &'env InterpreterFacts,
) -> Result<Cow<'env, Tags>, TagsFailure> {
    if version is None && platform is None {
        Ok(Cow::Borrowed(&facts.tags))
    } else {
        generation_result(target_tags(tag_inputs(version, platform, *facts)))
    }
}

/// The marker values to resolve with: the interpreter's own, with the target
/// platform layered on top where there is one, and the target version
/// layered on top of that where there is one.
pub open spec fn resolved_marker_values(
    version: Option<TargetVersion>,
    platform: Option<TargetPlatform>,
    facts: InterpreterFacts,
) -> Map<MarkerKey, Seq<char>> {
    let base = marker_values(facts.markers);
    let on_platform = match platform {
        Some(target) => target.overlay(base),
        None => base,
    };
    match version {
        Some(target) => target.overlay(on_platform),
        None => on_platform,
    }
}

/// Whether `markers` is the marker environment to resolve with: it holds the
/// resolved values, and with no override it is the interpreter's own
/// environment itself.
pub open spec fn is_resolved_markers(
    version: Option<TargetVersion>,
    platform: Option<TargetPlatform>,
    facts: InterpreterFacts,
    markers: MarkerEnvironment,
) -> bool {
    &&& marker_values(markers) == resolved_marker_values(version, platform, facts)
    &&& version is None && platform is None ==> markers == facts.markers
}

/// Whether `result` is the pair of the tags and the markers to resolve
/// with, or the failure to generate the tags.
pub open spec fn is_resolved_environment<'env>(
    version: Option<TargetVersion>,
    platform: Option<TargetPlatform>,
    facts: &'env InterpreterFacts,
    result: Result<(Cow<'env, Tags>, MarkerEnvironment), TagsFailure>,
) -> bool {
    match result {
        Ok((tags, markers)) => {
            &&& resolved_tags(version, platform, facts) == Ok::<Cow<'env, Tags>, TagsFailure>(tags)
            &&& is_resolved_markers(version, platform, *facts, markers)
        },
        Err(failure) => resolved_tags(version, platform, facts) == Err::<
            Cow<'env, Tags>,
            TagsFailure,
        >(failure),
    }
}

/// Determine the markers to use for resolution.
///
/// No case can fail: the markers are the interpreter's own with the
/// overrides layered on top, the platform first and the version last.
pub fn resolution_markers(
    python_version: Option<&TargetVersion>,
    python_platform: Option<&TargetPlatform>,
    interpreter: &InterpreterFacts,
) -> (markers: MarkerEnvironment)
    ensures
        is_resolved_markers(owned(python_version), owned(python_platform), *interpreter, markers),
{
    match Overrides::of(python_version, python_platform) {
        Overrides::Both(python_platform, python_version) => python_version.markers(
            &python_platform.markers(&interpreter.markers),
        ),
        Overrides::PlatformOnly(python_platform) => python_platform.markers(&interpreter.markers),
        Overrides::VersionOnly(python_version) => python_version.markers(&interpreter.markers),
        Overrides::Neither => clone_markers(&interpreter.markers),
    }
}

/// Determine the tags to use for resolution.
///
/// With no override the interpreter's own tags are borrowed and nothing is
/// generated, so that case never fails. Otherwise the tags are generated
/// for the target, and a failure to do so is returned as it is.
pub fn resolution_tags<'env>(
    python_version: Option<&TargetVersion>,
    python_platform: Option<&TargetPlatform>,
    interpreter: &'env InterpreterFacts,
) -> (result: Result<Cow<'env, Tags>, TagsFailure>)
    ensures
        result == resolved_tags(owned(python_version), owned(python_platform), interpreter),
        python_version is None && python_platform is None ==> result == Ok::<
            Cow<'env, Tags>,
            TagsFailure,
        >(Cow::Borrowed(&interpreter.tags)),
{
    match Overrides::of(python_version, python_platform) {
        Overrides::Both(python_platform, python_version) => from_generation(
            tags_from_env(
                python_platform.platform(),
                (python_version.major(), python_version.minor()),
                interpreter.implementation_name.as_str(),
                interpreter.implementation_tuple,
                python_platform.manylinux_compatible(),
                interpreter.gil_disabled,
                false,
                true,
            ),
        ),
        Overrides::PlatformOnly(python_platform) => from_generation(
            tags_from_env(
                python_platform.platform(),
                interpreter.python_tuple,
                interpreter.implementation_name.as_str(),
                interpreter.implementation_tuple,
                python_platform.manylinux_compatible(),
                interpreter.gil_disabled,
                false,
                true,
            ),
        ),
        Overrides::VersionOnly(python_version) => from_generation(
            tags_from_env(
                &interpreter.platform,
                (python_version.major(), python_version.minor()),
                interpreter.implementation_name.as_str(),
                interpreter.implementation_tuple,
                interpreter.manylinux_compatible,
                interpreter.gil_disabled,
                false,
                true,
            ),
        ),
        Overrides::Neither => Ok(Cow::Borrowed(&interpreter.tags)),
    }
}

/// Determine the tags, markers, and interpreter to use for resolution.
///
/// The result is the pair of what [`resolution_tags`] and
/// [`resolution_markers`] return for the same arguments, and it fails
/// exactly where the tags cannot be generated.
pub fn resolution_environment(
    python_version: Option<TargetVersion>,
    python_platform: Option<TargetPlatform>,
    interpreter: &InterpreterFacts,
) -> (result: Result<(Cow<'_, Tags>, MarkerEnvironment), TagsFailure>)
    ensures
        is_resolved_environment(python_version, python_platform, interpreter, result),
{
    let tags = match resolution_tags(python_version.as_ref(), python_platform.as_ref(), interpreter) {
        Ok(tags) => tags,
        Err(failure) => {
            return Err(failure);
        },
    };
    let markers = resolution_markers(
        python_version.as_ref(),
        python_platform.as_ref(),
        interpreter,
    );
    Ok((tags, markers))
}

/// With no override, the tags to resolve with are the interpreter's own
/// tags themselves, borrowed from the facts, and the resolution cannot fail.
pub proof fn lemma_default_tags_are_the_interpreters_own<'env>(facts: &'env InterpreterFacts)
    ensures
        resolved_tags(None, None, facts) == Ok::<Cow<'env, Tags>, TagsFailure>(
            Cow::Borrowed(&facts.tags),
        ),
{
}

/// With no override, the marker values to resolve with are the
/// interpreter's own, and so is every environment that the resolution may
/// return.
pub proof fn lemma_default_markers_are_the_interpreters_own(
    facts: InterpreterFacts,
    markers: MarkerEnvironment,
)
    requires
        is_resolved_markers(None, None, facts, markers),
    ensures
        markers == facts.markers,
        resolved_marker_values(None, None, facts) == marker_values(facts.markers),
{
}

/// Whatever is overridden, the tags are generated with the interpreter's
/// own implementation name, implementation version and state of the global
/// interpreter lock.
pub proof fn lemma_implementation_is_the_interpreters_own(
    version: Option<TargetVersion>,
    platform: Option<TargetPlatform>,
    facts: InterpreterFacts,
)
    ensures
        tag_inputs(version, platform, facts).implementation_name == facts.implementation_name@,
        tag_inputs(version, platform, facts).implementation_tuple == facts.implementation_tuple,
        tag_inputs(version, platform, facts).gil_disabled == facts.gil_disabled,
{
}

/// The version and the platform that the tags are generated for are the
/// target's where it gives one and the interpreter's own where it does not,
/// each independently of the other.
pub proof fn lemma_overrides_are_independent(
    version: Option<TargetVersion>,
    platform: Option<TargetPlatform>,
    facts: InterpreterFacts,
)
    ensures
        tag_inputs(version, platform, facts).python_version == tag_inputs(
            version,
            None,
            facts,
        ).python_version,
        tag_inputs(version, platform, facts).platform == tag_inputs(
            None,
            platform,
            facts,
        ).platform,
        tag_inputs(version, platform, facts).manylinux_compatible == tag_inputs(
            None,
            platform,
            facts,
        ).manylinux_compatible,
        version is None ==> tag_inputs(version, platform, facts).python_version
            == facts.python_tuple,
        platform is None ==> tag_inputs(version, platform, facts).platform == facts.platform,
        platform is None ==> tag_inputs(version, platform, facts).manylinux_compatible
            == facts.manylinux_compatible,
{
}

/// The combined resolution is the pair of the two single ones: whatever
/// override is given, it succeeds exactly where the resolution of the tags
/// does, with the same tags or the same failure, and its markers hold the
/// same values as those that the resolution of the markers returns; with no
/// override the two environments are the same.
pub proof fn lemma_environment_is_the_pair<'env>(
    version: Option<TargetVersion>,
    platform: Option<TargetPlatform>,
    facts: &'env InterpreterFacts,
    tags: Result<Cow<'env, Tags>, TagsFailure>,
    markers: MarkerEnvironment,
    environment: Result<(Cow<'env, Tags>, MarkerEnvironment), TagsFailure>,
)
    requires
        tags == resolved_tags(version, platform, facts),
        is_resolved_markers(version, platform, *facts, markers),
        is_resolved_environment(version, platform, facts, environment),
    ensures
        match environment {
            Ok(pair) => {
                &&& tags == Ok::<Cow<'env, Tags>, TagsFailure>(pair.0)
                &&& marker_values(pair.1) == marker_values(markers)
                &&& version is None && platform is None ==> pair.1 == markers
            },
            Err(failure) => tags == Err::<Cow<'env, Tags>, TagsFailure>(failure),
        },
{
}

/// A target version alone changes the version markers, and the
/// implementation version of CPython, and nothing else: every other marker
/// value is the interpreter's own.
pub proof fn lemma_version_keeps_the_platform_markers(
    version: TargetVersion,
    facts: InterpreterFacts,
    key: MarkerKey,
)
    requires
        !(key is PythonVersion),
        !(key is PythonFullVersion),
        !(key is ImplementationVersion),
    ensures
        resolved_marker_values(Some(version), None, facts)[key] == marker_values(
            facts.markers,
        )[key],
        resolved_marker_values(Some(version), None, facts)[MarkerKey::PythonVersion]
            == version_text(version.major, version.minor),
{
}

} // verus!
