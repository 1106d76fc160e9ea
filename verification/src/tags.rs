//! Compatibility tags: the ordered list of wheel tags that an environment
//! accepts, most specific first.
//!
//! The list is `uv_platform_tags::Tags`, and `Tags::from_env` generates it.
//! This module gives the generation a name, so that the resolution can say
//! exactly what it hands to it, and turns its outcome into the library's own
//! result.

use vstd::prelude::*;
use std::borrow::Cow;
use uv_platform_tags::{Platform, Tags, TagsError, TagsOptions};

verus! {

/// `uv_platform_tags::Tags`, the ordered list of tags. The verifier sees
/// nothing inside it: a value is only carried through.
#[verifier::external_type_specification]
#[verifier::external_body]
pub struct ExTags(uv_platform_tags::Tags);

/// `uv_platform_tags::TagsError`, the reason why no tags were generated.
/// The verifier sees nothing inside it: a value is only carried through.
#[verifier::external_type_specification]
#[verifier::external_body]
pub struct ExTagsError(uv_platform_tags::TagsError);

/// `uv_platform_tags::Platform`, an operating system with an architecture.
/// The verifier sees nothing inside it: a value is only carried through.
#[verifier::external_type_specification]
#[verifier::external_body]
pub struct ExPlatform(uv_platform_tags::Platform);

/// What the generation of tags is handed: the platform and whether it takes
/// manylinux wheels, the Python version, and the identity of the
/// implementation with the state of its global interpreter lock.
pub struct TagInputs {
    pub platform: Platform,
    pub python_version: (u8, u8),
    pub implementation_name: Seq<char>,
    pub implementation_tuple: (u8, u8),
    pub manylinux_compatible: bool,
    pub gil_disabled: bool,
}

/// The outcome of `Tags::from_env` on the given platform, Python version,
/// implementation name and version, and options: the tags, or the reason
/// why there are none.
pub uninterp spec fn generated_tags(
    platform: Platform,
    python_version: (u8, u8),
    implementation_name: Seq<char>,
    implementation_version: (u8, u8),
    manylinux_compatible: bool,
    gil_disabled: bool,
    debug_enabled: bool,
    is_cross: bool,
) -> Result<Tags, TagsError>;

/// Calls `Tags::from_env` with the four options as given. The contract only
/// names the outcome: it is a function of the arguments alone.
#[verifier::external_body]
pub(crate) fn tags_from_env(
    platform: &Platform,
    python_version: (u8, u8),
    implementation_name: &str,
    implementation_version: (u8, u8),
    manylinux_compatible: bool,
    gil_disabled: bool,
    debug_enabled: bool,
    is_cross: bool,
) -> (outcome: Result<Tags, TagsError>)
    ensures
        outcome == generated_tags(
            *platform,
            python_version,
            implementation_name@,
            implementation_version,
            manylinux_compatible,
            gil_disabled,
            debug_enabled,
            is_cross,
        ),
{
    let options = TagsOptions { manylinux_compatible, gil_disabled, debug_enabled, is_cross };
    Tags::from_env(
        platform,
        python_version,
        implementation_name,
        implementation_version,
        options,
    )
}

/// A failure to generate tags: the requested combination of platform,
/// version and implementation has no valid set of tags.
#[derive(Debug)]
pub struct TagsFailure {
    /// Why the generation failed.
    pub cause: TagsError,
}

/// The tags for a target that differs from the running interpreter, as the
/// generation yields them for `inputs`. Such a target is never a debug
/// build, and its tags are marked as made for another interpreter.
pub open spec fn target_tags(inputs: TagInputs) -> Result<Tags, TagsError> {
    generated_tags(
        inputs.platform,
        inputs.python_version,
        inputs.implementation_name,
        inputs.implementation_tuple,
        inputs.manylinux_compatible,
        inputs.gil_disabled,
        false,
        true,
    )
}

/// The resolution's result for an outcome of the generation: the generated
/// tags as an owned list, or the failure with its cause.
pub open spec fn generation_result<'a>(outcome: Result<Tags, TagsError>) -> Result<
    Cow<'a, Tags>,
    TagsFailure,
> {
    match outcome {
        Ok(tags) => Ok(Cow::Owned(tags)),
        Err(cause) => Err(TagsFailure { cause }),
    }
}

/// Turns an outcome of the generation into the resolution's result: the
/// tags are handed on as they are, an error becomes a [`TagsFailure`] that
/// holds it.
pub fn from_generation<'a>(outcome: Result<Tags, TagsError>) -> (result: Result<
    Cow<'a, Tags>,
    TagsFailure,
>)
    ensures
        result == generation_result::<'a>(outcome),
{
    match outcome {
        Ok(tags) => Ok(Cow::Owned(tags)),
        Err(cause) => Err(TagsFailure { cause }),
    }
}

} // verus!
