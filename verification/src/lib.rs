//! Enlarges the fixed-size resource limits that are compiled into a loaded
//! executable image, by rewriting the 32-bit immediates that encode them.
//!
//! The image is modelled as a sequence of bytes indexed by offset from the
//! image base. Every operation of the patch engine is stated as a function
//! on that sequence, so that what a patch pass leaves in the image is known
//! exactly, including when it stops early.
//!
//! * `image`: words in the image, and the layout that resolves an offset.
//! * `scaling`: saturating scale arithmetic.
//! * `config`: the scale factors and switches, and their normal form.
//! * `version`: the version guard.
//! * `plan`: sites, operations, and what a pass over a plan leaves.
//! * `expansion`: the constants of an enlarged fixed-capacity container.
//! * `catalogue`: the sites of the known build.
//! * `patches`: the engine that runs a plan against the image.
//! * `exports`: finding the module's own path.

pub mod catalogue;
pub mod config;
pub mod expansion;
pub mod exports;
pub mod image;
pub mod patches;
pub mod plan;
pub mod scaling;
pub mod version;

use vstd::prelude::*;
use crate::config::Config;
use crate::patches::{askable, place_all, placed, PatchError};
use crate::version::{file_version, resource_bytes, verify, Version, VersionError};

verus! {

/// Whether a version resource is that of the known build.
pub open spec fn is_known_build(resource: Option<Seq<u8>>) -> bool {
    file_version(resource) == Ok::<Version, VersionError>(Version::known())
}

/// Whether `image_after` and `result` are a possible outcome of attaching
/// to an image: nothing is written and `VersionMismatch` is the result
/// unless the image is the known build, and then the standard plan is
/// placed.
pub open spec fn attached<F: Fn(usize, usize) -> bool>(
    toggler: &F,
    config: Config,
    resource: Option<Seq<u8>>,
    base: Option<usize>,
    image: Seq<u8>,
    image_after: Seq<u8>,
    result: Result<(), PatchError>,
) -> bool {
    if is_known_build(resource) {
        placed(toggler, config, base, image, image_after, result)
    } else {
        result == Err::<(), PatchError>(PatchError::VersionMismatch) && image_after == image
    }
}

/// Attaches to the image: consults the version guard once, and only if the
/// image is the known build places the standard plan for `config` into it.
/// `resource` is the image's version resource, if it has one; `base` is the
/// address of the image's first byte, if it is known; `toggler` makes a span
/// of addresses writable, or says that it cannot.
pub fn attach<F: Fn(usize, usize) -> bool>(
    config: &Config,
    resource: Option<&[u8]>,
    base: Option<usize>,
    image: &mut [u8],
    toggler: &F,
) -> (result: Result<(), PatchError>)
    requires
        askable(toggler),
    ensures
        attached(
            toggler,
            *config,
            resource_bytes(resource),
            base,
            old(image)@,
            final(image)@,
            result,
        ),
{
    if !verify(resource) {
        return Err(PatchError::VersionMismatch);
    }
    place_all(config, base, image, toggler)
}

/// Attaches to the image and says whether the whole plan was placed.
pub fn init_dll<F: Fn(usize, usize) -> bool>(
    config: &Config,
    resource: Option<&[u8]>,
    base: Option<usize>,
    image: &mut [u8],
    toggler: &F,
) -> (ok: bool)
    requires
        askable(toggler),
    ensures
        ok ==> attached(
            toggler,
            *config,
            resource_bytes(resource),
            base,
            old(image)@,
            final(image)@,
            Ok::<(), PatchError>(()),
        ),
        !ok ==> exists|error: PatchError| #[trigger]
            attached(
                toggler,
                *config,
                resource_bytes(resource),
                base,
                old(image)@,
                final(image)@,
                Err::<(), PatchError>(error),
            ),
        !is_known_build(resource_bytes(resource)) ==> !ok && final(image)@ == old(image)@,
{
    match attach(config, resource, base, image, toggler) {
        Ok(_) => true,
        Err(_) => false,
    }
}

} // verus!
