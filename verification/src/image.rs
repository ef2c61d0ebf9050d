//! Image cache gate: deciding whether the sandbox base image must be rebuilt
//! from its recipe, by comparing the recipe's content digest against the
//! digest persisted after the last successful build.

use crate::identity::{hex_of, sha256_of};
use vstd::prelude::*;

verus! {

/// Tag under which the sandbox base image is stored in the runtime.
pub const IMAGE_NAME: &'static str = "ai-pod:latest";

/// Full lowercase hex digest of a recipe's content.
pub open spec fn spec_recipe_digest(content: Seq<u8>) -> Seq<char> {
    hex_of(sha256_of(content))
}

/// Computes the content digest of a build recipe.
pub fn hash_recipe(content: &[u8]) -> (r: String)
    ensures
        r@ == spec_recipe_digest(content@),
{
    let digest = crate::identity::sha256(content);
    crate::identity::hex_lower(digest.as_slice())
}

/// Whether the image must be (re)built: always under force; otherwise
/// whenever the image is missing, no digest was persisted, or the persisted
/// digest differs from the current recipe digest.
pub open spec fn spec_needs_build(
    force: bool,
    image_exists: bool,
    stored: Option<Seq<char>>,
    current: Seq<char>,
) -> bool {
    force || !image_exists || stored is None || stored.unwrap() != current
}

/// The image cache gate. `stored` is the persisted digest record, if any;
/// `current` is the digest of the recipe as it stands now.
pub fn needs_build(force: bool, image_exists: bool, stored: &Option<String>, current: &String) -> (r:
    bool)
    ensures
        r == spec_needs_build(force, image_exists, stored.deep_view(), current@),
        force ==> r,
        !force ==> (!r <==> image_exists && stored.deep_view() == Some(current@)),
{
    if force {
        true
    } else if !image_exists {
        true
    } else {
        match stored {
            Some(s) => !crate::text::str_eq(s.as_str(), current.as_str()),
            None => true,
        }
    }
}

/// Round trip of the cache gate: a successful build persists the digest of
/// the recipe it was built from, and an immediate re-check with the image
/// present and the recipe unchanged reports that no rebuild is needed.
pub proof fn lemma_build_round_trip(digest: Seq<char>)
    ensures
        !spec_needs_build(false, true, Some(digest), digest),
{
}

/// Any recipe drift is caught: with no force, a rebuild is skipped only when
/// the persisted digest equals the current one exactly.
pub proof fn lemma_gate_conservative(
    image_exists: bool,
    stored: Option<Seq<char>>,
    current: Seq<char>,
)
    requires
        stored != Some(current),
    ensures
        spec_needs_build(false, image_exists, stored, current),
{
}

/// Command line for building the image from its recipe.
pub fn build_args(dockerfile_path: &str, context_dir: &str) -> (r: Vec<String>)
    ensures
        r@.len() == 6,
        r@[0]@ == "build"@,
        r@[1]@ == "-t"@,
        r@[2]@ == IMAGE_NAME@,
        r@[3]@ == "-f"@,
        r@[4]@ == dockerfile_path@,
        r@[5]@ == context_dir@,
{
    let mut v: Vec<String> = Vec::new();
    v.push("build".to_owned());
    v.push("-t".to_owned());
    v.push(IMAGE_NAME.to_owned());
    v.push("-f".to_owned());
    v.push(dockerfile_path.to_owned());
    v.push(context_dir.to_owned());
    v
}

/// Command line for querying whether the image exists.
pub fn image_exists_args() -> (r: Vec<String>)
    ensures
        r@.len() == 3,
        r@[0]@ == "image"@,
        r@[1]@ == "exists"@,
        r@[2]@ == IMAGE_NAME@,
{
    let mut v: Vec<String> = Vec::new();
    v.push("image".to_owned());
    v.push("exists".to_owned());
    v.push(IMAGE_NAME.to_owned());
    v
}

} // verus!
