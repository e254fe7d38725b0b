//! Scene presets by name.
//!
//! The presets themselves — sphere positions, materials, cameras — are
//! floating-point tables authored outside this crate; here stands the
//! identifier that selects one, and its parser.

use vstd::prelude::*;

verus! {

use vstd::string::StringExecFns;

/// Identifier of one of the hand-authored scene presets.
#[derive(Clone, Copy, Debug, PartialEq, Eq, Structural)]
pub enum Scene {
    Weekend,
    DiffuseSpheres,
    ShinyMetal,
    FuzzyMetal,
    HollowGlassSpheres,
}

/// What std's Unicode case folding makes of `s`: one result for one
/// argument.
pub uninterp spec fn lower_of(s: Seq<char>) -> Seq<char>;

/// An ASCII character.
pub open spec fn is_ascii_char(c: char) -> bool {
    (c as int) < 128
}

/// Every character of `s` is ASCII.
pub open spec fn seq_is_ascii(s: Seq<char>) -> bool {
    forall|i: int| 0 <= i < s.len() ==> #[trigger] is_ascii_char(s[i])
}

/// `d` is the ASCII lowering of `c`: letters `A`..`Z` shift down to
/// `a`..`z`, every other character stays itself.
pub open spec fn ascii_lowered_char(c: char, d: char) -> bool {
    if 'A' as int <= c as int <= 'Z' as int {
        d as int == c as int + 32
    } else {
        d == c
    }
}

/// Relies on str::to_lowercase: the result depends on the characters alone,
/// and on ASCII input it is the ASCII lowering, character for character.
#[verifier::external_body]
fn lowercase(s: &str) -> (r: String)
    ensures
        r@ == lower_of(s@),
        seq_is_ascii(s@) ==> r@.len() == s@.len() && (forall|i: int|
            0 <= i < s@.len() ==> ascii_lowered_char(s@[i], #[trigger] r@[i])),
{
    s.to_lowercase()
}

/// The preset an already lower-cased spelling selects, if any.
pub open spec fn scene_for_folded(low: Seq<char>) -> Option<Scene> {
    if low == "weekend"@ {
        Some(Scene::Weekend)
    } else if low == "diffuse-spheres"@ {
        Some(Scene::DiffuseSpheres)
    } else if low == "shiny-metal"@ {
        Some(Scene::ShinyMetal)
    } else if low == "fuzzy-metal"@ {
        Some(Scene::FuzzyMetal)
    } else if low == "hollow-glass-spheres"@ {
        Some(Scene::HollowGlassSpheres)
    } else {
        None
    }
}

/// The preset a given name selects, if any: the name is folded to lower
/// case, and exactly five folded spellings select a preset.
pub open spec fn scene_of_name(s: Seq<char>) -> Option<Scene> {
    scene_for_folded(lower_of(s))
}

/// Equality of an already-folded name against a preset's spelling.
fn matches_name(low: &String, name: &str) -> (r: bool)
    ensures
        r == (low@ == name@),
{
    low.eq(&name.to_owned())
}

/// The preset selected by an already lower-cased name: exactly the five
/// spellings, compared character for character.
pub fn lookup_folded_name(low: &String) -> (r: Option<Scene>)
    ensures
        r == scene_for_folded(low@),
{
    if matches_name(low, "weekend") {
        Some(Scene::Weekend)
    } else if matches_name(low, "diffuse-spheres") {
        Some(Scene::DiffuseSpheres)
    } else if matches_name(low, "shiny-metal") {
        Some(Scene::ShinyMetal)
    } else if matches_name(low, "fuzzy-metal") {
        Some(Scene::FuzzyMetal)
    } else if matches_name(low, "hollow-glass-spheres") {
        Some(Scene::HollowGlassSpheres)
    } else {
        None
    }
}

impl Scene {
    /// Parses a scene name: the input is folded to lower case and exactly
    /// the five preset names are accepted; anything else is rejected with a
    /// message naming the unknown input.
    pub fn from_str(s: &str) -> (r: Result<Scene, String>)
        ensures
            match r {
                Ok(v) => scene_of_name(s@) == Some(v),
                Err(m) => scene_of_name(s@) is None && m@ == "Unknown scene "@ + s@,
            },
    {
        let low = lowercase(s);
        match lookup_folded_name(&low) {
            Some(v) => Ok(v),
            None => Err("Unknown scene ".to_owned().concat(s)),
        }
    }
}

} // verus!
