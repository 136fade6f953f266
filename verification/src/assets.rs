//! Where the GUI finds its asset files.

use vstd::prelude::*;
use crate::text::concat;

verus! {

/// The places an asset is looked for, in order: the OMEN-HUB install, the
/// OMEN Space install, and the source tree.
pub open spec fn asset_candidates(filename: Seq<char>) -> Seq<Seq<char>> {
    seq![
        "/usr/share/omen-hub/assets/"@ + filename,
        "/usr/share/omen-space/assets/"@ + filename,
        "src/omen-gui/assets/"@ + filename,
    ]
}

/// The places an asset is looked for, in order.
pub fn asset_candidate_paths(filename: &str) -> (r: Vec<String>)
    ensures
        crate::text::views(r@) == asset_candidates(filename@),
{
    let mut r: Vec<String> = Vec::new();
    r.push(concat("/usr/share/omen-hub/assets/", filename));
    r.push(concat("/usr/share/omen-space/assets/", filename));
    r.push(concat("src/omen-gui/assets/", filename));
    assert(crate::text::views(r@) =~= asset_candidates(filename@));
    r
}

/// The path of an asset: the first candidate that exists (`exists[i]`
/// tells whether candidate `i` does), else `assets/<filename>` relative to
/// the working directory.
pub fn get_asset_path(filename: &str, exists: &Vec<bool>) -> (r: String)
    ensures
        r@ == if exists@.len() > 0 && exists@[0] {
            asset_candidates(filename@)[0]
        } else if exists@.len() > 1 && exists@[1] {
            asset_candidates(filename@)[1]
        } else if exists@.len() > 2 && exists@[2] {
            asset_candidates(filename@)[2]
        } else {
            "assets/"@ + filename@
        },
{
    let c = asset_candidate_paths(filename);
    assert(c@.len() == crate::text::views(c@).len());
    let mut i: usize = 0;
    while i < 3
        invariant
            i <= 3,
            c@.len() == 3,
            crate::text::views(c@) == asset_candidates(filename@),
            forall|j: int| 0 <= j < i ==> !(j < exists@.len() && exists@[j]),
        decreases 3 - i,
    {
        if i < exists.len() && exists[i] {
            return c[i].clone();
        }
        i = i + 1;
    }
    concat("assets/", filename)
}

} // verus!
