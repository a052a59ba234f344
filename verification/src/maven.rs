//! Package coordinates and the install paths they stand for.

use crate::error::{outcome_view, ManifestError, ManifestErrorView};
use crate::text::{
    chars_of, push_chars, push_text, replace, replace_char, split, split_on, string_of,
};
use vstd::prelude::*;

verus! {

/// A coordinate is `group:artifact:version`, with an optional fourth segment,
/// the classifier. It is valid when it has at least three segments.
pub open spec fn valid_coordinate(coordinate: Seq<char>) -> bool {
    split(coordinate, ':').len() >= 3
}

/// The classifier's part of the file name: `-classifier` for a coordinate of
/// exactly four segments, nothing otherwise.
pub open spec fn classifier_suffix(parts: Seq<Seq<char>>) -> Seq<char> {
    if parts.len() == 4 {
        "-"@ + parts[3]
    } else {
        Seq::<char>::empty()
    }
}

/// The relative path under which the artifact of a valid coordinate is
/// stored: the group with `/` for each `.`, then the artifact, the version,
/// and the file `artifact-version[-classifier].jar`.
pub open spec fn install_path(coordinate: Seq<char>) -> Seq<char> {
    let parts = split(coordinate, ':');
    replace(parts[0], '.', '/') + "/"@ + parts[1] + "/"@ + parts[2] + "/"@ + parts[1] + "-"@
        + parts[2] + classifier_suffix(parts) + ".jar"@
}

/// Whether `outcome` is what resolving `coordinate` gives: the install path
/// of a valid coordinate, or the rejection of a malformed one, which names
/// the coordinate.
pub open spec fn resolves(
    coordinate: Seq<char>,
    outcome: Result<Seq<char>, ManifestErrorView>,
) -> bool {
    match outcome {
        Ok(path) => valid_coordinate(coordinate) && path == install_path(coordinate),
        Err(e) => !valid_coordinate(coordinate) && e == ManifestErrorView::MalformedCoordinate(
            coordinate,
        ),
    }
}

/// Maps a coordinate to its install path, or rejects it as malformed when it
/// has fewer than three segments.
pub fn resolve_maven(maven: &str) -> (resolved: Result<String, ManifestError>)
    ensures
        resolves(maven@, outcome_view(resolved)),
{
    let chars = chars_of(maven);
    let parts = split_on(&chars, ':');
    assert(parts.len() == split(maven@, ':').len());
    if parts.len() < 3 {
        return Err(ManifestError::MalformedCoordinate(maven.to_owned()));
    }
    let mut out = replace_char(&parts[0], '.', '/');
    push_text(&mut out, "/");
    push_chars(&mut out, &parts[1]);
    push_text(&mut out, "/");
    push_chars(&mut out, &parts[2]);
    push_text(&mut out, "/");
    push_chars(&mut out, &parts[1]);
    push_text(&mut out, "-");
    push_chars(&mut out, &parts[2]);
    if parts.len() == 4 {
        push_text(&mut out, "-");
        push_chars(&mut out, &parts[3]);
    }
    push_text(&mut out, ".jar");
    proof {
        let p = split(maven@, ':');
        assert(forall|i: int| 0 <= i < parts.len() ==> parts[i]@ == p[i]);
        let stem = replace(p[0], '.', '/') + "/"@ + p[1] + "/"@ + p[2] + "/"@ + p[1] + "-"@ + p[2];
        if p.len() == 4 {
            assert(stem + "-"@ + p[3] == stem + ("-"@ + p[3]));
        } else {
            assert(stem + Seq::<char>::empty() == stem);
        }
        assert(out@ == install_path(maven@));
    }
    Ok(string_of(&out))
}

/// Resolving is deterministic: whatever two calls on the same coordinate
/// give, they give the same, be it a path or a rejection. So every source
/// that names a coordinate places it at the same path.
pub proof fn lemma_resolve_deterministic(
    coordinate: Seq<char>,
    first: Result<Seq<char>, ManifestErrorView>,
    second: Result<Seq<char>, ManifestErrorView>,
)
    requires
        resolves(coordinate, first),
        resolves(coordinate, second),
    ensures
        first == second,
{
}

/// Every coordinate resolves to something: a path exactly when it is valid.
pub proof fn lemma_resolve_total(coordinate: Seq<char>)
    ensures
        valid_coordinate(coordinate) ==> resolves(coordinate, Ok(install_path(coordinate))),
        !valid_coordinate(coordinate) ==> resolves(
            coordinate,
            Err(ManifestErrorView::MalformedCoordinate(coordinate)),
        ),
{
}

} // verus!
