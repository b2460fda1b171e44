//! Choosing the path of an endpoint for the versions a caller offers, and
//! filling a path template with arguments.

use vstd::prelude::*;
use crate::encoding::{percent_encode, percent_encoded};
use crate::error::NoMatchingPathError;
use crate::metadata::{Metadata, MetadataView, PathCandidate, PathCandidateView};
use crate::text::{chars_of, push_char};
use crate::version::MatrixVersion;

verus! {

/// Whether an endpoint removed in `removed` is gone in version `v`.
pub open spec fn is_removed_in(removed: Option<MatrixVersion>, v: MatrixVersion) -> bool {
    match removed {
        Some(r) => v.includes(r),
        None => false,
    }
}

/// Whether the endpoint is gone in every version offered. An empty offer
/// removes nothing.
pub open spec fn removed_for_all(versions: Seq<MatrixVersion>, removed: Option<MatrixVersion>) -> bool {
    versions.len() > 0 && forall|i: int|
        0 <= i < versions.len() ==> is_removed_in(removed, #[trigger] versions[i])
}

/// Whether version `v` lets a path added in `added` be used: the endpoint is
/// not gone in `v`, and `v` has everything of `added`.
pub open spec fn version_admits(
    v: MatrixVersion,
    added: MatrixVersion,
    removed: Option<MatrixVersion>,
) -> bool {
    !is_removed_in(removed, v) && v.includes(added)
}

/// Whether a path matches the versions offered: a path bound to no version
/// always does, another one if some version offered admits it.
pub open spec fn candidate_matches(
    candidate: PathCandidateView,
    versions: Seq<MatrixVersion>,
    removed: Option<MatrixVersion>,
) -> bool {
    match candidate.added {
        None => true,
        Some(added) => exists|i: int|
            0 <= i < versions.len() && version_admits(#[trigger] versions[i], added, removed),
    }
}

/// The position of the first path that matches, if any does.
pub open spec fn first_match(
    candidates: Seq<PathCandidateView>,
    versions: Seq<MatrixVersion>,
    removed: Option<MatrixVersion>,
) -> Option<int>
    decreases candidates.len(),
{
    if candidates.len() == 0 {
        None
    } else if candidate_matches(candidates[0], versions, removed) {
        Some(0)
    } else {
        match first_match(candidates.drop_first(), versions, removed) {
            Some(i) => Some(i + 1),
            None => None,
        }
    }
}

/// The position of the path that is selected for the versions offered: none
/// where the endpoint is gone in all of them, else the first that matches.
pub open spec fn selected_path(versions: Seq<MatrixVersion>, metadata: MetadataView) -> Option<
    int,
> {
    if removed_for_all(versions, metadata.removed) {
        None
    } else {
        first_match(metadata.path_candidates, versions, metadata.removed)
    }
}

/// What `first_match` finds is a matching path with no matching path before
/// it, and it finds none only where none matches.
pub proof fn lemma_first_match(
    candidates: Seq<PathCandidateView>,
    versions: Seq<MatrixVersion>,
    removed: Option<MatrixVersion>,
)
    ensures
        match first_match(candidates, versions, removed) {
            Some(i) => {
                &&& 0 <= i < candidates.len()
                &&& candidate_matches(candidates[i], versions, removed)
                &&& forall|j: int| 0 <= j < i ==> !candidate_matches(candidates[j], versions, removed)
            },
            None => forall|j: int|
                0 <= j < candidates.len() ==> !candidate_matches(candidates[j], versions, removed),
        },
    decreases candidates.len(),
{
    if candidates.len() > 0 && !candidate_matches(candidates[0], versions, removed) {
        let rest = candidates.drop_first();
        lemma_first_match(rest, versions, removed);
        assert(forall|j: int| 0 <= j < rest.len() ==> rest[j] == candidates[j + 1]);
        match first_match(rest, versions, removed) {
            Some(i) => {
                assert forall|j: int| 0 <= j < i + 1 implies !candidate_matches(
                    candidates[j],
                    versions,
                    removed,
                ) by {
                    if j > 0 {
                        assert(rest[j - 1] == candidates[j]);
                    }
                }
            },
            None => {
                assert forall|j: int| 0 <= j < candidates.len() implies !candidate_matches(
                    candidates[j],
                    versions,
                    removed,
                ) by {
                    if j > 0 {
                        assert(rest[j - 1] == candidates[j]);
                    }
                }
            },
        }
    }
}

/// Checks whether the endpoint is gone in version `v`.
pub fn removed_in(removed: Option<MatrixVersion>, v: MatrixVersion) -> (r: bool)
    ensures
        r == is_removed_in(removed, v),
{
    match removed {
        Some(gone) => v.is_superset_of(gone),
        None => false,
    }
}

/// Checks whether the endpoint is gone in every version offered.
pub fn is_removed_for_all(versions: &[MatrixVersion], removed: Option<MatrixVersion>) -> (r: bool)
    ensures
        r == removed_for_all(versions@, removed),
{
    if versions.len() == 0 {
        return false;
    }
    let mut i: usize = 0;
    while i < versions.len()
        invariant
            0 <= i <= versions.len(),
            forall|j: int| 0 <= j < i ==> is_removed_in(removed, #[trigger] versions@[j]),
        decreases versions.len() - i,
    {
        if !removed_in(removed, versions[i]) {
            return false;
        }
        i += 1;
    }
    true
}

/// Checks whether a path matches the versions offered.
pub fn matches_versions(
    candidate: &PathCandidate,
    versions: &[MatrixVersion],
    removed: Option<MatrixVersion>,
) -> (r: bool)
    ensures
        r == candidate_matches(candidate@, versions@, removed),
{
    match candidate.added {
        None => true,
        Some(added) => {
            let mut i: usize = 0;
            while i < versions.len()
                invariant
                    0 <= i <= versions.len(),
                    candidate.added == Some(added),
                    forall|j: int|
                        0 <= j < i ==> !version_admits(#[trigger] versions@[j], added, removed),
                decreases versions.len() - i,
            {
                let v = versions[i];
                if !removed_in(removed, v) && v.is_superset_of(added) {
                    assert(version_admits(versions@[i as int], added, removed));
                    return true;
                }
                i += 1;
            }
            false
        },
    }
}

/// Selects the path of an endpoint for the versions a caller offers.
///
/// The paths are tried in the order of the record, and the first that matches
/// is taken. No path is selected where the endpoint is gone in every version
/// offered, or where no path matches.
pub fn select_path(versions: &[MatrixVersion], metadata: &Metadata) -> (r: Result<
    &'static str,
    NoMatchingPathError,
>)
    ensures
        match selected_path(versions@, metadata@) {
            Some(i) => 0 <= i < metadata.path_candidates@.len() && r == Ok::<
                &'static str,
                NoMatchingPathError,
            >(metadata.path_candidates@[i].path),
            None => r == Err::<&'static str, NoMatchingPathError>(NoMatchingPathError),
        },
{
    if is_removed_for_all(versions, metadata.removed) {
        return Err(NoMatchingPathError);
    }
    let ghost candidates = metadata@.path_candidates;
    let mut k: usize = 0;
    while k < metadata.path_candidates.len()
        invariant
            0 <= k <= candidates.len(),
            candidates == metadata@.path_candidates,
            !removed_for_all(versions@, metadata.removed),
            forall|j: int|
                0 <= j < k ==> !candidate_matches(candidates[j], versions@, metadata.removed),
        decreases candidates.len() - k,
    {
        if matches_versions(&metadata.path_candidates[k], versions, metadata.removed) {
            proof {
                lemma_first_match(candidates, versions@, metadata.removed);
                assert(candidate_matches(candidates[k as int], versions@, metadata.removed));
                assert(first_match(candidates, versions@, metadata.removed) == Some(k as int));
            }
            return Ok(metadata.path_candidates[k].path);
        }
        k += 1;
    }
    proof {
        lemma_first_match(candidates, versions@, metadata.removed);
    }
    Err(NoMatchingPathError)
}

/// Selecting a path depends on which versions are offered, not on their
/// order or on how often each is named: two offers that hold the same
/// versions select the same path.
pub proof fn lemma_selection_is_determined(
    versions: Seq<MatrixVersion>,
    others: Seq<MatrixVersion>,
    metadata: MetadataView,
)
    requires
        versions.to_set() == others.to_set(),
    ensures
        selected_path(versions, metadata) == selected_path(others, metadata),
{
    lemma_same_members(versions, others);
    lemma_same_members(others, versions);
    let removed = metadata.removed;
    assert(removed_for_all(versions, removed) == removed_for_all(others, removed)) by {
        if versions.len() > 0 {
            assert(others.contains(versions[0]));
        }
        if others.len() > 0 {
            assert(versions.contains(others[0]));
        }
        if removed_for_all(versions, removed) {
            assert forall|i: int| 0 <= i < others.len() implies is_removed_in(
                removed,
                #[trigger] others[i],
            ) by {
                assert(versions.contains(others[i]));
            }
        }
        if removed_for_all(others, removed) {
            assert forall|i: int| 0 <= i < versions.len() implies is_removed_in(
                removed,
                #[trigger] versions[i],
            ) by {
                assert(others.contains(versions[i]));
            }
        }
    }
    lemma_first_match_of_same_members(metadata.path_candidates, versions, others, removed);
}

/// Two sequences with the same set of members: each member of the first is
/// one of the second.
proof fn lemma_same_members(a: Seq<MatrixVersion>, b: Seq<MatrixVersion>)
    requires
        a.to_set() == b.to_set(),
    ensures
        forall|i: int| 0 <= i < a.len() ==> b.contains(#[trigger] a[i]),
{
    assert forall|i: int| 0 <= i < a.len() implies b.contains(#[trigger] a[i]) by {
        assert(a.contains(a[i]));
        assert(a.to_set().contains(a[i]));
        assert(b.to_set().contains(a[i]));
    }
}

/// With the same versions on offer, the same path is the first to match.
proof fn lemma_first_match_of_same_members(
    candidates: Seq<PathCandidateView>,
    versions: Seq<MatrixVersion>,
    others: Seq<MatrixVersion>,
    removed: Option<MatrixVersion>,
)
    requires
        forall|i: int| 0 <= i < versions.len() ==> others.contains(#[trigger] versions[i]),
        forall|i: int| 0 <= i < others.len() ==> versions.contains(#[trigger] others[i]),
    ensures
        first_match(candidates, versions, removed) == first_match(candidates, others, removed),
    decreases candidates.len(),
{
    if candidates.len() > 0 {
        let c = candidates[0];
        assert(candidate_matches(c, versions, removed) == candidate_matches(c, others, removed)) by {
            if let Some(added) = c.added {
                if candidate_matches(c, versions, removed) {
                    let i = choose|i: int|
                        0 <= i < versions.len() && version_admits(
                            #[trigger] versions[i],
                            added,
                            removed,
                        );
                    assert(others.contains(versions[i]));
                    let j = choose|j: int| 0 <= j < others.len() && others[j] == versions[i];
                    assert(version_admits(others[j], added, removed));
                }
                if candidate_matches(c, others, removed) {
                    let i = choose|i: int|
                        0 <= i < others.len() && version_admits(
                            #[trigger] others[i],
                            added,
                            removed,
                        );
                    assert(versions.contains(others[i]));
                    let j = choose|j: int| 0 <= j < versions.len() && versions[j] == others[i];
                    assert(version_admits(versions[j], added, removed));
                }
            }
        }
        lemma_first_match_of_same_members(candidates.drop_first(), versions, others, removed);
    }
}

/// An endpoint that is gone in every version offered has no path, whatever
/// paths its record lists and even if one of them is bound to no version.
pub proof fn lemma_removed_endpoint_has_no_path(
    versions: Seq<MatrixVersion>,
    metadata: MetadataView,
)
    requires
        versions.len() > 0,
        forall|i: int| 0 <= i < versions.len() ==> is_removed_in(metadata.removed, #[trigger] versions[i]),
    ensures
        selected_path(versions, metadata) is None,
{
}

/// A path that is bound to no version is selected whenever no path before it
/// matches and the endpoint is not gone in every version offered.
pub proof fn lemma_unbound_path_is_fallback(
    versions: Seq<MatrixVersion>,
    metadata: MetadataView,
    k: int,
)
    requires
        0 <= k < metadata.path_candidates.len(),
        metadata.path_candidates[k].added is None,
        !removed_for_all(versions, metadata.removed),
        forall|j: int|
            0 <= j < k ==> !candidate_matches(
                metadata.path_candidates[j],
                versions,
                metadata.removed,
            ),
    ensures
        selected_path(versions, metadata) == Some(k),
{
    lemma_first_match(metadata.path_candidates, versions, metadata.removed);
}

/// The strings of a slice as character sequences.
pub open spec fn strs_view(strs: Seq<&str>) -> Seq<Seq<char>> {
    Seq::new(strs.len(), |i: int| strs[i]@)
}

/// A path template with its arguments filled in, read from left to right.
///
/// A segment that begins with `:` is a placeholder: it takes the next
/// argument, percent-encoded. The path ends before the first placeholder for
/// which no argument is left. Every other character stands for itself.
/// `in_placeholder` says that the characters up to the next `/` belong to a
/// placeholder that has been filled already.
pub open spec fn rendered(template: Seq<char>, args: Seq<Seq<char>>, in_placeholder: bool) -> Seq<
    char,
>
    decreases template.len(),
{
    if template.len() == 0 {
        Seq::empty()
    } else if template[0] == '/' {
        if template.len() > 1 && template[1] == ':' {
            if args.len() == 0 {
                Seq::empty()
            } else {
                seq!['/'] + percent_encoded(args[0]) + rendered(
                    template.drop_first(),
                    args.drop_first(),
                    true,
                )
            }
        } else {
            seq!['/'] + rendered(template.drop_first(), args, false)
        }
    } else if in_placeholder {
        rendered(template.drop_first(), args, true)
    } else {
        seq![template[0]] + rendered(template.drop_first(), args, false)
    }
}

/// A path template with its arguments filled in.
pub open spec fn rendered_path(template: Seq<char>, args: Seq<Seq<char>>) -> Seq<char> {
    rendered(template, args, false)
}

/// Fills the placeholders of a path template with arguments, in order.
///
/// Each argument is percent-encoded. Where the arguments run out, the path
/// ends before the first placeholder that is left: trailing segments are
/// optional. Arguments beyond the last placeholder are not used.
pub fn render_path(template: &str, args: &[&str]) -> (r: String)
    ensures
        r@ == rendered_path(template@, strs_view(args@)),
{
    let chars = chars_of(template);
    let ghost all = strs_view(args@);
    let mut out = String::new();
    let mut i: usize = 0;
    let mut k: usize = 0;
    let mut skipping = false;
    assert(chars@.skip(0) =~= chars@);
    assert(all.skip(0) =~= all);
    assert(out@ + rendered(chars@, all, false) =~= rendered(chars@, all, false));
    while i < chars.len()
        invariant
            0 <= i <= chars.len(),
            0 <= k <= args.len(),
            chars@ == template@,
            all == strs_view(args@),
            out@ + rendered(chars@.skip(i as int), all.skip(k as int), skipping) == rendered_path(
                template@,
                all,
            ),
        decreases chars.len() - i,
    {
        let c = chars[i];
        let ghost rest = chars@.skip(i as int);
        let ghost left = all.skip(k as int);
        let ghost before = out@;
        proof {
            assert(rest[0] == c);
            assert(rest.drop_first() =~= chars@.skip(i + 1));
        }
        if c == '/' {
            if i + 1 < chars.len() && chars[i + 1] == ':' {
                assert(rest[1] == ':');
                if k >= args.len() {
                    assert(before + Seq::<char>::empty() =~= before);
                    return out;
                }
                let encoded = percent_encode(args[k]);
                push_char(&mut out, '/');
                out.append(encoded.as_str());
                proof {
                    assert(left[0] == args@[k as int]@);
                    assert(left.drop_first() =~= all.skip(k + 1));
                    let tail = rendered(rest.drop_first(), left.drop_first(), true);
                    assert(out@ + tail =~= before + (seq!['/'] + percent_encoded(left[0]) + tail));
                }
                k += 1;
                skipping = true;
            } else {
                push_char(&mut out, '/');
                proof {
                    let tail = rendered(rest.drop_first(), left, false);
                    assert(out@ + tail =~= before + (seq!['/'] + tail));
                }
                skipping = false;
            }
        } else if !skipping {
            push_char(&mut out, c);
            proof {
                let tail = rendered(rest.drop_first(), left, false);
                assert(out@ + tail =~= before + (seq![c] + tail));
            }
        }
        i += 1;
    }
    assert(out@ + Seq::<char>::empty() =~= out@);
    out
}

} // verus!
