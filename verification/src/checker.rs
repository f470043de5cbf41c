//! Registry existence check.
//!
//! The checker answers whether an image with a given version tag is
//! already published in the target repository.  The network query itself
//! is an external collaborator; this module holds the two decisions
//! around it: extracting the repository name from the registry URL, and
//! reading the query's outcome.  A query that fails counts as "absent":
//! absence of proof of existence is treated as license to build, so the
//! pipeline favours forward progress.  The caller must still report the
//! failure, which is why [`QueryOutcome`] keeps the two cases apart.

use vstd::prelude::*;

use crate::text::{first_occurrence, lemma_first_occurrence_some};

verus! {

/// The literal that separates the registry host from the repository name
/// inside a registry URL.
pub open spec fn repo_separator() -> Seq<char> {
    ".com/"@
}

/// A registry URL is well formed when it holds the host/repository
/// separator; a URL without it is a configuration error.
pub open spec fn url_well_formed(url: Seq<char>) -> bool {
    first_occurrence(url, repo_separator(), 0) is Some
}

/// The repository name inside a well-formed registry URL: the text after
/// the first separator, up to the next separator when the URL holds
/// another one, else up to the end.
pub open spec fn spec_repository_name(url: Seq<char>) -> Seq<char>
    recommends
        url_well_formed(url),
{
    let start = first_occurrence(url, repo_separator(), 0)->0 + repo_separator().len();
    let end = match first_occurrence(url, repo_separator(), start) {
        Some(j) => j,
        None => url.len() as int,
    };
    url.subrange(start, end)
}

/// Extracts the repository name from a registry URL, or `None` when the
/// URL lacks the host/repository separator.
pub fn repository_name(url: &str) -> (r: Option<String>)
    ensures
        r is Some <==> url_well_formed(url@),
        r matches Some(name) ==> name@ == spec_repository_name(url@),
{
    let sep = ".com/";
    let n = url.unicode_len();
    match crate::text::find_from(url, sep, 0) {
        None => None,
        Some(i) => {
            proof {
                lemma_first_occurrence_some(url@, sep@, 0, i as int);
            }
            let start = i + sep.unicode_len();
            let end = match crate::text::find_from(url, sep, start) {
                None => n,
                Some(j) => {
                    proof {
                        lemma_first_occurrence_some(url@, sep@, start as int, j as int);
                    }
                    j
                },
            };
            let name = url.substring_char(start, end);
            Some(name.to_owned())
        },
    }
}

/// What the registry metadata query reported: either a description whose
/// `has_images` flag says whether at least one image carries the
/// requested tag, or a failure of the query itself (network,
/// authorization, repository not found).
#[derive(Clone, Copy, PartialEq, Eq, Structural, Debug)]
pub enum QueryOutcome {
    Described { has_images: bool },
    Failed,
}

/// The tag counts as present exactly when the query succeeded and
/// reported a matching image; a failed query counts as absent.
pub open spec fn spec_tag_present(o: QueryOutcome) -> bool {
    o == (QueryOutcome::Described { has_images: true })
}

/// Reads a query outcome as the checker's answer: `true` only for a
/// successful query that reported a matching image.  Collapsing a failed
/// query into "absent" is deliberate; the caller reports the failure.
pub fn tag_present(o: &QueryOutcome) -> (r: bool)
    ensures
        r == spec_tag_present(*o),
{
    match o {
        QueryOutcome::Described { has_images } => *has_images,
        QueryOutcome::Failed => false,
    }
}

} // verus!
