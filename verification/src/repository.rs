//! A repository reference in canonical form.
use crate::error::{RepoSyncError, RepoSyncErrorView};
use crate::utils::path::{extract_repo_name, has_repo_name, repo_name_error, repo_name_of};
use crate::utils::text::starts_with;
use crate::utils::url::{
    https_scheme, lemma_normalize_idempotent, lemma_normalized_is_trimmed, normalized,
};
use crate::utils::validation::{
    invalid_reference_error, is_valid_reference, normalize_and_validate_url,
};
use vstd::prelude::*;

verus! {

/// A repository by its canonical HTTPS URL and the name of its working copy.
/// The URL begins with `https://`; the name is derived from the URL and is
/// not empty.
#[derive(Debug, PartialEq, Eq)]
pub struct NormalizedRepository {
    url: String,
    name: String,
}

/// What a `NormalizedRepository` holds, as plain values.
pub struct NormalizedRepositoryView {
    pub url: Seq<char>,
    pub name: Seq<char>,
}

impl NormalizedRepositoryView {
    /// The invariant of a normalized repository.
    pub open spec fn wf(self) -> bool {
        &&& starts_with(self.url, https_scheme())
        &&& self.name == repo_name_of(self.url)
        &&& self.name.len() > 0
    }
}

/// The normalized repository that the reference `raw` names, where `raw` is
/// accepted and yields a name.
pub open spec fn normalized_repository(raw: Seq<char>) -> Option<NormalizedRepositoryView> {
    if is_valid_reference(raw) && has_repo_name(normalized(raw)) {
        Some(NormalizedRepositoryView { url: normalized(raw), name: repo_name_of(normalized(raw)) })
    } else {
        None
    }
}

/// The error for a reference that names no normalized repository.
pub open spec fn reference_error(raw: Seq<char>) -> RepoSyncErrorView {
    if is_valid_reference(raw) {
        repo_name_error(normalized(raw))
    } else {
        invalid_reference_error(raw)
    }
}

/// Normalising a reference is idempotent: the URL of a normalized repository
/// names that same repository.
pub proof fn lemma_repository_idempotent(raw: Seq<char>)
    requires
        normalized_repository(raw) is Some,
    ensures
        normalized_repository(normalized_repository(raw)->0.url) == normalized_repository(raw),
{
    lemma_normalize_idempotent(raw);
    lemma_normalized_is_trimmed(raw);
}

impl View for NormalizedRepository {
    type V = NormalizedRepositoryView;

    closed spec fn view(&self) -> NormalizedRepositoryView {
        NormalizedRepositoryView { url: self.url@, name: self.name@ }
    }
}

impl NormalizedRepository {
    #[verifier::type_invariant]
    spec fn inv(self) -> bool {
        self@.wf()
    }

    /// The repository that the reference `raw` names, or the error that says
    /// why it names none.
    pub fn from_reference(raw: &str) -> (r: Result<Self, RepoSyncError>)
        ensures
            match r {
                Ok(repo) => normalized_repository(raw@) == Some(repo@) && repo@.wf(),
                Err(e) => normalized_repository(raw@) is None && e@ == reference_error(raw@),
            },
    {
        let url = match normalize_and_validate_url(raw) {
            Ok(url) => url,
            Err(e) => {
                return Err(e);
            },
        };
        let name = match extract_repo_name(url.as_str()) {
            Ok(name) => name,
            Err(e) => {
                return Err(e);
            },
        };
        Ok(NormalizedRepository { url, name })
    }

    /// The canonical URL.
    pub fn url(&self) -> (r: &str)
        ensures
            r@ == self@.url,
            self@.wf(),
    {
        proof {
            use_type_invariant(self);
        }
        self.url.as_str()
    }

    /// The name of the working copy's directory.
    pub fn name(&self) -> (r: &str)
        ensures
            r@ == self@.name,
            self@.wf(),
    {
        proof {
            use_type_invariant(self);
        }
        self.name.as_str()
    }
}

} // verus!
