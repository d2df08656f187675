//! Acceptance of a repository reference.
use crate::error::{RepoSyncError, RepoSyncErrorView};
use crate::utils::text::{
    chars_of, find_char, starts_with, starts_with_at, trim, trimmed, without_prefix,
};
use crate::utils::url::{http_scheme, https_scheme, lemma_normalized_is_https, normalized};
use vstd::prelude::*;

verus! {

/// What follows `https://` in a canonical URL: host and path.
pub open spec fn path_part(url: Seq<char>) -> Seq<char> {
    without_prefix(url, https_scheme())
}

/// Whether the reference `raw` is accepted: it is not blank, and what follows
/// the scheme of its canonical URL holds a `/`, as in `host/repository`.
pub open spec fn is_valid_reference(raw: Seq<char>) -> bool {
    trimmed(raw).len() > 0 && path_part(normalized(raw)).contains('/')
}

/// The error for a reference that is not accepted.
pub open spec fn invalid_reference_error(raw: Seq<char>) -> RepoSyncErrorView {
    if trimmed(raw).len() == 0 {
        RepoSyncErrorView::InvalidUrl("URL cannot be empty"@)
    } else {
        RepoSyncErrorView::InvalidUrl(
            "Malformed URL: must have format 'domain.com/repo': "@ + without_prefix(
                trimmed(raw),
                http_scheme(),
            ),
        )
    }
}

/// The canonical URL of the reference `url` where it is accepted, and the
/// error that says why where it is not.
pub fn normalize_and_validate_url(url: &str) -> (r: Result<String, RepoSyncError>)
    ensures
        match r {
            Ok(u) => is_valid_reference(url@) && u@ == normalized(url@) && starts_with(
                u@,
                https_scheme(),
            ),
            Err(e) => !is_valid_reference(url@) && e@ == invalid_reference_error(url@),
        },
{
    proof {
        lemma_normalized_is_https(url@);
    }
    let t = trim(url);
    let v = chars_of(t);
    let n: usize = v.len();
    if n == 0 {
        return Err(RepoSyncError::invalid_url("URL cannot be empty"));
    }
    let http = chars_of("http://");
    let https = chars_of("https://");
    proof {
        reveal_strlit("http://");
        reveal_strlit("https://");
        assert(http@ =~= http_scheme());
        assert(https@ =~= https_scheme());
        assert(v@.subrange(0, n as int) =~= v@);
    }
    let from: usize = if starts_with_at(&v, 0, n, &http) {
        7
    } else {
        0
    };
    let rest = t.substring_char(from, n);
    let has_scheme = starts_with_at(&v, from, n, &https);
    let host_from: usize = if has_scheme {
        from + 8
    } else {
        from
    };
    let slash: usize = find_char(&v, host_from, n, '/');
    proof {
        let part = v@.subrange(host_from as int, n as int);
        assert(path_part(normalized(url@)) == part);
        if slash < n {
            assert(part[slash - host_from] == '/');
        }
    }
    if slash == n {
        let message = String::from_str(
            "Malformed URL: must have format 'domain.com/repo': ",
        ).concat(rest);
        return Err(RepoSyncError::invalid_url(message.as_str()));
    }
    if has_scheme {
        Ok(String::from_str(rest))
    } else {
        Ok(String::from_str("https://").concat(rest))
    }
}

} // verus!
