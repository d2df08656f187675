//! The local directory name of a repository.
use crate::error::{RepoSyncError, RepoSyncErrorView};
use crate::utils::text::{
    chars_of, find_char, last_segment, last_segment_start, remove_all, starts_with, without_all,
};
use vstd::prelude::*;

verus! {

/// The token that is cut out of a repository's name: `.git`.
pub open spec fn git_suffix() -> Seq<char> {
    seq!['.', 'g', 'i', 't']
}

/// The name derived from `url`: its last `/`-delimited segment with every
/// `.git` in it cut out, wherever in the segment it stands.
pub open spec fn repo_name_of(url: Seq<char>) -> Seq<char> {
    without_all(last_segment(url, '/'), git_suffix())
}

/// Whether a name can be derived from `url`: it holds a `/`, and the name is
/// not empty.
pub open spec fn has_repo_name(url: Seq<char>) -> bool {
    url.contains('/') && repo_name_of(url).len() > 0
}

/// The error for a URL without any `/`.
pub open spec fn no_segment_error(url: Seq<char>) -> RepoSyncErrorView {
    RepoSyncErrorView::Config(
        "Internal error: Cannot extract repository name from pre-validated URL: "@ + url,
    )
}

/// The error for a URL whose derived name is empty.
pub open spec fn empty_name_error(url: Seq<char>) -> RepoSyncErrorView {
    RepoSyncErrorView::Config("Internal error: Extracted empty repository name from URL: "@ + url)
}

/// The error for a URL from which no name can be derived.
pub open spec fn repo_name_error(url: Seq<char>) -> RepoSyncErrorView {
    if url.contains('/') {
        empty_name_error(url)
    } else {
        no_segment_error(url)
    }
}

/// Whether `p` occurs nowhere in `s`.
pub open spec fn is_free_of(s: Seq<char>, p: Seq<char>) -> bool {
    forall|i: int| 0 <= i <= s.len() ==> !starts_with(#[trigger] s.subrange(i, s.len() as int), p)
}

/// What follows the last `/` is the last segment, where it holds no `/`
/// itself.
pub proof fn lemma_last_segment_of_path(dir: Seq<char>, segment: Seq<char>)
    requires
        !segment.contains('/'),
    ensures
        last_segment(dir.push('/') + segment, '/') == segment,
    decreases segment.len(),
{
    let s = dir.push('/') + segment;
    if segment.len() == 0 {
        assert(s.last() == '/');
    } else {
        let shorter = segment.drop_last();
        assert(s.last() == segment[segment.len() - 1]);
        assert(s.drop_last() =~= dir.push('/') + shorter);
        assert forall|i: int| 0 <= i < shorter.len() implies shorter[i] != '/' by {
            assert(shorter[i] == segment[i]);
        }
        lemma_last_segment_of_path(dir, shorter);
        assert(shorter.push(segment.last()) =~= segment);
    }
}

/// Cutting `.git` out of text that holds none leaves the text as it is.
pub proof fn lemma_nothing_to_cut(s: Seq<char>)
    requires
        is_free_of(s, git_suffix()),
    ensures
        without_all(s, git_suffix()) == s,
    decreases s.len(),
{
    if s.len() >= 4 {
        assert(s.subrange(0, s.len() as int) =~= s);
        let rest = s.drop_first();
        assert forall|i: int| 0 <= i <= rest.len() implies !starts_with(
            #[trigger] rest.subrange(i, rest.len() as int),
            git_suffix(),
        ) by {
            assert(rest.subrange(i, rest.len() as int) =~= s.subrange(i + 1, s.len() as int));
        }
        lemma_nothing_to_cut(rest);
        assert(seq![s.first()] + rest =~= s);
    }
}

/// Cutting `.git` out of a name that holds none, with `.git` behind it,
/// leaves the name.
pub proof fn lemma_suffix_is_cut(name: Seq<char>)
    requires
        is_free_of(name, git_suffix()),
    ensures
        without_all(name + git_suffix(), git_suffix()) == name,
    decreases name.len(),
{
    let git = git_suffix();
    let s = name + git;
    if name.len() == 0 {
        assert(s.subrange(0, 4) =~= git);
        assert(without_all(s.subrange(4, 4), git) =~= name);
    } else {
        assert(!starts_with(s, git)) by {
            if starts_with(s, git) {
                if name.len() >= 4 {
                    assert(name.subrange(0, name.len() as int).subrange(0, 4) =~= s.subrange(
                        0,
                        4,
                    ));
                } else {
                    assert(s.subrange(0, 4)[name.len() as int] == s[name.len() as int]);
                }
            }
        }
        let rest = name.drop_first();
        assert(s.drop_first() =~= rest + git);
        assert forall|i: int| 0 <= i <= rest.len() implies !starts_with(
            #[trigger] rest.subrange(i, rest.len() as int),
            git,
        ) by {
            assert(rest.subrange(i, rest.len() as int) =~= name.subrange(
                i + 1,
                name.len() as int,
            ));
        }
        lemma_suffix_is_cut(rest);
        assert(seq![s.first()] + rest =~= name);
    }
}

/// The name of a repository is the last segment of its URL, without the
/// `.git` behind it if there is one: for a segment `name` that holds neither
/// `/` nor `.git`, both `dir/name` and `dir/name.git` have the name `name`.
pub proof fn lemma_repo_name_of_path(dir: Seq<char>, name: Seq<char>)
    requires
        !name.contains('/'),
        is_free_of(name, git_suffix()),
    ensures
        repo_name_of(dir.push('/') + name) == name,
        repo_name_of(dir.push('/') + name + git_suffix()) == name,
{
    let git = git_suffix();
    lemma_last_segment_of_path(dir, name);
    lemma_nothing_to_cut(name);
    assert(!(name + git).contains('/')) by {
        if (name + git).contains('/') {
            let i = choose|i: int| 0 <= i < (name + git).len() && (name + git)[i] == '/';
            if i < name.len() {
                assert(name[i] == '/');
            }
        }
    }
    lemma_last_segment_of_path(dir, name + git);
    assert(dir.push('/') + name + git =~= dir.push('/') + (name + git));
    lemma_suffix_is_cut(name);
}

/// The repository name derived from `url`, or a configuration error where
/// `url` holds no `/` or the name is empty.
pub fn extract_repo_name(url: &str) -> (r: Result<String, RepoSyncError>)
    ensures
        match r {
            Ok(name) => has_repo_name(url@) && name@ == repo_name_of(url@),
            Err(e) => !has_repo_name(url@) && e@ == repo_name_error(url@),
        },
{
    let v = chars_of(url);
    let n: usize = v.len();
    let slash: usize = find_char(&v, 0, n, '/');
    if slash == n {
        let message = String::from_str(
            "Internal error: Cannot extract repository name from pre-validated URL: ",
        ).concat(url);
        return Err(RepoSyncError::config(message.as_str()));
    }
    let k: usize = last_segment_start(&v, 0, n, '/');
    proof {
        reveal_strlit(".git");
        assert(".git"@ =~= git_suffix());
        assert(v@.subrange(0, n as int) =~= v@);
    }
    let name = remove_all(url.substring_char(k, n), ".git");
    if name.as_str().unicode_len() == 0 {
        let message = String::from_str(
            "Internal error: Extracted empty repository name from URL: ",
        ).concat(url);
        return Err(RepoSyncError::config(message.as_str()));
    }
    Ok(name)
}

} // verus!
