//! The repository list: one reference per line.
use crate::error::{RepoSyncError, RepoSyncErrorView};
use crate::utils::text::{
    chars_of, lines, lines_of, starts_with, texts_of, trim, trimmed, views_of,
};
use crate::utils::url::{https_scheme, lemma_normalized_is_https, normalized};
use crate::utils::validation::{is_valid_reference, normalize_and_validate_url};
use vstd::prelude::*;

verus! {

/// Whether `line` holds a reference: it is neither blank nor a comment, which
/// begins with `#` after its leading whitespace.
pub open spec fn is_entry(line: Seq<char>) -> bool {
    trimmed(line).len() > 0 && trimmed(line).first() != '#'
}

/// Whether line `i` of `lines` holds a reference that is not accepted.
pub open spec fn is_bad_line(lines: Seq<Seq<char>>, i: int) -> bool {
    0 <= i < lines.len() && is_entry(lines[i]) && !is_valid_reference(trimmed(lines[i]))
}

/// Whether line `i` is the first of `lines` with a reference that is not
/// accepted.
pub open spec fn is_first_bad_line(lines: Seq<Seq<char>>, i: int) -> bool {
    is_bad_line(lines, i) && forall|j: int| 0 <= j < i ==> !is_bad_line(lines, j)
}

/// The canonical URLs of the references in `lines`, in order.
pub open spec fn listed_urls(lines: Seq<Seq<char>>) -> Seq<Seq<char>>
    decreases lines.len(),
{
    if lines.len() == 0 {
        Seq::empty()
    } else if is_entry(lines.last()) {
        listed_urls(lines.drop_last()).push(normalized(trimmed(lines.last())))
    } else {
        listed_urls(lines.drop_last())
    }
}

/// The error for a list without any reference.
pub open spec fn empty_list_error() -> RepoSyncErrorView {
    RepoSyncErrorView::Config("No repositories found in the repo list file"@)
}

/// The error for line `i` of the list in `file`, counted from zero.
pub open spec fn bad_line_error(file: Seq<char>, lines: Seq<Seq<char>>, i: int) -> RepoSyncErrorView {
    RepoSyncErrorView::FileFormat { file, line: (i + 1) as nat, content: trimmed(lines[i]) }
}

/// Every URL of the list is canonical: it begins with `https://`.
pub proof fn lemma_listed_urls_are_https(lines: Seq<Seq<char>>, i: int)
    requires
        0 <= i < listed_urls(lines).len(),
    ensures
        starts_with(listed_urls(lines)[i], https_scheme()),
    decreases lines.len(),
{
    let rest = lines.drop_last();
    if is_entry(lines.last()) && i == listed_urls(rest).len() {
        lemma_normalized_is_https(trimmed(lines.last()));
    } else {
        lemma_listed_urls_are_https(rest, i);
    }
}

/// The canonical URLs of the references in `content`, the text of the list
/// that was read from `file_path`. Blank lines and comments are passed over.
/// The first reference that is not accepted fails the whole list, with its
/// line number counted from one; so does a list without any reference.
pub fn parse_repo_list(file_path: &str, content: &str) -> (r: Result<Vec<String>, RepoSyncError>)
    ensures
        match r {
            Ok(urls) => {
                &&& forall|i: int| !is_bad_line(lines_of(content@), i)
                &&& texts_of(urls@) == listed_urls(lines_of(content@))
                &&& urls@.len() > 0
            },
            Err(e) => {
                ||| exists|i: int|
                    is_first_bad_line(lines_of(content@), i) && e@ == bad_line_error(
                        file_path@,
                        lines_of(content@),
                        i,
                    )
                ||| {
                    &&& forall|i: int| !is_bad_line(lines_of(content@), i)
                    &&& listed_urls(lines_of(content@)).len() == 0
                    &&& e@ == empty_list_error()
                }
            },
        },
{
    let all = lines(content);
    let ghost ls = lines_of(content@);
    let mut repos: Vec<String> = Vec::new();
    let mut i: usize = 0;
    while i < all.len()
        invariant
            i <= all.len(),
            views_of(all@) == ls,
            ls == lines_of(content@),
            forall|j: int| 0 <= j < i ==> !is_bad_line(ls, j),
            texts_of(repos@) == listed_urls(ls.take(i as int)),
        decreases all.len() - i,
    {
        let line = trim(all[i]);
        assert(ls.take(i + 1).drop_last() =~= ls.take(i as int));
        let v = chars_of(line);
        if v.len() > 0 && v[0] != '#' {
            match normalize_and_validate_url(line) {
                Ok(url) => {
                    repos.push(url);
                },
                Err(_) => {
                    assert(is_first_bad_line(ls, i as int));
                    return Err(RepoSyncError::file_format(file_path, i + 1, line));
                },
            }
        }
        i += 1;
    }
    assert(ls.take(all.len() as int) =~= ls);
    if repos.len() == 0 {
        return Err(RepoSyncError::config("No repositories found in the repo list file"));
    }
    Ok(repos)
}

} // verus!
