//! The listing of local branches with their upstreams.
use crate::utils::text::{
    chars_of, ends_with, find_char, lines, lines_of, position_of, trim_bounds, trimmed, views_of,
};
use vstd::prelude::*;

verus! {

/// A local branch and the remote-tracking branch that it follows, if any.
#[derive(Debug, Clone, PartialEq, Eq)]
pub struct BranchUpstreamPair {
    pub local: String,
    pub upstream: Option<String>,
}

/// What a `BranchUpstreamPair` holds, as plain values.
pub struct BranchPairView {
    pub local: Seq<char>,
    pub upstream: Option<Seq<char>>,
}

impl View for BranchUpstreamPair {
    type V = BranchPairView;

    open spec fn view(&self) -> BranchPairView {
        BranchPairView {
            local: self.local@,
            upstream: match self.upstream {
                Some(u) => Some(u@),
                None => None,
            },
        }
    }
}

/// The views of a list of pairs.
pub open spec fn pairs_view(v: Seq<BranchUpstreamPair>) -> Seq<BranchPairView> {
    Seq::new(v.len(), |i: int| v[i]@)
}

/// What one line of the listing says. A line that ends in `:` names a branch
/// without upstream. Any other line is cut at its first `:` into the branch
/// and its upstream, each without surrounding whitespace; without a `:` it
/// says nothing.
pub open spec fn pair_of_line(line: Seq<char>) -> Option<BranchPairView> {
    let k = position_of(line, ':');
    if ends_with(line, seq![':']) {
        Some(BranchPairView { local: trimmed(line.drop_last()), upstream: None })
    } else if 0 <= k < line.len() {
        Some(
            BranchPairView {
                local: trimmed(line.subrange(0, k)),
                upstream: Some(trimmed(line.subrange(k + 1, line.len() as int))),
            },
        )
    } else {
        None
    }
}

/// Whether line `i` of `lines` is the first that says nothing.
pub open spec fn is_first_unreadable(lines: Seq<Seq<char>>, i: int) -> bool {
    &&& 0 <= i < lines.len()
    &&& pair_of_line(lines[i]) is None
    &&& forall|j: int| 0 <= j < i ==> pair_of_line(lines[j]) is Some
}

/// Whether every line of `lines` names a branch.
pub open spec fn all_readable(lines: Seq<Seq<char>>) -> bool {
    forall|i: int| 0 <= i < lines.len() ==> pair_of_line(lines[i]) is Some
}

/// The pairs that the lines name, in order.
pub open spec fn pairs_of_lines(lines: Seq<Seq<char>>) -> Seq<BranchPairView> {
    Seq::new(lines.len(), |i: int| pair_of_line(lines[i])->0)
}

/// The pairs that the listing `text` names, where each of its lines names
/// one.
pub open spec fn pairs_of_listing(text: Seq<char>) -> Option<Seq<BranchPairView>> {
    if all_readable(lines_of(text)) {
        Some(pairs_of_lines(lines_of(text)))
    } else {
        None
    }
}

/// The first line of the listing `text` that names no branch. It is only
/// meant where there is one.
pub open spec fn first_unreadable_line(text: Seq<char>) -> Seq<char> {
    let i = choose|i: int| is_first_unreadable(lines_of(text), i);
    lines_of(text)[i]
}

/// At most one line is the first that says nothing.
pub proof fn lemma_first_unreadable_unique(lines: Seq<Seq<char>>, i: int, j: int)
    requires
        is_first_unreadable(lines, i),
        is_first_unreadable(lines, j),
    ensures
        i == j,
{
}

/// Reads one line of the listing (see `pair_of_line`).
pub fn parse_branch_line(line: &str) -> (r: Option<BranchUpstreamPair>)
    ensures
        match r {
            Some(pair) => pair_of_line(line@) == Some(pair@),
            None => pair_of_line(line@) is None,
        },
{
    let v = chars_of(line);
    let n: usize = v.len();
    assert(v@.subrange(0, n as int) =~= v@);
    if n > 0 && v[n - 1] == ':' {
        assert(v@.subrange(n - 1, n as int) =~= seq![':']);
        let (a, b) = trim_bounds(&v, 0, n - 1);
        return Some(
            BranchUpstreamPair { local: String::from_str(line.substring_char(a, b)), upstream: None },
        );
    }
    assert(!ends_with(line@, seq![':'])) by {
        if ends_with(line@, seq![':']) {
            assert(line@.subrange(n - 1, n as int)[0] == line@[n - 1]);
        }
    }
    let k: usize = find_char(&v, 0, n, ':');
    if k == n {
        return None;
    }
    let (a, b) = trim_bounds(&v, 0, k);
    let (c, d) = trim_bounds(&v, k + 1, n);
    Some(
        BranchUpstreamPair {
            local: String::from_str(line.substring_char(a, b)),
            upstream: Some(String::from_str(line.substring_char(c, d))),
        },
    )
}

/// Reads the listing of branches and upstreams, one `local:upstream` a line.
/// The result holds every branch, those without upstream too. Where a line
/// names no branch, the first such line comes back as the error.
pub fn parse_branch_list(listing: &str) -> (r: Result<Vec<BranchUpstreamPair>, String>)
    ensures
        match r {
            Ok(pairs) => pairs_of_listing(listing@) == Some(pairs_view(pairs@)),
            Err(line) => pairs_of_listing(listing@) is None && line@ == first_unreadable_line(
                listing@,
            ),
        },
{
    let all = lines(listing);
    let ghost ls = lines_of(listing@);
    let mut pairs: Vec<BranchUpstreamPair> = Vec::new();
    let mut i: usize = 0;
    while i < all.len()
        invariant
            i <= all.len(),
            views_of(all@) == ls,
            ls == lines_of(listing@),
            pairs@.len() == i,
            forall|j: int| 0 <= j < i ==> (#[trigger] pair_of_line(ls[j])) is Some,
            forall|j: int| 0 <= j < i ==> (#[trigger] pairs@[j])@ == pair_of_line(ls[j])->0,
        decreases all.len() - i,
    {
        match parse_branch_line(all[i]) {
            Some(pair) => {
                pairs.push(pair);
            },
            None => {
                proof {
                    assert(is_first_unreadable(ls, i as int));
                    let c = choose|c: int| is_first_unreadable(ls, c);
                    lemma_first_unreadable_unique(ls, c, i as int);
                }
                return Err(String::from_str(all[i]));
            },
        }
        i += 1;
    }
    Ok(pairs)
}

} // verus!
