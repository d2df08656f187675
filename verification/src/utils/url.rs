//! The canonical HTTPS form of a repository reference.
use crate::utils::text::{
    chars_of, lemma_trimmed_ends, lemma_trimmed_fixed, starts_with, starts_with_at, trim,
    trimmed, without_prefix,
};
use vstd::prelude::*;

verus! {

/// The scheme that is never kept: `http://`.
pub open spec fn http_scheme() -> Seq<char> {
    seq!['h', 't', 't', 'p', ':', '/', '/']
}

/// The scheme of every canonical URL: `https://`.
pub open spec fn https_scheme() -> Seq<char> {
    seq!['h', 't', 't', 'p', 's', ':', '/', '/']
}

/// The canonical URL of the reference `raw`: surrounding whitespace and one
/// leading `http://` are dropped, and `https://` is put in front unless it is
/// there already.
pub open spec fn normalized(raw: Seq<char>) -> Seq<char> {
    let rest = without_prefix(trimmed(raw), http_scheme());
    if starts_with(rest, https_scheme()) {
        rest
    } else {
        https_scheme() + rest
    }
}

/// A canonical URL begins with `https://`.
pub proof fn lemma_normalized_is_https(raw: Seq<char>)
    ensures
        starts_with(normalized(raw), https_scheme()),
{
    let rest = without_prefix(trimmed(raw), http_scheme());
    if !starts_with(rest, https_scheme()) {
        assert((https_scheme() + rest).subrange(0, 8) =~= https_scheme());
    }
}

/// A canonical URL has no whitespace at either end.
pub proof fn lemma_normalized_is_trimmed(raw: Seq<char>)
    ensures
        trimmed(normalized(raw)) == normalized(raw),
{
    lemma_normalized_is_https(raw);
    lemma_trimmed_ends(raw);
    lemma_trimmed_fixed(normalized(raw));
}

/// Normalising is idempotent: the canonical URL of a canonical URL is that
/// URL.
pub proof fn lemma_normalize_idempotent(raw: Seq<char>)
    ensures
        normalized(normalized(raw)) == normalized(raw),
{
    lemma_normalized_is_https(raw);
    lemma_normalized_is_trimmed(raw);
}

/// A reference without a scheme, with `http://` or with `https://` in front
/// has one and the same canonical URL, `https://` and the reference.
pub proof fn lemma_normalize_schemes_agree(bare: Seq<char>)
    requires
        trimmed(bare) == bare,
        !starts_with(bare, http_scheme()),
        !starts_with(bare, https_scheme()),
    ensures
        normalized(bare) == https_scheme() + bare,
        normalized(http_scheme() + bare) == https_scheme() + bare,
        normalized(https_scheme() + bare) == https_scheme() + bare,
{
    lemma_trimmed_ends(bare);
    let a = http_scheme() + bare;
    let b = https_scheme() + bare;
    lemma_trimmed_fixed(a);
    lemma_trimmed_fixed(b);
    assert(a.subrange(0, 7) =~= http_scheme());
    assert(a.subrange(7, a.len() as int) =~= bare);
    assert(b.subrange(0, 8) =~= https_scheme());
}

/// The canonical HTTPS URL of the reference `url`.
pub fn normalize(url: &str) -> (r: String)
    ensures
        r@ == normalized(url@),
        starts_with(r@, https_scheme()),
{
    proof {
        lemma_normalized_is_https(url@);
    }
    let t = trim(url);
    let v = chars_of(t);
    let n: usize = v.len();
    let http = chars_of("http://");
    let https = chars_of("https://");
    proof {
        reveal_strlit("http://");
        reveal_strlit("https://");
        assert(http@ =~= http_scheme());
        assert(https@ =~= https_scheme());
        assert(v@.subrange(0, n as int) =~= v@);
    }
    let from: usize = if starts_with_at(&v, 0, n, &http) {
        7
    } else {
        0
    };
    let rest = t.substring_char(from, n);
    if starts_with_at(&v, from, n, &https) {
        String::from_str(rest)
    } else {
        String::from_str("https://").concat(rest)
    }
}

} // verus!
