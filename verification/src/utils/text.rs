//! Character-level primitives on which the URL and listing parsers rest.
//!
//! Every function here is stated over `Seq<char>`, the view of `str` and
//! `String`. The executable versions scan a `Vec<char>` copy of the input by
//! index and cut the answer out of the input itself.
use vstd::prelude::*;

verus! {

/// Whether `c` has the Unicode `White_Space` property.
pub open spec fn is_whitespace(c: char) -> bool {
    let n = c as u32;
    ||| 0x09 <= n <= 0x0D
    ||| n == 0x20
    ||| n == 0x85
    ||| n == 0xA0
    ||| n == 0x1680
    ||| 0x2000 <= n <= 0x200A
    ||| n == 0x2028
    ||| n == 0x2029
    ||| n == 0x202F
    ||| n == 0x205F
    ||| n == 0x3000
}

/// `s` without its leading whitespace.
pub open spec fn trimmed_start(s: Seq<char>) -> Seq<char>
    decreases s.len(),
{
    if s.len() > 0 && is_whitespace(s.first()) {
        trimmed_start(s.drop_first())
    } else {
        s
    }
}

/// `s` without its trailing whitespace.
pub open spec fn trimmed_end(s: Seq<char>) -> Seq<char>
    decreases s.len(),
{
    if s.len() > 0 && is_whitespace(s.last()) {
        trimmed_end(s.drop_last())
    } else {
        s
    }
}

/// `s` without the whitespace at either end.
pub open spec fn trimmed(s: Seq<char>) -> Seq<char> {
    trimmed_end(trimmed_start(s))
}

/// Whether `s` begins with `p`.
pub open spec fn starts_with(s: Seq<char>, p: Seq<char>) -> bool {
    p.len() <= s.len() && s.subrange(0, p.len() as int) == p
}

/// Whether `s` ends with `p`.
pub open spec fn ends_with(s: Seq<char>, p: Seq<char>) -> bool {
    p.len() <= s.len() && s.subrange(s.len() - p.len(), s.len() as int) == p
}

/// `s` without the prefix `p`, or `s` itself where it does not begin with `p`.
pub open spec fn without_prefix(s: Seq<char>, p: Seq<char>) -> Seq<char> {
    if starts_with(s, p) {
        s.subrange(p.len() as int, s.len() as int)
    } else {
        s
    }
}

/// The part of `s` after its last `sep`; all of `s` where it holds none.
pub open spec fn last_segment(s: Seq<char>, sep: char) -> Seq<char>
    decreases s.len(),
{
    if s.len() == 0 || s.last() == sep {
        Seq::empty()
    } else {
        last_segment(s.drop_last(), sep).push(s.last())
    }
}

/// `s` with every occurrence of `p` cut out, found from left to right without
/// overlap. What the cuts leave behind is not searched again.
pub open spec fn without_all(s: Seq<char>, p: Seq<char>) -> Seq<char>
    decreases s.len(),
{
    if p.len() == 0 || s.len() < p.len() {
        s
    } else if starts_with(s, p) {
        without_all(s.subrange(p.len() as int, s.len() as int), p)
    } else {
        seq![s.first()] + without_all(s.drop_first(), p)
    }
}

/// Where the first `c` of `s` stands; `s.len()` where it holds none.
pub open spec fn position_of(s: Seq<char>, c: char) -> int
    decreases s.len(),
{
    if s.len() == 0 || s.first() == c {
        0
    } else {
        1 + position_of(s.drop_first(), c)
    }
}

/// `line` without one trailing carriage return.
pub open spec fn without_cr(line: Seq<char>) -> Seq<char> {
    if line.len() > 0 && line.last() == '\r' {
        line.drop_last()
    } else {
        line
    }
}

/// The lines of `s`. A line ends at `\n` or at `\r\n`; the terminator is no
/// part of the line, and the last line needs none.
pub open spec fn lines_of(s: Seq<char>) -> Seq<Seq<char>>
    decreases s.len(),
{
    if s.len() == 0 {
        Seq::empty()
    } else {
        let k = position_of(s, '\n');
        if !(0 <= k < s.len()) {
            seq![s]
        } else {
            seq![without_cr(s.subrange(0, k))] + lines_of(s.subrange(k + 1, s.len() as int))
        }
    }
}

/// The decimal digit for `d`, which is below ten.
pub open spec fn digit_of(d: nat) -> char {
    seq!['0', '1', '2', '3', '4', '5', '6', '7', '8', '9'][d as int]
}

/// `n` in decimal, without leading zeros.
pub open spec fn decimal_of(n: nat) -> Seq<char>
    decreases n,
{
    if n < 10 {
        seq![digit_of(n)]
    } else {
        decimal_of(n / 10).push(digit_of(n % 10))
    }
}

/// The views of a list of string slices.
pub open spec fn views_of(v: Seq<&str>) -> Seq<Seq<char>> {
    Seq::new(v.len(), |i: int| v[i]@)
}

/// The views of a list of strings.
pub open spec fn texts_of(v: Seq<String>) -> Seq<Seq<char>> {
    Seq::new(v.len(), |i: int| v[i]@)
}

/// What `trimmed_start` returns is a tail of its argument that does not begin
/// with whitespace.
pub proof fn lemma_trimmed_start(s: Seq<char>)
    ensures
        trimmed_start(s).len() <= s.len(),
        trimmed_start(s) == s.subrange(s.len() - trimmed_start(s).len(), s.len() as int),
        trimmed_start(s).len() > 0 ==> !is_whitespace(trimmed_start(s).first()),
    decreases s.len(),
{
    if s.len() > 0 && is_whitespace(s.first()) {
        lemma_trimmed_start(s.drop_first());
    }
}

/// What `trimmed_end` returns is a head of its argument that does not end in
/// whitespace.
pub proof fn lemma_trimmed_end(s: Seq<char>)
    ensures
        trimmed_end(s).len() <= s.len(),
        trimmed_end(s) == s.subrange(0, trimmed_end(s).len() as int),
        trimmed_end(s).len() > 0 ==> !is_whitespace(trimmed_end(s).last()),
    decreases s.len(),
{
    if s.len() > 0 && is_whitespace(s.last()) {
        lemma_trimmed_end(s.drop_last());
    }
}

/// What `trimmed` returns neither begins nor ends with whitespace.
pub proof fn lemma_trimmed_ends(s: Seq<char>)
    ensures
        trimmed(s).len() > 0 ==> !is_whitespace(trimmed(s).first()) && !is_whitespace(
            trimmed(s).last(),
        ),
{
    lemma_trimmed_start(s);
    lemma_trimmed_end(trimmed_start(s));
}

/// Text that neither begins nor ends with whitespace is left as it is.
pub proof fn lemma_trimmed_fixed(s: Seq<char>)
    requires
        s.len() > 0 ==> !is_whitespace(s.first()) && !is_whitespace(s.last()),
    ensures
        trimmed(s) == s,
{
}

/// A position that stands on the first `c` of `s`, or at the end of an `s`
/// without any, is `position_of`.
pub proof fn lemma_position_of_is(s: Seq<char>, c: char, k: int)
    requires
        0 <= k <= s.len(),
        k < s.len() ==> s[k] == c,
        forall|j: int| 0 <= j < k ==> s[j] != c,
    ensures
        position_of(s, c) == k,
    decreases s.len(),
{
    if s.len() > 0 && s.first() != c {
        lemma_position_of_is(s.drop_first(), c, k - 1);
    }
}

/// Decides `is_whitespace` for one character.
pub fn char_is_whitespace(c: char) -> (r: bool)
    ensures
        r == is_whitespace(c),
{
    let n: u32 = c as u32;
    (0x09 <= n && n <= 0x0D) || n == 0x20 || n == 0x85 || n == 0xA0 || n == 0x1680 || (0x2000 <= n
        && n <= 0x200A) || n == 0x2028 || n == 0x2029 || n == 0x202F || n == 0x205F || n == 0x3000
}

/// The characters of `s`, in order.
pub fn chars_of(s: &str) -> (v: Vec<char>)
    ensures
        v@ == s@,
{
    broadcast use vstd::string::group_string_axioms;

    let mut v: Vec<char> = Vec::new();
    let chars = s.chars();
    for c in it: chars
        invariant
            it.seq() == s@,
            v@ == s@.take(it.index()),
    {
        v.push(c);
    }
    v
}

/// The bounds of what is left of `v[from..to]` once the whitespace at both
/// ends is gone.
pub fn trim_bounds(v: &Vec<char>, from: usize, to: usize) -> (r: (usize, usize))
    requires
        from <= to <= v.len(),
    ensures
        from <= r.0 <= r.1 <= to,
        v@.subrange(r.0 as int, r.1 as int) == trimmed(v@.subrange(from as int, to as int)),
{
    let mut a: usize = from;
    while a < to && char_is_whitespace(v[a])
        invariant
            from <= a <= to <= v.len(),
            trimmed_start(v@.subrange(from as int, to as int)) == trimmed_start(
                v@.subrange(a as int, to as int),
            ),
        decreases to - a,
    {
        assert(v@.subrange(a as int, to as int).drop_first() =~= v@.subrange(a + 1, to as int));
        a += 1;
    }
    let mut b: usize = to;
    while b > a && char_is_whitespace(v[b - 1])
        invariant
            a <= b <= to <= v.len(),
            trimmed_end(v@.subrange(a as int, to as int)) == trimmed_end(
                v@.subrange(a as int, b as int),
            ),
        decreases b - a,
    {
        assert(v@.subrange(a as int, b as int).drop_last() =~= v@.subrange(a as int, b - 1));
        b -= 1;
    }
    (a, b)
}

/// `s` without the whitespace at either end.
pub fn trim<'a>(s: &'a str) -> (r: &'a str)
    ensures
        r@ == trimmed(s@),
{
    let v = chars_of(s);
    let (a, b) = trim_bounds(&v, 0, v.len());
    assert(v@.subrange(0, v.len() as int) =~= v@);
    s.substring_char(a, b)
}

/// Whether `v[from..to]` begins with `p`.
pub fn starts_with_at(v: &Vec<char>, from: usize, to: usize, p: &Vec<char>) -> (r: bool)
    requires
        from <= to <= v.len(),
    ensures
        r == starts_with(v@.subrange(from as int, to as int), p@),
{
    let n: usize = p.len();
    if n > to - from {
        return false;
    }
    let ghost s = v@.subrange(from as int, to as int);
    let mut i: usize = 0;
    while i < n
        invariant
            from <= to <= v.len(),
            n == p.len(),
            n <= to - from,
            i <= n,
            s == v@.subrange(from as int, to as int),
            forall|j: int| 0 <= j < i ==> s[j] == p@[j],
        decreases n - i,
    {
        if v[from + i] != p[i] {
            return false;
        }
        i += 1;
    }
    assert(s.subrange(0, n as int) =~= p@);
    true
}

/// Where the first `c` of `v[from..to]` stands, or `to` where it holds none.
pub fn find_char(v: &Vec<char>, from: usize, to: usize, c: char) -> (k: usize)
    requires
        from <= to <= v.len(),
    ensures
        from <= k <= to,
        k - from == position_of(v@.subrange(from as int, to as int), c),
        k < to ==> v@[k as int] == c,
        forall|j: int| from <= j < k ==> v@[j] != c,
{
    let mut k: usize = from;
    while k < to && v[k] != c
        invariant
            from <= k <= to <= v.len(),
            forall|j: int| from <= j < k ==> v@[j] != c,
        decreases to - k,
    {
        k += 1;
    }
    proof {
        lemma_position_of_is(v@.subrange(from as int, to as int), c, k - from);
    }
    k
}

/// Where the last segment of `v[from..to]` starts: just behind its last
/// `sep`, or at `from` where it holds none.
pub fn last_segment_start(v: &Vec<char>, from: usize, to: usize, sep: char) -> (k: usize)
    requires
        from <= to <= v.len(),
    ensures
        from <= k <= to,
        v@.subrange(k as int, to as int) == last_segment(v@.subrange(from as int, to as int), sep),
        k > from ==> v@[k - 1] == sep,
        forall|j: int| k <= j < to ==> v@[j] != sep,
{
    let mut k: usize = to;
    while k > from && v[k - 1] != sep
        invariant
            from <= k <= to <= v.len(),
            forall|j: int| k <= j < to ==> v@[j] != sep,
            last_segment(v@.subrange(from as int, to as int), sep) == last_segment(
                v@.subrange(from as int, k as int),
                sep,
            ) + v@.subrange(k as int, to as int),
        decreases k - from,
    {
        assert(v@.subrange(from as int, k as int).drop_last() =~= v@.subrange(from as int, k - 1));
        k -= 1;
    }
    k
}

/// Whether `a` and `b` hold the same characters.
pub fn same_text(a: &str, b: &str) -> (r: bool)
    ensures
        r == (a@ == b@),
{
    let x = chars_of(a);
    let y = chars_of(b);
    if x.len() != y.len() {
        return false;
    }
    let mut i: usize = 0;
    while i < x.len()
        invariant
            x@ == a@,
            y@ == b@,
            x.len() == y.len(),
            i <= x.len(),
            forall|j: int| 0 <= j < i ==> x@[j] == y@[j],
        decreases x.len() - i,
    {
        if x[i] != y[i] {
            return false;
        }
        i += 1;
    }
    assert(x@ =~= y@);
    true
}

/// `s` with every occurrence of `pat` cut out (see `without_all`).
pub fn remove_all(s: &str, pat: &str) -> (r: String)
    ensures
        r@ == without_all(s@, pat@),
{
    let v = chars_of(s);
    let p = chars_of(pat);
    let n: usize = v.len();
    let m: usize = p.len();
    if m == 0 || n < m {
        return String::from_str(s);
    }
    let mut out = String::new();
    let mut run: usize = 0;
    let mut i: usize = 0;
    assert(out@ + v@.subrange(0, 0) + without_all(v@.subrange(0, n as int), p@) =~= without_all(
        v@,
        p@,
    )) by {
        assert(v@.subrange(0, n as int) =~= v@);
    }
    while i < n
        invariant
            n == v.len(),
            m == p.len(),
            m > 0,
            v@ == s@,
            run <= i <= n,
            out@ + v@.subrange(run as int, i as int) + without_all(
                v@.subrange(i as int, n as int),
                p@,
            ) == without_all(v@, p@),
        decreases n - i,
    {
        let ghost rest = v@.subrange(i as int, n as int);
        if starts_with_at(&v, i, n, &p) {
            out.append(s.substring_char(run, i));
            assert(rest.subrange(m as int, rest.len() as int) =~= v@.subrange(i + m, n as int));
            i += m;
            run = i;
        } else {
            assert(rest.drop_first() =~= v@.subrange(i + 1, n as int));
            assert(without_all(rest, p@) == seq![rest.first()] + without_all(rest.drop_first(), p@));
            i += 1;
        }
    }
    out.append(s.substring_char(run, n));
    out
}

/// The lines of `s` (see `lines_of`), each a slice of `s`.
pub fn lines<'a>(s: &'a str) -> (r: Vec<&'a str>)
    ensures
        views_of(r@) == lines_of(s@),
{
    let v = chars_of(s);
    let n: usize = v.len();
    let mut out: Vec<&'a str> = Vec::new();
    let mut pos: usize = 0;
    assert(views_of(out@) + lines_of(v@.subrange(0, n as int)) =~= lines_of(v@)) by {
        assert(v@.subrange(0, n as int) =~= v@);
    }
    while pos < n
        invariant
            n == v.len(),
            v@ == s@,
            pos <= n,
            views_of(out@) + lines_of(v@.subrange(pos as int, n as int)) == lines_of(v@),
        decreases n - pos,
    {
        let ghost rest = v@.subrange(pos as int, n as int);
        let k: usize = find_char(&v, pos, n, '\n');
        if k == n {
            let line = s.substring_char(pos, n);
            out.push(line);
            pos = n;
        } else {
            let end: usize = if k > pos && v[k - 1] == '\r' {
                k - 1
            } else {
                k
            };
            let line = s.substring_char(pos, end);
            out.push(line);
            assert(line@ =~= without_cr(rest.subrange(0, k - pos)));
            assert(rest.subrange(k - pos + 1, rest.len() as int) =~= v@.subrange(k + 1, n as int));
            pos = k + 1;
        }
    }
    out
}

/// `n` in decimal (see `decimal_of`).
pub fn decimal(n: usize) -> (r: String)
    ensures
        r@ == decimal_of(n as nat),
    decreases n,
{
    let digits = "0123456789";
    proof {
        reveal_strlit("0123456789");
    }
    if n < 10 {
        String::from_str(digits.substring_char(n, n + 1))
    } else {
        let low: usize = n % 10;
        decimal(n / 10).concat(digits.substring_char(low, low + 1))
    }
}

} // verus!
