//! Character-level string helpers shared by the library: the views of
//! `str::trim`, `str::lines`, substring search and the like, stated over
//! `Seq<char>` and implemented by loops over the characters.
use vstd::prelude::*;

verus! {

/// `String::push` appends one character.
pub assume_specification[ String::push ](s: &mut String, ch: char)
    ensures
        final(s)@ == old(s)@.push(ch),
;

/// `String::push_str` appends the characters of a string slice.
pub assume_specification[ String::push_str ](s: &mut String, string: &str)
    ensures
        final(s)@ == old(s)@ + string@,
;

/// Lowercase mapping of `str::to_lowercase` (Unicode full case mapping).
pub uninterp spec fn lowercase(s: Seq<char>) -> Seq<char>;

/// Calls `str::to_lowercase`; its result is the Unicode lowercase mapping,
/// which depends on the argument alone and is named `lowercase`.
#[verifier::external_body]
pub(crate) fn to_lowercase(s: &str) -> (r: String)
    ensures
        r@ == lowercase(s@),
{
    s.to_lowercase()
}

/// The characters of `s`, in order.
pub fn chars_of(s: &str) -> (r: Vec<char>)
    ensures
        r@ == s@,
{
    let mut v: Vec<char> = Vec::new();
    for c in it: s.chars()
        invariant
            v@ == it.seq().take(it.index() as int),
    {
        v.push(c);
    }
    v
}

/// A `String` holding the characters of `v`.
pub fn string_of(v: &[char]) -> (r: String)
    ensures
        r@ == v@,
{
    let mut s = String::new();
    let mut i: usize = 0;
    while i < v.len()
        invariant
            i <= v@.len(),
            s@ == v@.take(i as int),
        decreases v@.len() - i,
    {
        s.push(v[i]);
        assert(v@.take(i + 1) =~= v@.take(i as int).push(v@[i as int]));
        i = i + 1;
    }
    assert(v@.take(v@.len() as int) =~= v@);
    s
}

/// A `String` with the same characters as `s`.
pub fn owned(s: &str) -> (r: String)
    ensures
        r@ == s@,
{
    let v = chars_of(s);
    string_of(&v)
}

/// The characters of `a` followed by those of `b`.
pub fn concat(a: &str, b: &str) -> (r: String)
    ensures
        r@ == a@ + b@,
{
    let mut s = owned(a);
    s.push_str(b);
    s
}

/// `v[lo..hi]` as a new vector.
pub fn slice_of(v: &[char], lo: usize, hi: usize) -> (r: Vec<char>)
    requires
        lo <= hi <= v@.len(),
    ensures
        r@ == v@.subrange(lo as int, hi as int),
{
    let mut r: Vec<char> = Vec::new();
    let mut i = lo;
    while i < hi
        invariant
            lo <= i <= hi,
            hi <= v@.len(),
            r@ == v@.subrange(lo as int, i as int),
        decreases hi - i,
    {
        r.push(v[i]);
        assert(v@.subrange(lo as int, i + 1) =~= v@.subrange(lo as int, i as int).push(v@[i as int]));
        i = i + 1;
    }
    r
}

/// Equality of two character sequences.
pub fn chars_eq(a: &[char], b: &[char]) -> (r: bool)
    ensures
        r == (a@ == b@),
{
    if a.len() != b.len() {
        return false;
    }
    let mut i: usize = 0;
    while i < a.len()
        invariant
            a@.len() == b@.len(),
            i <= a@.len(),
            forall|k: int| 0 <= k < i ==> a@[k] == b@[k],
        decreases a@.len() - i,
    {
        if a[i] != b[i] {
            return false;
        }
        i = i + 1;
    }
    assert(a@ =~= b@);
    true
}

/// Equality of two string slices by their characters.
pub fn str_eq(a: &str, b: &str) -> (r: bool)
    ensures
        r == (a@ == b@),
{
    let x = chars_of(a);
    let y = chars_of(b);
    chars_eq(&x, &y)
}

/// `base` with `seg` pushed onto it as a path (`PathBuf::push` on Unix): an
/// absolute `seg` replaces `base`; otherwise a `/` is put between them
/// unless `base` is empty or already ends with one.
pub open spec fn join_path(base: Seq<char>, seg: Seq<char>) -> Seq<char> {
    if seg.len() > 0 && seg[0] == '/' {
        seg
    } else if base.len() > 0 && base.last() != '/' {
        base + seq!['/'] + seg
    } else {
        base + seg
    }
}

pub fn join(base: &str, seg: &str) -> (r: String)
    ensures
        r@ == join_path(base@, seg@),
{
    let b = chars_of(base);
    let s = chars_of(seg);
    if s.len() > 0 && s[0] == '/' {
        return owned(seg);
    }
    let mut out = owned(base);
    if b.len() > 0 && b[b.len() - 1] != '/' {
        out.push('/');
    }
    out.push_str(seg);
    out
}

/// The leading text of `s` up to its first whitespace character.
pub open spec fn until_ws(s: Seq<char>) -> Seq<char>
    decreases s.len(),
{
    if s.len() == 0 || is_ws(s[0]) {
        Seq::empty()
    } else {
        seq![s[0]] + until_ws(s.drop_first())
    }
}

/// The first word of `s` (`s.split_whitespace().next()`), or the empty text
/// when `s` holds none.
pub open spec fn first_word(s: Seq<char>) -> Seq<char> {
    until_ws(trim_start(s))
}

/// `s` without all leading copies of `p` (`str::trim_start_matches(p)`).
pub open spec fn strip_leading(s: Seq<char>, p: Seq<char>) -> Seq<char>
    decreases s.len(),
{
    if p.len() > 0 && starts_with(s, p) {
        strip_leading(s.skip(p.len() as int), p)
    } else {
        s
    }
}

/// `i` is the last index of `c` in `s`.
pub open spec fn last_at(s: Seq<char>, c: char, i: int) -> bool {
    0 <= i < s.len() && s[i] == c && forall|j: int| i < j < s.len() ==> s[j] != c
}

/// The index of the last `c` in `s` (`str::rfind`).
pub open spec fn rfind(s: Seq<char>, c: char) -> Option<int> {
    if exists|i: int| last_at(s, c, i) {
        Some(choose|i: int| last_at(s, c, i))
    } else {
        None
    }
}

/// The texts of `parts` with `sep` between each two (`[_]::join`).
pub open spec fn join_with(parts: Seq<Seq<char>>, sep: Seq<char>) -> Seq<char>
    decreases parts.len(),
{
    if parts.len() == 0 {
        Seq::empty()
    } else if parts.len() == 1 {
        parts[0]
    } else {
        join_with(parts.drop_last(), sep) + sep + parts.last()
    }
}

pub fn first_word_of(v: &[char]) -> (r: Vec<char>)
    ensures
        r@ == first_word(v@),
{
    let n = v.len();
    let mut lo: usize = 0;
    assert(v@.skip(0) =~= v@);
    while lo < n && is_whitespace(v[lo])
        invariant
            lo <= n == v@.len(),
            trim_start(v@) == trim_start(v@.skip(lo as int)),
        decreases n - lo,
    {
        assert(v@.skip(lo as int).drop_first() =~= v@.skip(lo + 1));
        lo = lo + 1;
    }
    assert(trim_start(v@) == v@.skip(lo as int));
    let mut hi: usize = lo;
    assert(v@.subrange(lo as int, lo as int) =~= Seq::<char>::empty());
    assert(v@.skip(lo as int) =~= v@.subrange(lo as int, lo as int) + v@.skip(lo as int));
    while hi < n && !is_whitespace(v[hi])
        invariant
            lo <= hi <= n == v@.len(),
            until_ws(v@.skip(lo as int)) == v@.subrange(lo as int, hi as int) + until_ws(
                v@.skip(hi as int),
            ),
        decreases n - hi,
    {
        assert(v@.skip(hi as int).drop_first() =~= v@.skip(hi + 1));
        assert(v@.subrange(lo as int, hi + 1) =~= v@.subrange(lo as int, hi as int) + seq![v@[hi as int]]);
        hi = hi + 1;
    }
    assert(until_ws(v@.skip(hi as int)) =~= Seq::<char>::empty());
    assert(until_ws(v@.skip(lo as int)) =~= v@.subrange(lo as int, hi as int));
    slice_of(v, lo, hi)
}

pub fn strip_leading_chars(v: &[char], p: &[char]) -> (r: Vec<char>)
    ensures
        r@ == strip_leading(v@, p@),
{
    let n = v.len();
    if p.len() == 0 {
        return slice_of(v, 0, n);
    }
    let mut lo: usize = 0;
    assert(v@.skip(0) =~= v@);
    loop
        invariant
            lo <= n == v@.len(),
            p@.len() > 0,
            strip_leading(v@, p@) == strip_leading(v@.skip(lo as int), p@),
        decreases n - lo,
    {
        let rest = slice_of(v, lo, n);
        assert(rest@ =~= v@.skip(lo as int));
        if starts_with_chars(&rest, p) {
            assert(v@.skip(lo as int).skip(p@.len() as int) =~= v@.skip(lo + p@.len()));
            lo = lo + p.len();
        } else {
            return rest;
        }
    }
}

pub fn rfind_char(v: &[char], c: char) -> (r: Option<usize>)
    ensures
        r matches Some(i) ==> rfind(v@, c) == Some(i as int) && last_at(v@, c, i as int),
        r is None ==> rfind(v@, c) is None,
{
    let mut i: usize = v.len();
    while i > 0
        invariant
            i <= v@.len(),
            forall|j: int| i <= j < v@.len() ==> v@[j] != c,
        decreases i,
    {
        if v[i - 1] == c {
            proof {
                let k = choose|k: int| last_at(v@, c, k);
                assert(last_at(v@, c, i - 1));
                if k < i - 1 {
                    assert(v@[i - 1] != c);
                } else if k > i - 1 {
                    assert(v@[k] != c);
                }
            }
            return Some(i - 1);
        }
        i = i - 1;
    }
    None
}

/// Unicode `White_Space`, the property that `char::is_whitespace` tests.
pub open spec fn is_ws(c: char) -> bool {
    let n = c as u32;
    ||| 0x09 <= n <= 0x0d
    ||| n == 0x20
    ||| n == 0x85
    ||| n == 0xa0
    ||| n == 0x1680
    ||| 0x2000 <= n <= 0x200a
    ||| n == 0x2028
    ||| n == 0x2029
    ||| n == 0x202f
    ||| n == 0x205f
    ||| n == 0x3000
}

pub fn is_whitespace(c: char) -> (r: bool)
    ensures
        r == is_ws(c),
{
    let n = c as u32;
    (0x09 <= n && n <= 0x0d) || n == 0x20 || n == 0x85 || n == 0xa0 || n == 0x1680
        || (0x2000 <= n && n <= 0x200a) || n == 0x2028 || n == 0x2029 || n == 0x202f
        || n == 0x205f || n == 0x3000
}

/// `s` without its leading whitespace.
pub open spec fn trim_start(s: Seq<char>) -> Seq<char>
    decreases s.len(),
{
    if s.len() > 0 && is_ws(s[0]) {
        trim_start(s.drop_first())
    } else {
        s
    }
}

/// `s` without its trailing whitespace.
pub open spec fn trim_end(s: Seq<char>) -> Seq<char>
    decreases s.len(),
{
    if s.len() > 0 && is_ws(s.last()) {
        trim_end(s.drop_last())
    } else {
        s
    }
}

/// What `str::trim` leaves of `s`.
pub open spec fn trim(s: Seq<char>) -> Seq<char> {
    trim_end(trim_start(s))
}

/// `s` without the trailing copies of `c` (`str::trim_end_matches(c)`).
pub open spec fn strip_trailing(s: Seq<char>, c: char) -> Seq<char>
    decreases s.len(),
{
    if s.len() > 0 && s.last() == c {
        strip_trailing(s.drop_last(), c)
    } else {
        s
    }
}

pub fn trim_chars(v: &[char]) -> (r: Vec<char>)
    ensures
        r@ == trim(v@),
{
    let n = v.len();
    let mut lo: usize = 0;
    assert(v@.skip(0) =~= v@);
    while lo < n && is_whitespace(v[lo])
        invariant
            lo <= n == v@.len(),
            trim_start(v@) == trim_start(v@.skip(lo as int)),
        decreases n - lo,
    {
        assert(v@.skip(lo as int).drop_first() =~= v@.skip(lo + 1));
        lo = lo + 1;
    }
    assert(trim_start(v@) == v@.skip(lo as int));
    let mut hi: usize = n;
    while hi > lo && is_whitespace(v[hi - 1])
        invariant
            lo <= hi <= n == v@.len(),
            trim_end(v@.skip(lo as int)) == trim_end(v@.subrange(lo as int, hi as int)),
        decreases hi,
    {
        assert(v@.subrange(lo as int, hi as int).drop_last() =~= v@.subrange(lo as int, hi - 1));
        hi = hi - 1;
    }
    assert(v@.subrange(lo as int, n as int) =~= v@.skip(lo as int));
    slice_of(v, lo, hi)
}

pub fn strip_trailing_char(v: &[char], c: char) -> (r: Vec<char>)
    ensures
        r@ == strip_trailing(v@, c),
{
    let mut hi: usize = v.len();
    assert(v@.subrange(0, hi as int) =~= v@);
    while hi > 0 && v[hi - 1] == c
        invariant
            hi <= v@.len(),
            strip_trailing(v@, c) == strip_trailing(v@.subrange(0, hi as int), c),
        decreases hi,
    {
        assert(v@.subrange(0, hi as int).drop_last() =~= v@.subrange(0, hi - 1));
        hi = hi - 1;
    }
    slice_of(v, 0, hi)
}

/// `pat` occurs in `s` starting at index `i`.
pub open spec fn occurs_at(s: Seq<char>, pat: Seq<char>, i: int) -> bool {
    0 <= i && i + pat.len() <= s.len() && s.subrange(i, i + pat.len()) == pat
}

/// `pat` occurs in `s` (`str::contains`).
pub open spec fn contains(s: Seq<char>, pat: Seq<char>) -> bool {
    exists|i: int| occurs_at(s, pat, i)
}

/// `i` is the first index at which `pat` occurs in `s`.
pub open spec fn first_at(s: Seq<char>, pat: Seq<char>, i: int) -> bool {
    occurs_at(s, pat, i) && forall|j: int| 0 <= j < i ==> !occurs_at(s, pat, j)
}

/// The index of the first occurrence of `pat` in `s` (`str::find`).
pub open spec fn find(s: Seq<char>, pat: Seq<char>) -> Option<int> {
    if exists|i: int| first_at(s, pat, i) {
        Some(choose|i: int| first_at(s, pat, i))
    } else {
        None
    }
}

/// `s` begins with `p`.
pub open spec fn starts_with(s: Seq<char>, p: Seq<char>) -> bool {
    p.len() <= s.len() && s.take(p.len() as int) == p
}

pub proof fn lemma_first_unique(s: Seq<char>, pat: Seq<char>, i: int, k: int)
    requires
        first_at(s, pat, i),
        first_at(s, pat, k),
    ensures
        i == k,
{
    if i < k {
        assert(!occurs_at(s, pat, i));
    } else if k < i {
        assert(!occurs_at(s, pat, k));
    }
}

/// A found index is the first occurrence; `find` then names it.
pub proof fn lemma_find_is(s: Seq<char>, pat: Seq<char>, i: int)
    requires
        first_at(s, pat, i),
    ensures
        find(s, pat) == Some(i),
{
    let k = choose|k: int| first_at(s, pat, k);
    lemma_first_unique(s, pat, i, k);
}

/// When `pat` occurs nowhere, `find` gives `None`.
pub proof fn lemma_find_none(s: Seq<char>, pat: Seq<char>)
    requires
        !contains(s, pat),
    ensures
        find(s, pat) is None,
{
}

/// `pat` occurs at `i` in `v` (exec check).
pub fn matches_at(v: &[char], pat: &[char], i: usize) -> (r: bool)
    ensures
        r == occurs_at(v@, pat@, i as int),
{
    if pat.len() > v.len() || i > v.len() - pat.len() {
        return false;
    }
    let mut k: usize = 0;
    while k < pat.len()
        invariant
            k <= pat@.len(),
            pat.len() == pat@.len(),
            v.len() == v@.len(),
            i + pat@.len() <= v@.len(),
            forall|m: int| 0 <= m < k ==> v@[i + m] == pat@[m],
        decreases pat@.len() - k,
    {
        if v[i + k] != pat[k] {
            assert(v@.subrange(i as int, i + pat@.len())[k as int] != pat@[k as int]);
            return false;
        }
        k = k + 1;
    }
    assert(v@.subrange(i as int, i + pat@.len()) =~= pat@);
    true
}

/// The first index at which `pat` occurs in `v`.
pub fn find_in(v: &[char], pat: &[char]) -> (r: Option<usize>)
    ensures
        r matches Some(i) ==> find(v@, pat@) == Some(i as int) && first_at(v@, pat@, i as int),
        r is None ==> find(v@, pat@) is None && !contains(v@, pat@),
{
    if pat.len() > v.len() {
        assert forall|j: int| !occurs_at(v@, pat@, j) by {}
        return None;
    }
    let last = v.len() - pat.len();
    let mut i: usize = 0;
    loop
        invariant
            i <= last,
            last + pat@.len() == v@.len(),
            forall|j: int| 0 <= j < i ==> !occurs_at(v@, pat@, j),
        decreases last - i,
    {
        if matches_at(v, pat, i) {
            proof {
                lemma_find_is(v@, pat@, i as int);
            }
            return Some(i);
        }
        if i == last {
            assert forall|j: int| !occurs_at(v@, pat@, j) by {
                if 0 <= j && j <= last && j != i {
                    assert(j < i);
                }
            }
            return None;
        }
        i = i + 1;
    }
}

/// Exec `contains`.
pub fn contains_chars(v: &[char], pat: &[char]) -> (r: bool)
    ensures
        r == contains(v@, pat@),
{
    match find_in(v, pat) {
        Some(i) => {
            assert(occurs_at(v@, pat@, i as int));
            true
        },
        None => false,
    }
}

/// Exec `contains` on string slices.
pub fn str_contains(s: &str, pat: &str) -> (r: bool)
    ensures
        r == contains(s@, pat@),
{
    let v = chars_of(s);
    let p = chars_of(pat);
    contains_chars(&v, &p)
}

pub fn starts_with_chars(v: &[char], p: &[char]) -> (r: bool)
    ensures
        r == starts_with(v@, p@),
{
    let r = matches_at(v, p, 0);
    proof {
        if r {
            assert(v@.take(p@.len() as int) =~= v@.subrange(0, p@.len() as int));
        } else if p@.len() <= v@.len() {
            assert(v@.take(p@.len() as int) =~= v@.subrange(0, p@.len() as int));
        }
    }
    r
}

/// The first line of `s` as `str::lines().next()` gives it: the text up to
/// the first `'\n'`, without a `'\r'` that stands just before that `'\n'`.
pub open spec fn first_line(s: Seq<char>) -> Option<Seq<char>> {
    if s.len() == 0 {
        None
    } else {
        match find(s, seq!['\n']) {
            Some(i) => {
                let p = s.take(i);
                if p.len() > 0 && p.last() == '\r' {
                    Some(p.drop_last())
                } else {
                    Some(p)
                }
            },
            None => Some(s),
        }
    }
}

pub fn first_line_of(v: &[char]) -> (r: Option<Vec<char>>)
    ensures
        r matches Some(l) ==> first_line(v@) == Some(l@),
        r is None ==> first_line(v@) is None,
{
    if v.len() == 0 {
        return None;
    }
    let nl: Vec<char> = vec!['\n'];
    assert(nl@ =~= seq!['\n']);
    match find_in(v, &nl) {
        Some(i) => {
            if i > 0 && v[i - 1] == '\r' {
                let p = slice_of(v, 0, i - 1);
                assert(p@ =~= v@.take(i as int).drop_last());
                Some(p)
            } else {
                let p = slice_of(v, 0, i);
                assert(p@ =~= v@.take(i as int));
                Some(p)
            }
        },
        None => {
            let p = slice_of(v, 0, v.len());
            assert(p@ =~= v@);
            Some(p)
        },
    }
}

/// The second field of `s.split(sep)`: the text between the first and the
/// second occurrence of `sep` (or the end), when `sep` occurs at all.
pub open spec fn second_field(s: Seq<char>, sep: Seq<char>) -> Option<Seq<char>> {
    match find(s, sep) {
        Some(i) => {
            let rest = s.skip(i + sep.len());
            match find(rest, sep) {
                Some(j) => Some(rest.take(j)),
                None => Some(rest),
            }
        },
        None => None,
    }
}

/// The text of `s` before the first occurrence of `sep`, or all of `s`.
pub open spec fn before(s: Seq<char>, sep: Seq<char>) -> Seq<char> {
    match find(s, sep) {
        Some(i) => s.take(i),
        None => s,
    }
}

pub fn before_chars(v: &[char], sep: &[char]) -> (r: Vec<char>)
    ensures
        r@ == before(v@, sep@),
{
    match find_in(v, sep) {
        Some(i) => {
            let r = slice_of(v, 0, i);
            assert(r@ =~= v@.take(i as int));
            r
        },
        None => slice_of(v, 0, v.len()),
    }
}

pub fn second_field_chars(v: &[char], sep: &[char]) -> (r: Option<Vec<char>>)
    ensures
        r matches Some(f) ==> second_field(v@, sep@) == Some(f@),
        r is None ==> second_field(v@, sep@) is None,
{
    match find_in(v, sep) {
        Some(i) => {
            assert(occurs_at(v@, sep@, i as int));
            assert(i + sep@.len() <= v@.len());
            assert(sep.len() == sep@.len() && v.len() == v@.len());
            let rest = slice_of(v, i + sep.len(), v.len());
            assert(rest@ =~= v@.skip(i + sep@.len()));
            let f = before_chars(&rest, sep);
            Some(f)
        },
        None => None,
    }
}

/// `s` without its last character, as `String::pop` leaves it; an empty
/// text stays empty.
pub open spec fn without_last(s: Seq<char>) -> Seq<char> {
    if s.len() > 0 {
        s.drop_last()
    } else {
        s
    }
}

/// Removes the last character of `s`, if any.
pub fn pop_char(s: &mut String)
    ensures
        final(s)@ == without_last(old(s)@),
{
    let v = chars_of(s.as_str());
    if v.len() > 0 {
        let w = slice_of(&v, 0, v.len() - 1);
        assert(w@ =~= v@.drop_last());
        *s = string_of(&w);
    }
}

} // verus!
