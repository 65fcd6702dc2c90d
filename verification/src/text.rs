//! Sequence and string helpers shared by the detectors: substring search,
//! trimming, case folding and the few conversions that std performs.
use vstd::prelude::*;
use vstd::string::*;
use vstd::utf8::*;

verus! {

broadcast use vstd::string::group_string_axioms;

// ---------------------------------------------------------------------------
// Substring search
// ---------------------------------------------------------------------------

/// `pat` occurs in `s` starting at index `i`.
pub open spec fn matches_at<T>(s: Seq<T>, pat: Seq<T>, i: int) -> bool {
    &&& 0 <= i
    &&& i + pat.len() <= s.len()
    &&& s.subrange(i, i + pat.len()) == pat
}

/// `i` is the leftmost occurrence of `pat` in `s`.
pub open spec fn is_first_match<T>(s: Seq<T>, pat: Seq<T>, i: int) -> bool {
    &&& matches_at(s, pat, i)
    &&& forall|j: int| 0 <= j < i ==> !matches_at(s, pat, j)
}

/// `pat` occurs somewhere in `s`.
pub open spec fn contains_seq<T>(s: Seq<T>, pat: Seq<T>) -> bool {
    exists|i: int| matches_at(s, pat, i)
}

/// Index of the leftmost occurrence of `pat` in `s`, as `str::find` reports it.
pub open spec fn find_seq<T>(s: Seq<T>, pat: Seq<T>) -> Option<int> {
    if exists|i: int| is_first_match(s, pat, i) {
        Some(choose|i: int| is_first_match(s, pat, i))
    } else {
        None
    }
}

pub open spec fn opt_int(r: Option<usize>) -> Option<int> {
    match r {
        Some(i) => Some(i as int),
        None => None,
    }
}

/// `pat` matches `s` at index `i` from its `k`-th element on, compared one
/// element at a time.
pub open spec fn agrees_from<T>(s: Seq<T>, pat: Seq<T>, i: int, k: int) -> bool
    decreases pat.len() - k,
{
    if k < 0 || k >= pat.len() {
        true
    } else {
        s[i + k] == pat[k] && agrees_from(s, pat, i, k + 1)
    }
}

/// `pat` occurs in `s` at some index from `i` on, tried one index at a time.
pub open spec fn occurs_from<T>(s: Seq<T>, pat: Seq<T>, i: int) -> bool
    decreases s.len() - i,
{
    if i < 0 || i + pat.len() > s.len() {
        false
    } else if agrees_from(s, pat, i, 0) {
        true
    } else {
        occurs_from(s, pat, i + 1)
    }
}

proof fn lemma_agrees_from<T>(s: Seq<T>, pat: Seq<T>, i: int, k: int)
    requires
        0 <= i,
        i + pat.len() <= s.len(),
        0 <= k <= pat.len(),
    ensures
        agrees_from(s, pat, i, k) <==> forall|m: int| k <= m < pat.len() ==> s[i + m] == pat[m],
    decreases pat.len() - k,
{
    if k < pat.len() {
        lemma_agrees_from(s, pat, i, k + 1);
    }
}

proof fn lemma_occurs_from<T>(s: Seq<T>, pat: Seq<T>, i: int)
    requires
        0 <= i,
    ensures
        occurs_from(s, pat, i) <==> exists|j: int| i <= j && matches_at(s, pat, j),
    decreases s.len() - i,
{
    if i + pat.len() > s.len() {
        assert forall|j: int| i <= j implies !matches_at(s, pat, j) by {}
    } else {
        lemma_agrees_from(s, pat, i, 0);
        let agree = forall|m: int| 0 <= m < pat.len() ==> s[i + m] == pat[m];
        if agree {
            assert(s.subrange(i, i + pat.len()) =~= pat);
            assert(matches_at(s, pat, i));
        } else {
            assert(!matches_at(s, pat, i)) by {
                if s.subrange(i, i + pat.len()) == pat {
                    assert forall|m: int| 0 <= m < pat.len() implies s[i + m] == pat[m] by {
                        assert(s.subrange(i, i + pat.len())[m] == s[i + m]);
                    }
                }
            }
            lemma_occurs_from(s, pat, i + 1);
            if exists|j: int| i <= j && matches_at(s, pat, j) {
                let j = choose|j: int| i <= j && matches_at(s, pat, j);
                assert(j != i);
                assert(i + 1 <= j && matches_at(s, pat, j));
            }
        }
    }
}

/// Containment can be decided by trying each index in turn.
pub proof fn lemma_contains_iff_occurs<T>(s: Seq<T>, pat: Seq<T>)
    ensures
        contains_seq(s, pat) <==> occurs_from(s, pat, 0),
{
    lemma_occurs_from(s, pat, 0);
    if contains_seq(s, pat) {
        let j = choose|j: int| matches_at(s, pat, j);
        assert(0 <= j && matches_at(s, pat, j));
    }
}

pub proof fn lemma_first_match_unique<T>(s: Seq<T>, pat: Seq<T>, i: int)
    requires
        is_first_match(s, pat, i),
    ensures
        find_seq(s, pat) == Some(i),
        contains_seq(s, pat),
{
    let k = choose|k: int| is_first_match(s, pat, k);
    assert(is_first_match(s, pat, k));
    if k < i {
        assert(!matches_at(s, pat, k));
    }
    if i < k {
        assert(!matches_at(s, pat, i));
    }
}

pub proof fn lemma_no_match<T>(s: Seq<T>, pat: Seq<T>)
    requires
        forall|j: int| !matches_at(s, pat, j),
    ensures
        find_seq(s, pat) is None,
        !contains_seq(s, pat),
{
}

proof fn lemma_matches_at_elementwise<T>(s: Seq<T>, pat: Seq<T>, i: int)
    requires
        0 <= i,
        i + pat.len() <= s.len(),
    ensures
        matches_at(s, pat, i) <==> (forall|t: int| 0 <= t < pat.len() ==> s[i + t] == pat[t]),
{
    if forall|t: int| 0 <= t < pat.len() ==> s[i + t] == pat[t] {
        assert(s.subrange(i, i + pat.len()) =~= pat);
    }
    if matches_at(s, pat, i) {
        assert forall|t: int| 0 <= t < pat.len() implies s[i + t] == pat[t] by {
            assert(s.subrange(i, i + pat.len())[t] == s[i + t]);
        }
    }
}

/// Leftmost occurrence of `needle` in `hay` (byte version of `str::find`); `needle` is searched as a window of its own length.
pub fn find_subsequence(hay: &[u8], needle: &[u8]) -> (r: Option<usize>)
    requires
        needle@.len() > 0,
    ensures
        opt_int(r) == find_seq(hay@, needle@),
        r is Some <==> contains_seq(hay@, needle@),
        r matches Some(i) ==> is_first_match(hay@, needle@, i as int),
{
    let n = needle.len();
    let m = hay.len();
    if n > m {
        proof {
            lemma_no_match(hay@, needle@);
        }
        return None;
    }
    let mut i: usize = 0;
    while i <= m - n
        invariant
            n == needle@.len(),
            m == hay@.len(),
            n <= m,
            forall|j: int| 0 <= j < i ==> !matches_at(hay@, needle@, j),
        decreases m - n + 1 - i,
    {
        let mut k: usize = 0;
        let mut ok = true;
        while k < n
            invariant_except_break
                ok,
            invariant
                n == needle@.len(),
                m == hay@.len(),
                i + n <= m,
                k <= n,
                forall|t: int| 0 <= t < k ==> hay@[i + t] == needle@[t],
            ensures
                ok ==> k == n,
                ok ==> forall|t: int| 0 <= t < n ==> hay@[i + t] == needle@[t],
                !ok ==> k < n && hay@[i + k] != needle@[k as int],
            decreases n - k,
        {
            if hay[i + k] != needle[k] {
                ok = false;
                break;
            }
            k = k + 1;
        }
        proof {
            lemma_matches_at_elementwise(hay@, needle@, i as int);
        }
        if ok {
            proof {
                lemma_first_match_unique(hay@, needle@, i as int);
            }
            return Some(i);
        }
        i = i + 1;
    }
    proof {
        assert forall|j: int| !matches_at(hay@, needle@, j) by {
            if 0 <= j && j + n <= m {
                assert(j < i);
            }
        }
        lemma_no_match(hay@, needle@);
    }
    None
}

/// Leftmost occurrence of `needle` in `hay` (character version of `str::find`).
pub fn find_chars(hay: &[char], needle: &[char]) -> (r: Option<usize>)
    ensures
        opt_int(r) == find_seq(hay@, needle@),
        r is Some <==> contains_seq(hay@, needle@),
        r matches Some(i) ==> is_first_match(hay@, needle@, i as int),
{
    let n = needle.len();
    let m = hay.len();
    if n > m {
        proof {
            lemma_no_match(hay@, needle@);
        }
        return None;
    }
    let mut i: usize = 0;
    while i <= m - n
        invariant
            n == needle@.len(),
            m == hay@.len(),
            n <= m,
            forall|j: int| 0 <= j < i ==> !matches_at(hay@, needle@, j),
        decreases m - n + 1 - i,
    {
        let mut k: usize = 0;
        let mut ok = true;
        while k < n
            invariant_except_break
                ok,
            invariant
                n == needle@.len(),
                m == hay@.len(),
                i + n <= m,
                k <= n,
                forall|t: int| 0 <= t < k ==> hay@[i + t] == needle@[t],
            ensures
                ok ==> k == n,
                ok ==> forall|t: int| 0 <= t < n ==> hay@[i + t] == needle@[t],
                !ok ==> k < n && hay@[i + k] != needle@[k as int],
            decreases n - k,
        {
            if hay[i + k] != needle[k] {
                ok = false;
                break;
            }
            k = k + 1;
        }
        proof {
            lemma_matches_at_elementwise(hay@, needle@, i as int);
        }
        if ok {
            proof {
                lemma_first_match_unique(hay@, needle@, i as int);
            }
            return Some(i);
        }
        i = i + 1;
    }
    proof {
        assert forall|j: int| !matches_at(hay@, needle@, j) by {
            if 0 <= j && j + n <= m {
                assert(j < i);
            }
        }
        lemma_no_match(hay@, needle@);
    }
    None
}

// ---------------------------------------------------------------------------
// Characters of a string
// ---------------------------------------------------------------------------

/// The characters of `s`, in order.
pub fn chars_of(s: &str) -> (v: Vec<char>)
    ensures
        v@ == s@,
{
    let mut v: Vec<char> = Vec::new();
    for c in it: s.chars()
        invariant
            v@ == it.seq().take(it.index() as int),
            it.seq() == s@,
    {
        v.push(c);
    }
    v
}

// ---------------------------------------------------------------------------
// Character classes and trimming
// ---------------------------------------------------------------------------

/// `char::is_whitespace`: the Unicode `White_Space` property.
pub open spec fn is_unicode_whitespace(c: char) -> bool {
    let u = c as u32;
    ||| 0x09 <= u <= 0x0D
    ||| u == 0x20
    ||| u == 0x85
    ||| u == 0xA0
    ||| u == 0x1680
    ||| 0x2000 <= u <= 0x200A
    ||| u == 0x2028
    ||| u == 0x2029
    ||| u == 0x202F
    ||| u == 0x205F
    ||| u == 0x3000
}

/// The characters that a trim removes.
#[derive(PartialEq, Eq, Structural, Clone, Copy)]
pub enum TrimClass {
    Whitespace,
    Nul,
}

pub open spec fn in_class(c: char, k: TrimClass) -> bool {
    match k {
        TrimClass::Whitespace => is_unicode_whitespace(c),
        TrimClass::Nul => c == '\0',
    }
}

/// First index at or after `i` whose character is not in class `k` (or the length).
pub open spec fn skip_forward(s: Seq<char>, k: TrimClass, i: int) -> int
    decreases s.len() - i,
{
    if i < 0 || i >= s.len() || !in_class(s[i], k) {
        i
    } else {
        skip_forward(s, k, i + 1)
    }
}

/// Last position `j` at or before the given one such that `s[j - 1]` is not in class `k` (or 0).
pub open spec fn skip_backward(s: Seq<char>, k: TrimClass, j: int) -> int
    decreases j,
{
    if j <= 0 || j > s.len() || !in_class(s[j - 1], k) {
        j
    } else {
        skip_backward(s, k, j - 1)
    }
}

/// `s` with leading characters of class `k` removed (`trim_start`).
pub open spec fn trim_start_by(s: Seq<char>, k: TrimClass) -> Seq<char> {
    s.subrange(skip_forward(s, k, 0), s.len() as int)
}

/// `s` with leading and trailing characters of class `k` removed (`trim`, `trim_matches`).
pub open spec fn trim_by(s: Seq<char>, k: TrimClass) -> Seq<char> {
    let a = skip_forward(s, k, 0);
    if a >= s.len() {
        Seq::empty()
    } else {
        s.subrange(a, skip_backward(s, k, s.len() as int))
    }
}

pub fn char_in_class(c: char, k: TrimClass) -> (b: bool)
    ensures
        b == in_class(c, k),
{
    match k {
        TrimClass::Nul => c == '\0',
        TrimClass::Whitespace => {
            let u = c as u32;
            (0x09 <= u && u <= 0x0D) || u == 0x20 || u == 0x85 || u == 0xA0 || u == 0x1680 || (
            0x2000 <= u && u <= 0x200A) || u == 0x2028 || u == 0x2029 || u == 0x202F || u == 0x205F
                || u == 0x3000
        },
    }
}

proof fn lemma_skip_forward_bounds(s: Seq<char>, k: TrimClass, i: int)
    requires
        0 <= i <= s.len(),
    ensures
        i <= skip_forward(s, k, i) <= s.len(),
        skip_forward(s, k, i) < s.len() ==> !in_class(s[skip_forward(s, k, i)], k),
    decreases s.len() - i,
{
    if i < s.len() && in_class(s[i], k) {
        lemma_skip_forward_bounds(s, k, i + 1);
    }
}

proof fn lemma_skip_backward_bounds(s: Seq<char>, k: TrimClass, j: int, lo: int)
    requires
        0 <= lo < j <= s.len(),
        !in_class(s[lo], k),
    ensures
        lo < skip_backward(s, k, j) <= j,
    decreases j,
{
    if in_class(s[j - 1], k) {
        lemma_skip_backward_bounds(s, k, j - 1, lo);
    }
}

/// Bounds `(a, b)` with `lo <= a <= b <= hi` such that `v[a..b]` is `v[lo..hi]` trimmed of class `k`.
pub fn trim_bounds(v: &[char], lo: usize, hi: usize, k: TrimClass) -> (r: (usize, usize))
    requires
        lo <= hi <= v@.len(),
    ensures
        lo <= r.0 <= r.1 <= hi,
        v@.subrange(r.0 as int, r.1 as int) == trim_by(v@.subrange(lo as int, hi as int), k),
{
    let ghost t = v@.subrange(lo as int, hi as int);
    let mut a = lo;
    while a < hi && char_in_class(v[a], k)
        invariant
            lo <= a <= hi <= v@.len(),
            t == v@.subrange(lo as int, hi as int),
            skip_forward(t, k, 0) == skip_forward(t, k, a - lo),
        decreases hi - a,
    {
        assert(t[a - lo] == v@[a as int]);
        a = a + 1;
    }
    proof {
        if a < hi {
            assert(t[a - lo] == v@[a as int]);
        }
        assert(skip_forward(t, k, a - lo) == a - lo);
    }
    if a == hi {
        proof {
            assert(v@.subrange(a as int, a as int) =~= Seq::<char>::empty());
        }
        return (a, a);
    }
    let mut b = hi;
    while b > a && char_in_class(v[b - 1], k)
        invariant
            lo <= a < b <= hi <= v@.len(),
            t == v@.subrange(lo as int, hi as int),
            !in_class(t[a - lo], k),
            skip_backward(t, k, t.len() as int) == skip_backward(t, k, b - lo),
        decreases b,
    {
        assert(t[b - 1 - lo] == v@[b - 1]);
        b = b - 1;
    }
    proof {
        assert(t[b - 1 - lo] == v@[b - 1]);
        assert(skip_backward(t, k, b - lo) == b - lo);
        assert(v@.subrange(a as int, b as int) =~= t.subrange(a - lo, b - lo));
    }
    (a, b)
}

/// Start index `a` with `lo <= a <= hi` such that `v[a..hi]` is `v[lo..hi]` with leading class-`k` characters removed.
pub fn trim_start_bound(v: &[char], lo: usize, hi: usize, k: TrimClass) -> (a: usize)
    requires
        lo <= hi <= v@.len(),
    ensures
        lo <= a <= hi,
        v@.subrange(a as int, hi as int) == trim_start_by(v@.subrange(lo as int, hi as int), k),
{
    let ghost t = v@.subrange(lo as int, hi as int);
    let mut a = lo;
    while a < hi && char_in_class(v[a], k)
        invariant
            lo <= a <= hi <= v@.len(),
            t == v@.subrange(lo as int, hi as int),
            skip_forward(t, k, 0) == skip_forward(t, k, a - lo),
        decreases hi - a,
    {
        assert(t[a - lo] == v@[a as int]);
        a = a + 1;
    }
    proof {
        if a < hi {
            assert(t[a - lo] == v@[a as int]);
        }
        assert(skip_forward(t, k, a - lo) == a - lo);
        assert(v@.subrange(a as int, hi as int) =~= t.subrange(a - lo, t.len() as int));
    }
    a
}

// ---------------------------------------------------------------------------
// ASCII case folding
// ---------------------------------------------------------------------------

pub open spec fn ascii_lower(c: char) -> char {
    if 'A' <= c && c <= 'Z' {
        ((c as u32) + 32) as char
    } else {
        c
    }
}

/// `str::eq_ignore_ascii_case`: same length, equal after ASCII lowercasing.
pub open spec fn eq_ignore_ascii_case(a: Seq<char>, b: Seq<char>) -> bool {
    &&& a.len() == b.len()
    &&& forall|i: int| 0 <= i < a.len() ==> ascii_lower(a[i]) == ascii_lower(b[i])
}

pub fn to_ascii_lower(c: char) -> (r: char)
    ensures
        r == ascii_lower(c),
{
    if 'A' <= c && c <= 'Z' {
        ((c as u8) + 32) as char
    } else {
        c
    }
}

pub fn chars_eq_ignore_ascii_case(a: &[char], b: &[char]) -> (r: bool)
    ensures
        r == eq_ignore_ascii_case(a@, b@),
{
    if a.len() != b.len() {
        return false;
    }
    let mut i: usize = 0;
    while i < a.len()
        invariant
            a@.len() == b@.len(),
            i <= a@.len(),
            forall|j: int| 0 <= j < i ==> ascii_lower(a@[j]) == ascii_lower(b@[j]),
        decreases a.len() - i,
    {
        if to_ascii_lower(a[i]) != to_ascii_lower(b[i]) {
            return false;
        }
        i = i + 1;
    }
    true
}

// ---------------------------------------------------------------------------
// Decimal rendering
// ---------------------------------------------------------------------------

pub open spec fn digit_char(d: nat) -> char {
    ((d + 48) as u8) as char
}

/// Decimal digits of `n`, as `format!("{}", n)` renders an unsigned integer.
pub open spec fn decimal(n: nat) -> Seq<char>
    decreases n,
{
    if n < 10 {
        seq![digit_char(n)]
    } else {
        decimal(n / 10).push(digit_char(n % 10))
    }
}

/// Appends the decimal digits of `n` to `s`.
pub fn push_decimal(s: &mut String, n: u32)
    ensures
        final(s)@ == old(s)@ + decimal(n as nat),
    decreases n,
{
    if n >= 10 {
        push_decimal(s, n / 10);
    }
    let d: u8 = (n % 10) as u8;
    push_char(s, (d + 48) as char);
    proof {
        assert(old(s)@ + decimal(n as nat) =~= (if n >= 10 { old(s)@ + decimal((n / 10) as nat) } else { old(s)@ }).push(digit_char((n % 10) as nat)));
    }
}

// ---------------------------------------------------------------------------
// Conversions that std performs
// ---------------------------------------------------------------------------

/// What `str::to_lowercase` returns for a string: Unicode lowercase mapping.
pub uninterp spec fn lowercase(s: Seq<char>) -> Seq<char>;

/// What `String::from_utf8_lossy` returns for bytes: the decoded text with each
/// invalid sequence replaced by U+FFFD.
pub uninterp spec fn utf8_lossy(b: Seq<u8>) -> Seq<char>;

/// Calls `str::to_lowercase`. Claimed: the result is the named Unicode
/// lowercasing of the input, and on an all-ASCII input it lowercases each
/// ASCII letter and keeps everything else, as std documents.
#[verifier::external_body]
pub(crate) fn to_lowercase(s: &str) -> (r: String)
    ensures
        r@ == lowercase(s@),
        (forall|i: int| 0 <= i < s@.len() ==> (s@[i] as u32) < 0x80) ==> r@ == s@.map_values(
            |c: char| ascii_lower(c),
        ),
{
    s.to_lowercase()
}

/// Calls `String::from_utf8_lossy`. Claimed: the result is the named lossy
/// decoding of the bytes, which for valid UTF-8 is the plain decoding.
#[verifier::external_body]
pub(crate) fn from_utf8_lossy(b: &[u8]) -> (r: String)
    ensures
        r@ == utf8_lossy(b@),
        valid_utf8(b@) ==> r@ == decode_utf8(b@),
{
    String::from_utf8_lossy(b).into_owned()
}

/// Calls `std::str::from_utf8`. Claimed: it succeeds exactly on valid UTF-8
/// and then yields the decoded characters.
#[verifier::external_body]
pub(crate) fn from_utf8(b: &[u8]) -> (r: Option<String>)
    ensures
        r is Some <==> valid_utf8(b@),
        r matches Some(s) ==> s@ == decode_utf8(b@),
{
    match std::str::from_utf8(b) {
        Ok(s) => Some(s.to_owned()),
        Err(_) => None,
    }
}

/// Calls `String::push`. Claimed: the character is appended.
#[verifier::external_body]
pub(crate) fn push_char(s: &mut String, c: char)
    ensures
        final(s)@ == old(s)@.push(c),
{
    s.push(c)
}

/// A new `String` holding `v[lo..hi]`.
pub fn string_from_chars(v: &[char], lo: usize, hi: usize) -> (r: String)
    requires
        lo <= hi <= v@.len(),
    ensures
        r@ == v@.subrange(lo as int, hi as int),
{
    let mut r = String::new();
    let mut i = lo;
    while i < hi
        invariant
            lo <= i <= hi <= v@.len(),
            r@ == v@.subrange(lo as int, i as int),
        decreases hi - i,
    {
        push_char(&mut r, v[i]);
        assert(v@.subrange(lo as int, i + 1) =~= v@.subrange(lo as int, i as int).push(v@[i as int]));
        i = i + 1;
    }
    r
}

} // verus!
