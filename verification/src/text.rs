//! Character-level text helpers shared by the handlers: whitespace trimming,
//! byte and character lengths, comparison, substring search and previews.
use vstd::prelude::*;
use vstd::string::*;
use vstd::utf8::*;

verus! {

/// `String::push` appends one character to the string.
pub assume_specification[ String::push ](s: &mut String, ch: char)
    ensures
        final(s)@ == old(s)@.push(ch),
;

/// Number of bytes in the UTF-8 encoding of `s` (what `str::len` returns).
pub open spec fn byte_len(s: Seq<char>) -> nat {
    encode_utf8(s).len()
}

/// A character takes at most four bytes in UTF-8.
pub proof fn lemma_byte_len_bound(s: Seq<char>)
    ensures
        byte_len(s) <= 4 * s.len(),
    decreases s.len(),
{
    if s.len() > 0 {
        lemma_byte_len_bound(s.drop_first());
        assert(encode_scalar(s[0] as u32).len() <= 4);
    }
}

/// Number of bytes in the UTF-8 encoding of `s`, as `str::len` counts them.
pub fn byte_length(s: &str) -> (n: usize)
    ensures
        n == byte_len(s@),
{
    s.as_bytes().len()
}

/// The characters of `s`, in order.
pub fn chars_of(s: &str) -> (v: Vec<char>)
    ensures
        v@ == s@,
{
    let mut v: Vec<char> = Vec::new();
    for c in it: s.chars()
        invariant
            v@ == it.seq().take(it.index() as int),
    {
        v.push(c);
    }
    v
}

/// A fresh `String` holding the characters of `s`.
pub fn owned(s: &str) -> (r: String)
    ensures
        r@ == s@,
{
    String::from_str(s)
}

/// `left` followed by `right`, as a new `String`.
pub fn join(left: &str, right: &str) -> (r: String)
    ensures
        r@ == left@ + right@,
{
    let mut r = String::from_str(left);
    r.append(right);
    r
}

/// Whether `c` has the Unicode `White_Space` property (the set that
/// `char::is_whitespace` and `str::trim` use).
pub open spec fn is_white(c: char) -> bool {
    let u = c as u32;
    ||| 0x09 <= u <= 0x0d
    ||| u == 0x20
    ||| u == 0x85
    ||| u == 0xa0
    ||| u == 0x1680
    ||| 0x2000 <= u <= 0x200a
    ||| u == 0x2028
    ||| u == 0x2029
    ||| u == 0x202f
    ||| u == 0x205f
    ||| u == 0x3000
}

pub fn is_whitespace(c: char) -> (b: bool)
    ensures
        b == is_white(c),
{
    let u = c as u32;
    (0x09 <= u && u <= 0x0d) || u == 0x20 || u == 0x85 || u == 0xa0 || u == 0x1680 || (0x2000
        <= u && u <= 0x200a) || u == 0x2028 || u == 0x2029 || u == 0x202f || u == 0x205f || u
        == 0x3000
}

/// Number of whitespace characters at the start of `s`.
pub open spec fn leading_white(s: Seq<char>) -> nat
    decreases s.len(),
{
    if s.len() > 0 && is_white(s[0]) {
        1 + leading_white(s.drop_first())
    } else {
        0
    }
}

/// Number of whitespace characters at the end of `s`.
pub open spec fn trailing_white(s: Seq<char>) -> nat
    decreases s.len(),
{
    if s.len() > 0 && is_white(s.last()) {
        1 + trailing_white(s.drop_last())
    } else {
        0
    }
}

/// `s` without its leading and trailing whitespace (what `str::trim` returns).
pub open spec fn trimmed(s: Seq<char>) -> Seq<char> {
    if leading_white(s) >= s.len() {
        Seq::empty()
    } else {
        s.subrange(leading_white(s) as int, s.len() - trailing_white(s))
    }
}

proof fn lemma_leading_white(s: Seq<char>, i: int)
    requires
        0 <= i <= s.len(),
        forall|k: int| 0 <= k < i ==> is_white(#[trigger] s[k]),
        i == s.len() || !is_white(s[i]),
    ensures
        leading_white(s) == i,
    decreases i,
{
    if i > 0 {
        let t = s.drop_first();
        assert forall|k: int| 0 <= k < i - 1 implies is_white(#[trigger] t[k]) by {
            assert(t[k] == s[k + 1]);
        }
        if i < s.len() {
            assert(t[i - 1] == s[i]);
        }
        lemma_leading_white(t, i - 1);
    }
}

proof fn lemma_trailing_white(s: Seq<char>, j: int)
    requires
        0 <= j <= s.len(),
        forall|k: int| s.len() - j <= k < s.len() ==> is_white(#[trigger] s[k]),
        j == s.len() || !is_white(s[s.len() - 1 - j]),
    ensures
        trailing_white(s) == j,
    decreases j,
{
    if j > 0 {
        let t = s.drop_last();
        assert forall|k: int| t.len() - (j - 1) <= k < t.len() implies is_white(#[trigger] t[k]) by {
            assert(t[k] == s[k]);
        }
        if j < s.len() {
            assert(t[t.len() - 1 - (j - 1)] == s[s.len() - 1 - j]);
        }
        assert(is_white(s[s.len() - 1]));
        lemma_trailing_white(t, j - 1);
    }
}

proof fn lemma_leading_props(s: Seq<char>)
    ensures
        leading_white(s) <= s.len(),
        forall|k: int| 0 <= k < leading_white(s) ==> is_white(#[trigger] s[k]),
        leading_white(s) < s.len() ==> !is_white(s[leading_white(s) as int]),
    decreases s.len(),
{
    if s.len() > 0 && is_white(s[0]) {
        let t = s.drop_first();
        lemma_leading_props(t);
        assert forall|k: int| 0 <= k < leading_white(s) implies is_white(#[trigger] s[k]) by {
            if k > 0 {
                assert(s[k] == t[k - 1]);
            }
        }
        if leading_white(s) < s.len() {
            assert(s[leading_white(s) as int] == t[leading_white(t) as int]);
        }
    }
}

proof fn lemma_trailing_props(s: Seq<char>)
    ensures
        trailing_white(s) <= s.len(),
        forall|k: int| s.len() - trailing_white(s) <= k < s.len() ==> is_white(#[trigger] s[k]),
        trailing_white(s) < s.len() ==> !is_white(s[s.len() - 1 - trailing_white(s)]),
    decreases s.len(),
{
    if s.len() > 0 && is_white(s.last()) {
        let t = s.drop_last();
        lemma_trailing_props(t);
        assert forall|k: int| s.len() - trailing_white(s) <= k < s.len() implies is_white(
            #[trigger] s[k],
        ) by {
            if k < s.len() - 1 {
                assert(s[k] == t[k]);
            }
        }
        if trailing_white(s) < s.len() {
            assert(s[s.len() - 1 - trailing_white(s)] == t[t.len() - 1 - trailing_white(t)]);
        }
    }
}

/// Law: trimming keeps one contiguous part of the text and removes only
/// whitespace, only at its two ends; what it keeps neither starts nor ends
/// with whitespace.
pub proof fn trim_removes_outer_whitespace(s: Seq<char>)
    ensures
        exists|a: int, b: int|
            0 <= a <= b <= s.len() && trimmed(s) == s.subrange(a, b) && (forall|k: int|
                0 <= k < a ==> is_white(#[trigger] s[k])) && (forall|k: int|
                b <= k < s.len() ==> is_white(#[trigger] s[k])) && (a < b ==> !is_white(s[a])
                && !is_white(s[b - 1])),
{
    lemma_leading_props(s);
    lemma_trailing_props(s);
    let lead = leading_white(s) as int;
    let trail = trailing_white(s) as int;
    if lead >= s.len() {
        let n = s.len() as int;
        assert(trimmed(s) =~= s.subrange(n, n));
        assert(forall|k: int| n <= k < s.len() ==> is_white(#[trigger] s[k]));
    } else {
        if s.len() - trail <= lead {
            assert(is_white(s[lead]));
        }
        let b = s.len() - trail;
        assert(trimmed(s) == s.subrange(lead, b));
        assert(!is_white(s[b - 1]));
    }
}

/// `s` without leading and trailing whitespace, as in `str::trim`.
pub fn trim(s: &str) -> (r: String)
    ensures
        r@ == trimmed(s@),
{
    let v = chars_of(s);
    let n = v.len();
    let mut i: usize = 0;
    while i < n && is_whitespace(v[i])
        invariant
            n == v@.len(),
            v@ == s@,
            0 <= i <= n,
            forall|k: int| 0 <= k < i ==> is_white(#[trigger] v@[k]),
        decreases n - i,
    {
        i = i + 1;
    }
    proof {
        lemma_leading_white(s@, i as int);
    }
    if i == n {
        return String::new();
    }
    let mut j: usize = n;
    while j > i && is_whitespace(v[j - 1])
        invariant
            n == v@.len(),
            v@ == s@,
            i < n,
            !is_white(v@[i as int]),
            i <= j <= n,
            forall|k: int| j <= k < n ==> is_white(#[trigger] v@[k]),
        decreases j,
    {
        j = j - 1;
    }
    proof {
        if j == i {
            assert(is_white(v@[i as int]));
        }
        lemma_trailing_white(s@, (n - j) as int);
    }
    owned(s.substring_char(i, j))
}

/// Whether `a` and `b` hold the same characters.
pub fn str_eq(a: &str, b: &str) -> (r: bool)
    ensures
        r == (a@ == b@),
{
    let va = chars_of(a);
    let vb = chars_of(b);
    if va.len() != vb.len() {
        return false;
    }
    let n = va.len();
    let mut i: usize = 0;
    while i < n
        invariant
            n == va@.len(),
            n == vb@.len(),
            va@ == a@,
            vb@ == b@,
            0 <= i <= n,
            forall|k: int| 0 <= k < i ==> va@[k] == vb@[k],
        decreases n - i,
    {
        if va[i] != vb[i] {
            return false;
        }
        i = i + 1;
    }
    assert(va@ =~= vb@);
    true
}

/// Whether `needle` occurs as a contiguous run of characters in `hay`.
pub open spec fn occurs_in(hay: Seq<char>, needle: Seq<char>) -> bool {
    exists|i: int|
        0 <= i && i + needle.len() <= hay.len() && #[trigger] hay.subrange(i, i + needle.len())
            == needle
}

/// Whether `needle` occurs in `hay` (as `str::contains` with a string pattern).
pub fn contains(hay: &str, needle: &str) -> (r: bool)
    ensures
        r == occurs_in(hay@, needle@),
{
    let h = chars_of(hay);
    let n = chars_of(needle);
    if n.len() > h.len() {
        return false;
    }
    if n.len() == 0 {
        assert(hay@.subrange(0, 0int + needle@.len()) =~= needle@);
        return true;
    }
    let last = h.len() - n.len();
    let mut i: usize = 0;
    while i <= last
        invariant
            h@ == hay@,
            n@ == needle@,
            last == h@.len() - n@.len(),
            0 <= i <= last + 1,
            0 < n@.len() <= h@.len(),
            h@.len() == h.len(),
            forall|p: int| 0 <= p < i ==> #[trigger] h@.subrange(p, p + n@.len()) != n@,
        decreases last + 1 - i,
    {
        let mut k: usize = 0;
        let mut same = true;
        while k < n.len()
            invariant
                h@ == hay@,
                n@ == needle@,
                last == h@.len() - n@.len(),
                i <= last,
                i + n@.len() <= h@.len(),
                h@.len() == h.len(),
                0 <= k <= n@.len(),
                same == (forall|q: int| 0 <= q < k ==> h@[i + q] == n@[q]),
            decreases n@.len() - k,
        {
            if h[i + k] != n[k] {
                same = false;
            }
            k = k + 1;
        }
        if same {
            assert(h@.subrange(i as int, i + n@.len()) =~= n@);
            return true;
        }
        assert(h@.subrange(i as int, i + n@.len()) != n@) by {
            let q = choose|q: int| 0 <= q < n@.len() && h@[i + q] != n@[q];
            assert(h@.subrange(i as int, i + n@.len())[q] == h@[i + q]);
        }
        i = i + 1;
    }
    proof {
        if occurs_in(hay@, needle@) {
            let p = choose|p: int|
                0 <= p && p + needle@.len() <= hay@.len() && #[trigger] hay@.subrange(
                    p,
                    p + needle@.len(),
                ) == needle@;
            assert(h@.subrange(p, p + n@.len()) != n@);
        }
    }
    false
}

/// The first `n` characters of `s`, or all of `s` when it is shorter
/// (what `s.chars().take(n)` yields).
pub open spec fn first_chars(s: Seq<char>, n: nat) -> Seq<char> {
    if s.len() <= n {
        s
    } else {
        s.take(n as int)
    }
}

/// What a listing shows of an article's content: the content itself when its
/// UTF-8 encoding has at most 100 bytes, otherwise its first 100 characters
/// followed by `...`.
pub open spec fn preview_of(content: Seq<char>) -> Seq<char> {
    if byte_len(content) > 100 {
        first_chars(content, 100) + "..."@
    } else {
        content
    }
}

/// Law: content of at most 100 bytes is shown whole; longer content is
/// shown as its first 100 characters (all of them, when it has fewer)
/// followed by `...`, so at most 103 characters.
pub proof fn preview_cuts_long_content(c: Seq<char>)
    ensures
        byte_len(c) <= 100 ==> preview_of(c) == c,
        byte_len(c) > 100 ==> {
            let k: int = if c.len() < 100 {
                c.len() as int
            } else {
                100
            };
            &&& preview_of(c).len() == k + 3
            &&& preview_of(c).take(k) == c.take(k)
            &&& preview_of(c).skip(k) == seq!['.', '.', '.']
        },
{
    reveal_strlit("...");
    if byte_len(c) > 100 {
        let k: int = if c.len() < 100 {
            c.len() as int
        } else {
            100
        };
        let p = preview_of(c);
        if c.len() <= 100 {
            assert(c.take(k) =~= c);
        }
        assert(p.take(k) =~= c.take(k));
        assert(p.skip(k) =~= seq!['.', '.', '.']);
    }
}

pub fn preview(content: &str) -> (r: String)
    ensures
        r@ == preview_of(content@),
{
    if byte_length(content) > 100 {
        let n = content.unicode_len();
        let k: usize = if n <= 100 {
            n
        } else {
            100
        };
        let head = content.substring_char(0, k);
        proof {
            if content@.len() <= 100 {
                assert(content@.subrange(0, k as int) =~= content@);
            }
        }
        join(head, "...")
    } else {
        owned(content)
    }
}

/// The lowercase form of `s` that `str::to_lowercase` produces.
pub uninterp spec fn lowercase(s: Seq<char>) -> Seq<char>;

/// Calls std's `str::to_lowercase`. Its result is taken to be `lowercase(s@)`:
/// a function of the characters of `s` alone; nothing more is claimed of it.
#[verifier::external_body]
pub(crate) fn to_lowercase(s: &str) -> (r: String)
    ensures
        r@ == lowercase(s@),
{
    s.to_lowercase()
}

} // verus!
