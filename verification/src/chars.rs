//! Character classification, trimming and numeral rendering, shared by the
//! result parser and the filename strategies.

use vstd::prelude::*;

verus! {

/// The Unicode control codes: the C0 range, DEL, and the C1 range.
pub open spec fn is_control_char(c: char) -> bool {
    (c as u32) <= 0x1F || (0x7F <= (c as u32) && (c as u32) <= 0x9F)
}

pub fn check_control_char(c: char) -> (b: bool)
    ensures
        b == is_control_char(c),
{
    let u = c as u32;
    u <= 0x1F || (0x7F <= u && u <= 0x9F)
}

/// The characters with the Unicode White_Space property, the set that both
/// trimming and the bare-URL fallback scan treat as word separators.
pub open spec fn is_space_char(c: char) -> bool {
    let u = c as u32;
    ||| u == 0x9
    ||| u == 0xA
    ||| u == 0xB
    ||| u == 0xC
    ||| u == 0xD
    ||| u == 0x20
    ||| u == 0x85
    ||| u == 0xA0
    ||| u == 0x1680
    ||| (0x2000 <= u && u <= 0x200A)
    ||| u == 0x2028
    ||| u == 0x2029
    ||| u == 0x202F
    ||| u == 0x205F
    ||| u == 0x3000
}

pub fn check_space_char(c: char) -> (b: bool)
    ensures
        b == is_space_char(c),
{
    let u = c as u32;
    u == 0x9 || u == 0xA || u == 0xB || u == 0xC || u == 0xD || u == 0x20 || u == 0x85 || u == 0xA0
        || u == 0x1680 || (0x2000 <= u && u <= 0x200A) || u == 0x2028 || u == 0x2029 || u == 0x202F
        || u == 0x205F || u == 0x3000
}

pub open spec fn spec_trim_front(s: Seq<char>) -> Seq<char>
    decreases s.len(),
{
    if s.len() > 0 && is_space_char(s[0]) {
        spec_trim_front(s.drop_first())
    } else {
        s
    }
}

pub open spec fn spec_trim_back(s: Seq<char>) -> Seq<char>
    decreases s.len(),
{
    if s.len() > 0 && is_space_char(s[s.len() - 1]) {
        spec_trim_back(s.drop_last())
    } else {
        s
    }
}

/// The sequence with leading and trailing white space removed.
pub open spec fn spec_trim(s: Seq<char>) -> Seq<char> {
    spec_trim_back(spec_trim_front(s))
}

/// A sequence is in trimmed form when it neither starts nor ends with white
/// space.
pub open spec fn is_trimmed(s: Seq<char>) -> bool {
    s.len() == 0 || (!is_space_char(s[0]) && !is_space_char(s[s.len() - 1]))
}

pub proof fn lemma_trim_front_id(s: Seq<char>)
    requires
        s.len() == 0 || !is_space_char(s[0]),
    ensures
        spec_trim_front(s) == s,
{
}

pub proof fn lemma_trim_back_id(s: Seq<char>)
    requires
        s.len() == 0 || !is_space_char(s[s.len() - 1]),
    ensures
        spec_trim_back(s) == s,
{
}

/// Trimming a sequence already in trimmed form changes nothing.
pub proof fn lemma_trim_id(s: Seq<char>)
    requires
        is_trimmed(s),
    ensures
        spec_trim(s) == s,
{
    lemma_trim_front_id(s);
    lemma_trim_back_id(s);
}

/// Trimming removes exactly one leading space in front of an already
/// trimmed remainder.
pub proof fn lemma_trim_space_prefixed(x: Seq<char>)
    requires
        is_trimmed(x),
    ensures
        spec_trim(seq![' '] + x) == x,
{
    let s = seq![' '] + x;
    assert(s[0] == ' ');
    assert(is_space_char(' '));
    assert(s.drop_first() =~= x);
    assert(spec_trim_front(s) == spec_trim_front(x));
    lemma_trim_front_id(x);
    lemma_trim_back_id(x);
}

/// Trims a character sequence at both ends.
pub fn trim_chars(v: &Vec<char>) -> (r: Vec<char>)
    ensures
        r@ == spec_trim(v@),
{
    let n: usize = v.len();
    proof {
        assert(v@.skip(0) =~= v@);
    }
    let mut start: usize = 0;
    while start < n && check_space_char(v[start])
        invariant
            start <= n,
            n == v@.len(),
            spec_trim_front(v@) == spec_trim_front(v@.skip(start as int)),
        decreases n - start,
    {
        proof {
            assert(v@.skip(start as int).drop_first() =~= v@.skip(start as int + 1));
        }
        start = start + 1;
    }
    proof {
        lemma_trim_front_id(v@.skip(start as int));
        assert(v@.skip(start as int).take(n - start) =~= v@.skip(start as int));
    }
    // v@.skip(start) is now the front-trimmed sequence.
    let mut end: usize = n;
    while end > start && check_space_char(v[end - 1])
        invariant
            start <= end <= n,
            n == v@.len(),
            spec_trim_front(v@) == v@.skip(start as int),
            spec_trim_back(v@.skip(start as int)) == spec_trim_back(
                v@.skip(start as int).take(end - start),
            ),
        decreases end,
    {
        proof {
            let w = v@.skip(start as int);
            assert(w.take(end - start).drop_last() =~= w.take(end - start - 1));
        }
        end = end - 1;
    }
    proof {
        let w = v@.skip(start as int);
        lemma_trim_back_id(w.take(end - start));
    }
    let mut r: Vec<char> = Vec::new();
    let mut i: usize = start;
    while i < end
        invariant
            start <= i <= end <= n,
            n == v@.len(),
            r@ == v@.subrange(start as int, i as int),
        decreases end - i,
    {
        r.push(v[i]);
        proof {
            assert(v@.subrange(start as int, i as int).push(v@[i as int]) =~= v@.subrange(
                start as int,
                i as int + 1,
            ));
        }
        i = i + 1;
    }
    proof {
        assert(v@.subrange(start as int, end as int) =~= v@.skip(start as int).take(end - start));
    }
    r
}

/// Reads a string slice out into its sequence of characters.
pub fn chars_of_str(s: &str) -> (v: Vec<char>)
    ensures
        v@ == s@,
{
    let n: usize = s.unicode_len();
    let mut v: Vec<char> = Vec::new();
    let mut i: usize = 0;
    while i < n
        invariant
            i <= n,
            n == s@.len(),
            v@ == s@.take(i as int),
        decreases n - i,
    {
        v.push(s.get_char(i));
        proof {
            assert(s@.take(i as int).push(s@[i as int]) =~= s@.take(i as int + 1));
        }
        i = i + 1;
    }
    proof {
        assert(s@.take(n as int) =~= s@);
    }
    v
}

/// Relies on String::push: it appends exactly the given character.
#[verifier::external_body]
pub(crate) fn push_char(s: &mut String, c: char)
    ensures
        final(s)@ == old(s)@.push(c),
{
    s.push(c);
}

/// Builds an owned string out of a sequence of characters.
pub fn string_of_chars(v: &Vec<char>) -> (s: String)
    ensures
        s@ == v@,
{
    let mut s = String::new();
    let mut i: usize = 0;
    while i < v.len()
        invariant
            i <= v@.len(),
            s@ == v@.take(i as int),
        decreases v@.len() - i,
    {
        push_char(&mut s, v[i]);
        proof {
            assert(v@.take(i as int).push(v@[i as int]) =~= v@.take(i as int + 1));
        }
        i = i + 1;
    }
    proof {
        assert(v@.take(v@.len() as int) =~= v@);
    }
    s
}

/// `p` is a prefix of `s`.
pub open spec fn has_prefix(s: Seq<char>, p: Seq<char>) -> bool {
    p.len() <= s.len() && s.subrange(0, p.len() as int) == p
}

/// Whether the character sequence starts with the given literal prefix.
pub fn chars_have_prefix(v: &Vec<char>, p: &str) -> (b: bool)
    ensures
        b == has_prefix(v@, p@),
{
    let n: usize = p.unicode_len();
    if n > v.len() {
        return false;
    }
    let mut i: usize = 0;
    while i < n
        invariant
            i <= n,
            n == p@.len(),
            n <= v@.len(),
            forall|j: int| 0 <= j < i ==> v@[j] == p@[j],
        decreases n - i,
    {
        if v[i] != p.get_char(i) {
            proof {
                assert(v@.subrange(0, n as int)[i as int] != p@[i as int]);
            }
            return false;
        }
        i = i + 1;
    }
    proof {
        assert(v@.subrange(0, n as int) =~= p@);
    }
    true
}

/// The suffix of `v` from position `k` on, as a fresh vector.
pub fn chars_suffix_from(v: &Vec<char>, k: usize) -> (r: Vec<char>)
    requires
        k <= v@.len(),
    ensures
        r@ == v@.skip(k as int),
{
    let mut r: Vec<char> = Vec::new();
    let mut i: usize = k;
    while i < v.len()
        invariant
            k <= i <= v@.len(),
            r@ == v@.subrange(k as int, i as int),
        decreases v@.len() - i,
    {
        r.push(v[i]);
        proof {
            assert(v@.subrange(k as int, i as int).push(v@[i as int]) =~= v@.subrange(
                k as int,
                i as int + 1,
            ));
        }
        i = i + 1;
    }
    proof {
        assert(v@.subrange(k as int, v@.len() as int) =~= v@.skip(k as int));
    }
    r
}

/// A copy of `v[from..to]`.
pub fn chars_subrange(v: &Vec<char>, from: usize, to: usize) -> (r: Vec<char>)
    requires
        from <= to <= v@.len(),
    ensures
        r@ == v@.subrange(from as int, to as int),
{
    let mut r: Vec<char> = Vec::new();
    let mut i: usize = from;
    while i < to
        invariant
            from <= i <= to <= v@.len(),
            r@ == v@.subrange(from as int, i as int),
        decreases to - i,
    {
        r.push(v[i]);
        proof {
            assert(v@.subrange(from as int, i as int).push(v@[i as int]) =~= v@.subrange(
                from as int,
                i as int + 1,
            ));
        }
        i = i + 1;
    }
    r
}

/// Whether the suffix of `v` starting at `k` begins with the given prefix.
pub fn chars_have_prefix_at(v: &Vec<char>, k: usize, p: &str) -> (b: bool)
    requires
        k <= v@.len(),
    ensures
        b == has_prefix(v@.skip(k as int), p@),
{
    let n: usize = p.unicode_len();
    let len: usize = v.len();
    if n > len - k {
        return false;
    }
    let mut i: usize = 0;
    while i < n
        invariant
            i <= n,
            n == p@.len(),
            len == v@.len(),
            k + n <= len,
            forall|j: int| 0 <= j < i ==> v@[k + j] == p@[j],
        decreases n - i,
    {
        if v[k + i] != p.get_char(i) {
            proof {
                assert(v@.skip(k as int).subrange(0, n as int)[i as int] != p@[i as int]);
            }
            return false;
        }
        i = i + 1;
    }
    proof {
        assert(v@.skip(k as int).subrange(0, n as int) =~= p@);
    }
    true
}

/// Whether two string slices hold the same characters.
pub fn str_eq(a: &str, b: &str) -> (r: bool)
    ensures
        r == (a@ == b@),
{
    let n: usize = a.unicode_len();
    if n != b.unicode_len() {
        return false;
    }
    let mut i: usize = 0;
    while i < n
        invariant
            i <= n,
            n == a@.len(),
            n == b@.len(),
            forall|j: int| 0 <= j < i ==> a@[j] == b@[j],
        decreases n - i,
    {
        if a.get_char(i) != b.get_char(i) {
            return false;
        }
        i = i + 1;
    }
    proof {
        assert(a@ =~= b@);
    }
    true
}

/// Every character of `s` is `c`.
pub open spec fn all_char(s: Seq<char>, c: char) -> bool {
    forall|i: int| 0 <= i < s.len() ==> s[i] == c
}

/// Whether every character of the sequence is `c`.
pub fn chars_all(v: &Vec<char>, c: char) -> (b: bool)
    ensures
        b == all_char(v@, c),
{
    let mut i: usize = 0;
    while i < v.len()
        invariant
            i <= v@.len(),
            forall|j: int| 0 <= j < i ==> v@[j] == c,
        decreases v@.len() - i,
    {
        if v[i] != c {
            return false;
        }
        i = i + 1;
    }
    true
}

/// The views of a sequence of owned strings.
pub open spec fn string_views(ss: Seq<String>) -> Seq<Seq<char>> {
    ss.map_values(|s: String| s@)
}

/// The decimal digit character for `d`.
pub open spec fn digit_char(d: nat) -> char {
    if d == 0 {
        '0'
    } else if d == 1 {
        '1'
    } else if d == 2 {
        '2'
    } else if d == 3 {
        '3'
    } else if d == 4 {
        '4'
    } else if d == 5 {
        '5'
    } else if d == 6 {
        '6'
    } else if d == 7 {
        '7'
    } else if d == 8 {
        '8'
    } else {
        '9'
    }
}

/// The decimal numeral for `n`, most significant digit first.
pub open spec fn spec_digits(n: nat) -> Seq<char>
    decreases n,
{
    if n < 10 {
        seq![digit_char(n)]
    } else {
        spec_digits(n / 10).push(digit_char(n % 10))
    }
}

fn digit_char_of(d: usize) -> (c: char)
    requires
        d < 10,
    ensures
        c == digit_char(d as nat),
{
    if d == 0 {
        '0'
    } else if d == 1 {
        '1'
    } else if d == 2 {
        '2'
    } else if d == 3 {
        '3'
    } else if d == 4 {
        '4'
    } else if d == 5 {
        '5'
    } else if d == 6 {
        '6'
    } else if d == 7 {
        '7'
    } else if d == 8 {
        '8'
    } else {
        '9'
    }
}

/// Renders `n` as its decimal numeral.
pub fn digit_chars(n: usize) -> (v: Vec<char>)
    ensures
        v@ == spec_digits(n as nat),
{
    let mut out: Vec<char> = Vec::new();
    proof {
        assert(spec_digits(n as nat) =~= spec_digits(n as nat) + out@);
    }
    let mut m: usize = n;
    while m >= 10
        invariant
            spec_digits(n as nat) == spec_digits(m as nat) + out@,
        decreases m,
    {
        let d = digit_char_of(m % 10);
        let ghost out0 = out@;
        out.insert(0, d);
        proof {
            assert(out@ =~= seq![d] + out0);
            assert(spec_digits(m as nat) =~= spec_digits((m / 10) as nat) + seq![
                digit_char((m % 10) as nat),
            ]);
            assert(spec_digits((m / 10) as nat) + out@ =~= spec_digits(m as nat) + out0);
        }
        m = m / 10;
    }
    let d = digit_char_of(m);
    let ghost out0 = out@;
    out.insert(0, d);
    proof {
        assert(spec_digits(m as nat) =~= seq![d]);
        assert(out@ =~= seq![d] + out0);
        assert(out@ =~= spec_digits(n as nat));
    }
    out
}

} // verus!
