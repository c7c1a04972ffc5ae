//! Verified character-level string utilities: substring search, digit runs,
//! decimal parsing, trimming and transliteration.
//!
//! All specifications are stated over `Seq<char>` views. Whitespace means the
//! four ASCII whitespace characters, which is all the remote platform emits
//! around the fields this crate reads.

use vstd::prelude::*;

verus! {

/// `n` occurs in `h` starting at position `i`.
pub open spec fn match_at(h: Seq<char>, n: Seq<char>, i: int) -> bool {
    &&& 0 <= i
    &&& i + n.len() <= h.len()
    &&& forall|j: int| 0 <= j < n.len() ==> h[i + j] == n[j]
}

/// `n` occurs somewhere in `h`.
pub open spec fn contains_seq(h: Seq<char>, n: Seq<char>) -> bool {
    exists|i: int| match_at(h, n, i)
}

/// `i` is the first position at which `n` occurs in `h`.
pub open spec fn found_at(h: Seq<char>, n: Seq<char>, i: int) -> bool {
    match_at(h, n, i) && forall|j: int| 0 <= j < i ==> !match_at(h, n, j)
}

/// Whether `n` occurs in `h` at position `i`.
pub fn str_match_at(h: &str, n: &str, i: usize) -> (r: bool)
    ensures
        r == match_at(h@, n@, i as int),
{
    let h_len = h.unicode_len();
    let n_len = n.unicode_len();
    if i > h_len || n_len > h_len - i {
        return false;
    }
    let mut j: usize = 0;
    while j < n_len
        invariant
            h_len == h@.len(),
            n_len == n@.len(),
            i + n_len <= h_len,
            j <= n_len,
            forall|k: int| 0 <= k < j ==> h@[i + k] == n@[k],
        decreases n_len - j,
    {
        if h.get_char(i + j) != n.get_char(j) {
            assert(!match_at(h@, n@, i as int)) by {
                assert(h@[i + j] != n@[j as int]);
            }
            return false;
        }
        j += 1;
    }
    true
}

/// First position at or after `from` where `n` occurs in `h`.
pub fn find_sub_from(h: &str, n: &str, from: usize) -> (r: Option<usize>)
    ensures
        match r {
            Some(i) => {
                &&& from <= i
                &&& match_at(h@, n@, i as int)
                &&& forall|j: int| from <= j < i ==> !match_at(h@, n@, j)
            },
            None => forall|j: int| from <= j ==> !match_at(h@, n@, j),
        },
{
    let h_len = h.unicode_len();
    let n_len = n.unicode_len();
    let mut i = from;
    loop
        invariant
            h_len == h@.len(),
            n_len == n@.len(),
            from <= i,
            forall|j: int| from <= j < i ==> !match_at(h@, n@, j),
        decreases h_len + 1 - i,
    {
        if i > h_len || n_len > h_len - i {
            assert(forall|j: int| j >= i ==> !match_at(h@, n@, j));
            return None;
        }
        if str_match_at(h, n, i) {
            return Some(i);
        }
        i += 1;
    }
}

/// First position where `n` occurs in `h`.
pub fn find_sub(h: &str, n: &str) -> (r: Option<usize>)
    ensures
        match r {
            Some(i) => found_at(h@, n@, i as int),
            None => !contains_seq(h@, n@),
        },
{
    let r = find_sub_from(h, n, 0);
    proof {
        if r is None {
            assert forall|j: int| !match_at(h@, n@, j) by {
                if j >= 0 {
                    assert(!match_at(h@, n@, j));
                }
            }
        }
    }
    r
}

/// Whether two strings hold the same characters.
pub fn str_eq(a: &str, b: &str) -> (r: bool)
    ensures
        r == (a@ == b@),
{
    let la = a.unicode_len();
    let lb = b.unicode_len();
    if la != lb {
        proof {
            assert(a@ != b@);
        }
        return false;
    }
    let m = str_match_at(a, b, 0);
    proof {
        if m {
            assert(a@ =~= b@);
        } else {
            if a@ == b@ {
                assert(match_at(a@, b@, 0));
            }
        }
    }
    m
}

/// Whether `n` occurs in `h`.
pub fn contains_sub(h: &str, n: &str) -> (r: bool)
    ensures
        r == contains_seq(h@, n@),
{
    find_sub(h, n).is_some()
}

/// A decimal digit.
pub open spec fn is_digit(c: char) -> bool {
    '0' as u32 <= c as u32 && c as u32 <= '9' as u32
}

/// Whether `c` is a decimal digit.
pub fn is_digit_exec(c: char) -> (r: bool)
    ensures
        r == is_digit(c),
{
    let u = c as u32;
    '0' as u32 <= u && u <= '9' as u32
}

/// End of the digit run starting at `p`: the first position at or after `p`
/// holding no digit, or the end of the sequence.
pub open spec fn digit_run_end(s: Seq<char>, p: int) -> int
    decreases s.len() - p,
{
    if p < 0 || p >= s.len() {
        p
    } else if is_digit(s[p]) {
        digit_run_end(s, p + 1)
    } else {
        p
    }
}

pub proof fn lemma_digit_run_end(s: Seq<char>, p: int)
    requires
        0 <= p <= s.len(),
    ensures
        p <= digit_run_end(s, p) <= s.len(),
        forall|k: int| p <= k < digit_run_end(s, p) ==> is_digit(s[k]),
        digit_run_end(s, p) < s.len() ==> !is_digit(s[digit_run_end(s, p)]),
    decreases s.len() - p,
{
    if p < s.len() && is_digit(s[p]) {
        lemma_digit_run_end(s, p + 1);
    }
}

/// End of the digit run starting at `p`.
pub fn digit_run_end_exec(s: &str, p: usize) -> (r: usize)
    requires
        p <= s@.len(),
    ensures
        r == digit_run_end(s@, p as int),
        p <= r <= s@.len(),
{
    let len = s.unicode_len();
    let mut i = p;
    loop
        invariant
            p <= i <= len,
            len == s@.len(),
            digit_run_end(s@, p as int) == digit_run_end(s@, i as int),
        decreases len - i,
    {
        if i == len || !is_digit_exec(s.get_char(i)) {
            proof {
                lemma_digit_run_end(s@, i as int);
            }
            return i;
        }
        i += 1;
    }
}

/// All characters of `s` are decimal digits.
pub open spec fn all_digits(s: Seq<char>) -> bool {
    forall|k: int| 0 <= k < s.len() ==> is_digit(s[k])
}

/// Numeric value of a digit sequence read in base ten.
pub open spec fn dec_value(s: Seq<char>) -> int
    decreases s.len(),
{
    if s.len() == 0 {
        0
    } else {
        dec_value(s.drop_last()) * 10 + (s.last() as u32 - '0' as u32)
    }
}

/// Parse a non-empty all-digit string as a `u32`; `None` on any other input
/// and on overflow.
pub fn parse_decimal_u32(s: &str) -> (r: Option<u32>)
    ensures
        match r {
            Some(v) => s@.len() > 0 && all_digits(s@) && v == dec_value(s@),
            None => s@.len() == 0 || !all_digits(s@) || dec_value(s@) > u32::MAX,
        },
{
    let len = s.unicode_len();
    if len == 0 {
        return None;
    }
    let mut acc: u32 = 0;
    let mut i: usize = 0;
    while i < len
        invariant
            len == s@.len(),
            i <= len,
            all_digits(s@.take(i as int)),
            acc == dec_value(s@.take(i as int)),
        decreases len - i,
    {
        let c = s.get_char(i);
        if !is_digit_exec(c) {
            return None;
        }
        let d = c as u32 - '0' as u32;
        if acc > (u32::MAX - d) / 10 {
            proof {
                lemma_dec_value_grows(s@, i as int);
            }
            return None;
        }
        proof {
            assert(s@.take(i + 1).drop_last() =~= s@.take(i as int));
            assert(s@.take(i + 1).last() == s@[i as int]);
        }
        acc = acc * 10 + d;
        i += 1;
    }
    proof {
        assert(s@.take(len as int) =~= s@);
    }
    Some(acc)
}

/// A digit extends a digit run's value: once the prefix value exceeds the
/// threshold that would overflow, the whole value does too.
proof fn lemma_dec_value_grows(s: Seq<char>, i: int)
    requires
        0 <= i < s.len(),
        all_digits(s.take(i)),
        is_digit(s[i]),
        dec_value(s.take(i)) * 10 + (s[i] as u32 - '0' as u32) > u32::MAX,
    ensures
        !all_digits(s) || dec_value(s) > u32::MAX,
    decreases s.len() - i,
{
    if all_digits(s) {
        lemma_dec_value_monotone(s, i + 1);
        assert(s.take(i + 1).drop_last() =~= s.take(i));
        assert(s.take(i + 1).last() == s[i]);
        assert(dec_value(s.take(i + 1)) > u32::MAX);
    }
}

/// For an all-digit sequence the value of a prefix bounds the whole value.
proof fn lemma_dec_value_monotone(s: Seq<char>, i: int)
    requires
        0 <= i <= s.len(),
        all_digits(s),
    ensures
        dec_value(s) >= dec_value(s.take(i)),
        dec_value(s.take(i)) >= 0,
    decreases s.len() - i,
{
    lemma_dec_value_nonneg(s.take(i));
    if i < s.len() {
        lemma_dec_value_monotone(s, i + 1);
        assert(s.take(i + 1).drop_last() =~= s.take(i));
        assert(dec_value(s.take(i + 1)) >= dec_value(s.take(i)));
    } else {
        assert(s.take(i) =~= s);
    }
}

proof fn lemma_dec_value_nonneg(s: Seq<char>)
    requires
        all_digits(s),
    ensures
        dec_value(s) >= 0,
    decreases s.len(),
{
    if s.len() > 0 {
        assert(all_digits(s.drop_last())) by {
            assert(forall|k: int| 0 <= k < s.len() - 1 ==> s.drop_last()[k] == s[k]);
        }
        lemma_dec_value_nonneg(s.drop_last());
    }
}

/// First position at or after `from` where `n` occurs in `h`, or `-1`.
pub open spec fn first_index_from(h: Seq<char>, n: Seq<char>, from: int) -> int
    decreases h.len() - from,
{
    if from < 0 || from + n.len() > h.len() {
        -1
    } else if match_at(h, n, from) {
        from
    } else {
        first_index_from(h, n, from + 1)
    }
}

pub proof fn lemma_first_index_some(h: Seq<char>, n: Seq<char>, from: int, i: int)
    requires
        0 <= from <= i,
        match_at(h, n, i),
        forall|j: int| from <= j < i ==> !match_at(h, n, j),
    ensures
        first_index_from(h, n, from) == i,
    decreases i - from,
{
    if from < i {
        lemma_first_index_some(h, n, from + 1, i);
    }
}

pub proof fn lemma_first_index_none(h: Seq<char>, n: Seq<char>, from: int)
    requires
        0 <= from,
        forall|j: int| from <= j ==> !match_at(h, n, j),
    ensures
        first_index_from(h, n, from) == -1,
    decreases h.len() + 1 - from,
{
    if from + n.len() <= h.len() {
        lemma_first_index_none(h, n, from + 1);
    }
}

/// First position at or after `from` where `n` occurs in `h`, as `first_index_from`.
pub fn find_index_from(h: &str, n: &str, from: usize) -> (r: Option<usize>)
    ensures
        match r {
            Some(i) => from <= i && i + n@.len() <= h@.len() && first_index_from(
                h@,
                n@,
                from as int,
            ) == i,
            None => first_index_from(h@, n@, from as int) == -1,
        },
{
    let r = find_sub_from(h, n, from);
    proof {
        match r {
            Some(i) => lemma_first_index_some(h@, n@, from as int, i as int),
            None => lemma_first_index_none(h@, n@, from as int),
        }
    }
    r
}

/// End of the run of characters satisfying `keep` that starts at `p`.
pub open spec fn run_end(s: Seq<char>, p: int, keep: spec_fn(char) -> bool) -> int
    decreases s.len() - p,
{
    if p < 0 || p >= s.len() {
        p
    } else if keep(s[p]) {
        run_end(s, p + 1, keep)
    } else {
        p
    }
}

/// A needle of non-digit characters cannot match where it would cover a
/// position holding a digit.
pub proof fn lemma_no_match_covering_digit(s: Seq<char>, m: Seq<char>, j: int, p: int)
    requires
        0 <= p < s.len(),
        is_digit(s[p]),
        j <= p < j + m.len(),
        forall|t: int| 0 <= t < m.len() ==> !is_digit(m[t]),
    ensures
        !match_at(s, m, j),
{
    if match_at(s, m, j) {
        assert(s[p] == m[p - j]);
    }
}

/// `match_at` with its quantifier unrolled from position `j` on, so that the
/// interpreter can evaluate it on concrete strings.
pub open spec fn match_from(h: Seq<char>, n: Seq<char>, i: int, j: int) -> bool
    decreases n.len() - j,
{
    if j < 0 || j >= n.len() {
        true
    } else {
        h[i + j] == n[j] && match_from(h, n, i, j + 1)
    }
}

proof fn lemma_match_from(h: Seq<char>, n: Seq<char>, i: int, j: int)
    requires
        0 <= i,
        0 <= j,
        i + n.len() <= h.len(),
    ensures
        match_from(h, n, i, j) == forall|t: int| j <= t < n.len() ==> h[i + t] == n[t],
    decreases n.len() - j,
{
    if j < n.len() {
        lemma_match_from(h, n, i, j + 1);
        if h[i + j] == n[j] && match_from(h, n, i, j + 1) {
            assert(forall|t: int| j <= t < n.len() ==> h[i + t] == n[t]) by {
                assert(forall|t: int| j + 1 <= t < n.len() ==> h[i + t] == n[t]);
            }
        }
    }
}

/// `match_at` as a computable predicate.
pub open spec fn matches_within(h: Seq<char>, n: Seq<char>, i: int) -> bool {
    0 <= i && i + n.len() <= h.len() && match_from(h, n, i, 0)
}

pub proof fn lemma_matches_within(h: Seq<char>, n: Seq<char>, i: int)
    ensures
        matches_within(h, n, i) == match_at(h, n, i),
{
    if 0 <= i && i + n.len() <= h.len() {
        lemma_match_from(h, n, i, 0);
    }
}

/// No occurrence of `n` in `h` starts before position `j`; computable.
pub open spec fn no_match_before(h: Seq<char>, n: Seq<char>, j: int) -> bool
    decreases j,
{
    if j <= 0 {
        true
    } else {
        no_match_before(h, n, j - 1) && !matches_within(h, n, j - 1)
    }
}

pub proof fn lemma_no_match_before(h: Seq<char>, n: Seq<char>, j: int)
    requires
        no_match_before(h, n, j),
    ensures
        forall|i: int| 0 <= i < j ==> !match_at(h, n, i),
    decreases j,
{
    if j > 0 {
        lemma_no_match_before(h, n, j - 1);
        lemma_matches_within(h, n, j - 1);
    }
}

/// No character of `n` from position `t` on is a digit; computable.
pub open spec fn non_digits_from(n: Seq<char>, t: int) -> bool
    decreases n.len() - t,
{
    if t < 0 || t >= n.len() {
        true
    } else {
        !is_digit(n[t]) && non_digits_from(n, t + 1)
    }
}

pub proof fn lemma_non_digits_from(n: Seq<char>, t: int)
    requires
        0 <= t,
        non_digits_from(n, t),
    ensures
        forall|u: int| t <= u < n.len() ==> !is_digit(n[u]),
    decreases n.len() - t,
{
    if t < n.len() {
        lemma_non_digits_from(n, t + 1);
    }
}

/// A match that lies entirely within the first part of a concatenation is a
/// match in that part, and conversely.
pub proof fn lemma_match_within_prefix(a: Seq<char>, b: Seq<char>, m: Seq<char>, j: int)
    requires
        0 <= j,
        j + m.len() <= a.len(),
    ensures
        match_at(a + b, m, j) == match_at(a, m, j),
{
    assert(forall|k: int| 0 <= k < a.len() ==> (a + b)[k] == a[k]);
}

/// ASCII whitespace.
pub open spec fn is_space(c: char) -> bool {
    c == ' ' || c == '\t' || c == '\n' || c == '\r'
}

/// First index at or after `i` holding no whitespace.
pub open spec fn trim_start_index(s: Seq<char>, i: int) -> int
    decreases s.len() - i,
{
    if i < 0 || i >= s.len() {
        i
    } else if is_space(s[i]) {
        trim_start_index(s, i + 1)
    } else {
        i
    }
}

/// Last index at or before `i` with no whitespace just before it.
pub open spec fn trim_end_index(s: Seq<char>, i: int) -> int
    decreases i,
{
    if i <= 0 || i > s.len() {
        i
    } else if is_space(s[i - 1]) {
        trim_end_index(s, i - 1)
    } else {
        i
    }
}

/// `s` with leading and trailing ASCII whitespace removed.
pub open spec fn trim_seq(s: Seq<char>) -> Seq<char> {
    let a = trim_start_index(s, 0);
    let b = trim_end_index(s, s.len() as int);
    if a <= b {
        s.subrange(a, b)
    } else {
        Seq::empty()
    }
}

proof fn lemma_trim_start_index(s: Seq<char>, i: int)
    requires
        0 <= i <= s.len(),
    ensures
        i <= trim_start_index(s, i) <= s.len(),
    decreases s.len() - i,
{
    if i < s.len() && is_space(s[i]) {
        lemma_trim_start_index(s, i + 1);
    }
}

proof fn lemma_trim_end_index(s: Seq<char>, i: int)
    requires
        0 <= i <= s.len(),
    ensures
        0 <= trim_end_index(s, i) <= i,
    decreases i,
{
    if i > 0 && is_space(s[i - 1]) {
        lemma_trim_end_index(s, i - 1);
    }
}

/// `s` with leading and trailing ASCII whitespace removed.
pub fn trim_str(s: &str) -> (r: String)
    ensures
        r@ == trim_seq(s@),
{
    let len = s.unicode_len();
    let mut a: usize = 0;
    while a < len && is_space_exec(s.get_char(a))
        invariant
            len == s@.len(),
            a <= len,
            trim_start_index(s@, 0) == trim_start_index(s@, a as int),
            forall|k: int| 0 <= k < a ==> is_space(s@[k]),
        decreases len - a,
    {
        a += 1;
    }
    proof {
        lemma_trim_start_index(s@, a as int);
        assert(trim_start_index(s@, a as int) == a as int);
    }
    let mut b: usize = len;
    while b > a && is_space_exec(s.get_char(b - 1))
        invariant
            len == s@.len(),
            a <= b <= len,
            a == trim_start_index(s@, 0),
            trim_end_index(s@, len as int) == trim_end_index(s@, b as int),
        decreases b,
    {
        b -= 1;
    }
    proof {
        let sb = trim_end_index(s@, s@.len() as int);
        if b > a {
            // The scan stopped on a non-whitespace character, so the spec's
            // end index is exactly `b`.
            assert(sb == b as int);
        } else {
            // The scan reached `a`: either the whole string is whitespace
            // (`a == 0`), or the character before `a` is whitespace and the
            // spec's end index descends below `a`; either way both the spec
            // and the scan yield the empty sequence.
            assert(b == a);
            if a == 0 {
                assert(sb == 0);
            } else {
                assert(is_space(s@[a - 1]));
                assert(sb == trim_end_index(s@, a - 1));
                lemma_trim_end_index(s@, a - 1);
                assert(sb < a as int);
            }
            assert(trim_seq(s@) =~= Seq::<char>::empty());
            assert(s@.subrange(a as int, b as int) =~= Seq::<char>::empty());
        }
    }
    let t = s.substring_char(a, b);
    t.to_owned()
}

/// Whether `c` is ASCII whitespace.
pub fn is_space_exec(c: char) -> (r: bool)
    ensures
        r == is_space(c),
{
    c == ' ' || c == '\t' || c == '\n' || c == '\r'
}

/// Copy of the characters of `s` between `a` and `b`.
pub fn substring_string(s: &str, a: usize, b: usize) -> (r: String)
    requires
        a <= b <= s@.len(),
    ensures
        r@ == s@.subrange(a as int, b as int),
{
    s.substring_char(a, b).to_owned()
}

/// Replacement of one character under German transliteration.
pub open spec fn translit_char(c: char) -> Seq<char> {
    if c == 'ä' {
        seq!['a', 'e']
    } else if c == 'ö' {
        seq!['o', 'e']
    } else if c == 'ü' {
        seq!['u', 'e']
    } else if c == 'Ä' {
        seq!['A', 'e']
    } else if c == 'Ö' {
        seq!['O', 'e']
    } else if c == 'Ü' {
        seq!['U', 'e']
    } else if c == 'ß' {
        seq!['s', 's']
    } else {
        seq![c]
    }
}

/// `s` with every German umlaut and sharp s transliterated
/// (ä→ae, ö→oe, ü→ue, Ä→Ae, Ö→Oe, Ü→Ue, ß→ss).
pub open spec fn translit(s: Seq<char>) -> Seq<char>
    decreases s.len(),
{
    if s.len() == 0 {
        Seq::empty()
    } else {
        translit_char(s[0]) + translit(s.subrange(1, s.len() as int))
    }
}

proof fn lemma_translit_snoc(s: Seq<char>, i: int)
    requires
        0 <= i < s.len(),
    ensures
        translit(s.take(i + 1)) == translit(s.take(i)) + translit_char(s[i]),
    decreases i,
{
    let t1 = s.take(i + 1);
    let t0 = s.take(i);
    if i == 0 {
        assert(t1.subrange(1, t1.len() as int) =~= Seq::<char>::empty());
        assert(translit(t1) == translit_char(s[0]) + translit(Seq::<char>::empty()));
        assert(translit(t0) == Seq::<char>::empty());
        assert(translit(t1) =~= translit(t0) + translit_char(s[0]));
    } else {
        let s1 = s.subrange(1, s.len() as int);
        assert(t1.subrange(1, t1.len() as int) =~= s1.take(i));
        assert(t0.subrange(1, t0.len() as int) =~= s1.take(i - 1));
        lemma_translit_snoc(s1, i - 1);
        assert(s1.take(i - 1 + 1) =~= s1.take(i));
        assert(t1[0] == s[0] && t0[0] == s[0]);
        assert(s1[i - 1] == s[i]);
        assert(translit(t1) == translit_char(s[0]) + translit(s1.take(i)));
        assert(translit(t0) == translit_char(s[0]) + translit(s1.take(i - 1)));
        assert(translit(t1) =~= translit(t0) + translit_char(s[i]));
    }
}

/// `s` with every German umlaut and sharp s transliterated.
pub fn transliterate(s: &str) -> (r: String)
    ensures
        r@ == translit(s@),
{
    let len = s.unicode_len();
    let mut r = String::new();
    let mut i: usize = 0;
    while i < len
        invariant
            len == s@.len(),
            i <= len,
            r@ == translit(s@.take(i as int)),
        decreases len - i,
    {
        let c = s.get_char(i);
        if c == 'ä' {
            r.append("ae");
            proof {
                reveal_strlit("ae");
            }
        } else if c == 'ö' {
            r.append("oe");
            proof {
                reveal_strlit("oe");
            }
        } else if c == 'ü' {
            r.append("ue");
            proof {
                reveal_strlit("ue");
            }
        } else if c == 'Ä' {
            r.append("Ae");
            proof {
                reveal_strlit("Ae");
            }
        } else if c == 'Ö' {
            r.append("Oe");
            proof {
                reveal_strlit("Oe");
            }
        } else if c == 'Ü' {
            r.append("Ue");
            proof {
                reveal_strlit("Ue");
            }
        } else if c == 'ß' {
            r.append("ss");
            proof {
                reveal_strlit("ss");
            }
        } else {
            let piece = s.substring_char(i, i + 1);
            r.append(piece);
        }
        proof {
            lemma_translit_snoc(s@, i as int);
            assert(r@ =~= translit(s@.take(i + 1)));
        }
        i += 1;
    }
    proof {
        assert(s@.take(len as int) =~= s@);
    }
    r
}

/// A `"Family, Given"` name turned into `"Given_Family"`, split at the first
/// separator; a name without the separator stays as it is.
pub open spec fn swapped_name(n: Seq<char>) -> Seq<char> {
    let i = first_index_from(n, ", "@, 0);
    if i < 0 {
        n
    } else {
        n.subrange(i + 2, n.len() as int) + "_"@ + n.subrange(0, i)
    }
}

/// The identity shape a display name takes: a `"Family, Given"` name becomes
/// `"Given_Family"`.
pub fn swap_comma_name(name: &str) -> (r: String)
    ensures
        r@ == swapped_name(name@),
{
    proof {
        reveal_strlit(", ");
    }
    let sep = ", ";
    match find_index_from(name, sep, 0) {
        Some(i) => {
            let len = name.unicode_len();
            let mut r = substring_string(name, i + 2, len);
            r.append("_");
            let first = name.substring_char(0, i);
            r.append(first);
            r
        },
        None => name.to_owned(),
    }
}

} // verus!
