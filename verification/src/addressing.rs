//! The platform's addressing scheme: canonical query paths, id extraction out
//! of scraped addresses, and the tiny ad hoc decoders for action endpoints
//! that the platform only exposes inside inline script text.
//!
//! Query paths are origin-relative addresses (path plus query component).
//! The platform uses inconsistent id-bearing conventions across content
//! types, so `extract_id` tries a fixed, ordered list of patterns and returns
//! the first match.

use vstd::prelude::*;

use crate::error::{AddressParseError, ParseError};
use crate::text::{
    all_digits, digit_run_end, digit_run_end_exec, find_index_from, first_index_from, is_digit,
    is_digit_exec, lemma_digit_run_end, lemma_match_within_prefix, lemma_matches_within,
    lemma_no_match_before, lemma_no_match_covering_digit, lemma_non_digits_from, match_at,
    matches_within, no_match_before, non_digits_from, run_end, str_match_at, substring_string,
};

verus! {

/// Number of recognized id-bearing patterns.
pub open spec fn id_marker_count() -> int {
    5
}

/// The ordered list of id-bearing patterns: each marker is a literal that is
/// followed directly by the decimal id.
pub open spec fn id_marker(k: int) -> Seq<char> {
    if k == 0 {
        "ref_id="@
    } else if k == 1 {
        "target=file_"@
    } else if k == 2 {
        "exc/"@
    } else if k == 3 {
        "fold/"@
    } else {
        "target=exc_"@
    }
}

/// Marker `k` occurs at position `i` and a digit follows it.
pub open spec fn id_hit_at(s: Seq<char>, i: int, k: int) -> bool {
    &&& 0 <= k < id_marker_count()
    &&& match_at(s, id_marker(k), i)
    &&& i + id_marker(k).len() < s.len()
    &&& is_digit(s[i + id_marker(k).len()])
}

/// Some marker hits at position `i`.
pub open spec fn any_id_hit_at(s: Seq<char>, i: int) -> bool {
    exists|k: int| id_hit_at(s, i, k)
}

/// The id that a hit of marker `k` at position `i` yields: the maximal digit
/// run following the marker.
pub open spec fn id_at_hit(s: Seq<char>, i: int, k: int) -> Seq<char> {
    s.subrange(i + id_marker(k).len(), digit_run_end(s, i + id_marker(k).len()))
}

/// `id` is what id extraction yields on `s`: the digit run behind the
/// first-position, first-ordered marker hit.
pub open spec fn is_extracted_id(s: Seq<char>, id: Seq<char>) -> bool {
    exists|i: int, k: int|
        {
            &&& #[trigger] id_hit_at(s, i, k)
            &&& forall|j: int| 0 <= j < i ==> !any_id_hit_at(s, j)
            &&& forall|k2: int| 0 <= k2 < k ==> !id_hit_at(s, i, k2)
            &&& id == id_at_hit(s, i, k)
        }
}

/// No id-bearing pattern hits anywhere in `s`.
pub open spec fn no_extractable_id(s: Seq<char>) -> bool {
    forall|i: int| !any_id_hit_at(s, i)
}

/// Id extraction never yields two different ids on one input.
pub proof fn lemma_extracted_id_unique(s: Seq<char>, id1: Seq<char>, id2: Seq<char>)
    requires
        is_extracted_id(s, id1),
        is_extracted_id(s, id2),
    ensures
        id1 == id2,
{
    let (i1, k1) = choose|i: int, k: int|
        {
            &&& #[trigger] id_hit_at(s, i, k)
            &&& forall|j: int| 0 <= j < i ==> !any_id_hit_at(s, j)
            &&& forall|k2: int| 0 <= k2 < k ==> !id_hit_at(s, i, k2)
            &&& id1 == id_at_hit(s, i, k)
        };
    let (i2, k2) = choose|i: int, k: int|
        {
            &&& #[trigger] id_hit_at(s, i, k)
            &&& forall|j: int| 0 <= j < i ==> !any_id_hit_at(s, j)
            &&& forall|k2: int| 0 <= k2 < k ==> !id_hit_at(s, i, k2)
            &&& id2 == id_at_hit(s, i, k)
        };
    assert(any_id_hit_at(s, i1));
    assert(any_id_hit_at(s, i2));
    assert(i1 == i2);
    assert(k1 == k2);
}

/// No id-bearing pattern can hit at or beyond the end of `s`.
pub proof fn lemma_no_id_hit_out_of_range(s: Seq<char>, i: int)
    requires
        i < 0 || i >= s.len(),
    ensures
        !any_id_hit_at(s, i),
{
    assert forall|k: int| !id_hit_at(s, i, k) by {
        if 0 <= k < id_marker_count() {
            if i >= s.len() {
                assert(id_marker(k).len() > 0) by {
                    reveal_strlit("ref_id=");
                    reveal_strlit("target=file_");
                    reveal_strlit("exc/");
                    reveal_strlit("fold/");
                    reveal_strlit("target=exc_");
                }
            }
        }
    }
}

/// Whether marker `m` occurs at `i` in `s` with a digit directly after it.
fn marker_hit_exec(s: &str, m: &str, i: usize) -> (r: bool)
    ensures
        r == (match_at(s@, m@, i as int) && i + m@.len() < s@.len() && is_digit(
            s@[i + m@.len()],
        )),
{
    if !str_match_at(s, m, i) {
        return false;
    }
    let m_len = m.unicode_len();
    let s_len = s.unicode_len();
    if i + m_len >= s_len {
        return false;
    }
    is_digit_exec(s.get_char(i + m_len))
}

/// The digit run following a confirmed marker hit, as an owned string.
fn take_id(s: &str, run_start: usize) -> (r: String)
    requires
        run_start <= s@.len(),
    ensures
        r@ == s@.subrange(run_start as int, digit_run_end(s@, run_start as int)),
{
    let end = digit_run_end_exec(s, run_start);
    substring_string(s, run_start, end)
}

/// Extract the decimal id embedded in a query path.
///
/// The patterns are tried position by position from the left; at each
/// position the markers are tried in their fixed order, and the first marker
/// that is followed by a digit wins. The id is the maximal digit run behind
/// the marker. When no pattern matches anywhere, the whole query path is
/// returned inside the error.
pub fn extract_id(querypath: &str) -> (r: Result<String, AddressParseError>)
    ensures
        match r {
            Ok(id) => is_extracted_id(querypath@, id@),
            Err(e) => e.querypath@ == querypath@ && no_extractable_id(querypath@),
        },
{
    let len = querypath.unicode_len();
    let mut i: usize = 0;
    while i < len
        invariant
            len == querypath@.len(),
            i <= len,
            forall|j: int| 0 <= j < i ==> !any_id_hit_at(querypath@, j),
        decreases len - i,
    {
        let m0 = "ref_id=";
        if marker_hit_exec(querypath, m0, i) {
            let id = take_id(querypath, i + m0.unicode_len());
            proof {
                assert(id_hit_at(querypath@, i as int, 0));
            }
            return Ok(id);
        }
        let m1 = "target=file_";
        if marker_hit_exec(querypath, m1, i) {
            let id = take_id(querypath, i + m1.unicode_len());
            proof {
                assert(id_hit_at(querypath@, i as int, 1));
            }
            return Ok(id);
        }
        let m2 = "exc/";
        if marker_hit_exec(querypath, m2, i) {
            let id = take_id(querypath, i + m2.unicode_len());
            proof {
                assert(id_hit_at(querypath@, i as int, 2));
            }
            return Ok(id);
        }
        let m3 = "fold/";
        if marker_hit_exec(querypath, m3, i) {
            let id = take_id(querypath, i + m3.unicode_len());
            proof {
                assert(id_hit_at(querypath@, i as int, 3));
            }
            return Ok(id);
        }
        let m4 = "target=exc_";
        if marker_hit_exec(querypath, m4, i) {
            let id = take_id(querypath, i + m4.unicode_len());
            proof {
                assert(id_hit_at(querypath@, i as int, 4));
            }
            return Ok(id);
        }
        proof {
            assert forall|k: int| !id_hit_at(querypath@, i as int, k) by {
                if 0 <= k < id_marker_count() {
                    assert(!id_hit_at(querypath@, i as int, 0));
                    assert(!id_hit_at(querypath@, i as int, 1));
                    assert(!id_hit_at(querypath@, i as int, 2));
                    assert(!id_hit_at(querypath@, i as int, 3));
                    assert(!id_hit_at(querypath@, i as int, 4));
                }
            }
        }
        i += 1;
    }
    proof {
        assert forall|j: int| !any_id_hit_at(querypath@, j) by {
            if 0 <= j < querypath@.len() {
                assert(!any_id_hit_at(querypath@, j));
            } else {
                lemma_no_id_hit_out_of_range(querypath@, j);
            }
        }
    }
    Err(AddressParseError { querypath: querypath.to_owned() })
}

/// A single-marker id hit: `m` at `i` followed by a digit.
pub open spec fn marker_id_hit(s: Seq<char>, m: Seq<char>, i: int) -> bool {
    match_at(s, m, i) && i + m.len() < s.len() && is_digit(s[i + m.len()])
}

/// `id` is the digit run behind the first digit-followed occurrence of `m`.
pub open spec fn is_marker_id(s: Seq<char>, m: Seq<char>, id: Seq<char>) -> bool {
    exists|i: int|
        {
            &&& #[trigger] marker_id_hit(s, m, i)
            &&& forall|j: int| 0 <= j < i ==> !marker_id_hit(s, m, j)
            &&& id == s.subrange(i + m.len(), digit_run_end(s, i + m.len()))
        }
}

/// `m` is nowhere followed by a digit in `s`.
pub open spec fn no_marker_id(s: Seq<char>, m: Seq<char>) -> bool {
    forall|i: int| !marker_id_hit(s, m, i)
}

/// The id behind the first occurrence of `m` in `s` that is directly
/// followed by at least one digit.
pub fn find_marker_id(s: &str, m: &str) -> (r: Option<String>)
    ensures
        match r {
            Some(id) => is_marker_id(s@, m@, id@),
            None => no_marker_id(s@, m@),
        },
{
    let len = s.unicode_len();
    let mut i: usize = 0;
    while i < len
        invariant
            len == s@.len(),
            i <= len,
            forall|j: int| 0 <= j < i ==> !marker_id_hit(s@, m@, j),
        decreases len - i,
    {
        if marker_hit_exec(s, m, i) {
            proof {
                assert(marker_id_hit(s@, m@, i as int));
                lemma_digit_run_end(s@, i + m@.len());
            }
            let id = take_id(s, i + m.unicode_len());
            proof {
                let ii = i as int;
                assert(marker_id_hit(s@, m@, ii) && (forall|j: int|
                    0 <= j < ii ==> !marker_id_hit(s@, m@, j)) && id@ == s@.subrange(
                    ii + m@.len(),
                    digit_run_end(s@, ii + m@.len()),
                ));
            }
            return Some(id);
        }
        i += 1;
    }
    proof {
        assert forall|j: int| !marker_id_hit(s@, m@, j) by {
            if 0 <= j < s@.len() {
                assert(!marker_id_hit(s@, m@, j));
            }
        }
    }
    None
}

/// `base` is `s` truncated directly behind the id of its last digit-followed
/// `ref_id=` parameter.
pub open spec fn is_base_grades_prefix(s: Seq<char>, base: Seq<char>) -> bool {
    exists|i: int|
        {
            &&& #[trigger] marker_id_hit(s, "ref_id="@, i)
            &&& forall|j: int| j > i ==> !marker_id_hit(s, "ref_id="@, j)
            &&& base == s.subrange(0, digit_run_end(s, i + "ref_id="@.len()))
        }
}

/// Truncation of a grades-tab address after the id of its last `ref_id=`
/// parameter: the base address that per-assignment pages are derived from.
pub fn base_grades_querypath(href: &str) -> (r: Option<String>)
    ensures
        match r {
            Some(base) => is_base_grades_prefix(href@, base@),
            None => no_marker_id(href@, "ref_id="@),
        },
{
    let m = "ref_id=";
    proof {
        assert(m@ == "ref_id="@);
    }
    let len = href.unicode_len();
    let mut best: Option<usize> = None;
    let mut i: usize = 0;
    while i < len
        invariant
            m@ == "ref_id="@,
            len == href@.len(),
            i <= len,
            match best {
                Some(b) => {
                    &&& b < i
                    &&& marker_id_hit(href@, "ref_id="@, b as int)
                    &&& forall|j: int| b < j < i ==> !marker_id_hit(href@, "ref_id="@, j)
                },
                None => forall|j: int| 0 <= j < i ==> !marker_id_hit(href@, "ref_id="@, j),
            },
        decreases len - i,
    {
        if marker_hit_exec(href, m, i) {
            best = Some(i);
        } else {
            proof {
                assert(!marker_id_hit(href@, "ref_id="@, i as int));
            }
        }
        i += 1;
    }
    match best {
        Some(b) => {
            proof {
                assert forall|j: int| j > b ==> !marker_id_hit(href@, "ref_id="@, j) by {
                    if b < j < href@.len() {
                        assert(!marker_id_hit(href@, "ref_id="@, j));
                    }
                }
            }
            let end = digit_run_end_exec(href, b + m.unicode_len());
            Some(substring_string(href, 0, end))
        },
        None => {
            proof {
                assert forall|j: int| !marker_id_hit(href@, "ref_id="@, j) by {
                    if 0 <= j < href@.len() {
                        assert(!marker_id_hit(href@, "ref_id="@, j));
                    }
                }
            }
            None
        },
    }
}

/// No marker of the id-pattern list holds a digit.
proof fn lemma_markers_hold_no_digit()
    ensures
        forall|k: int, t: int|
            0 <= k < id_marker_count() && 0 <= t < id_marker(k).len() ==> !is_digit(
                #[trigger] id_marker(k)[t],
            ),
{
    reveal_strlit("goto.php/fold/");
    reveal_strlit("goto.php?target=exc_");
    reveal_strlit("&client_id=produktiv");
    reveal_strlit("ref_id=");
    reveal_strlit("target=file_");
    reveal_strlit("exc/");
    reveal_strlit("fold/");
    reveal_strlit("target=exc_");
    reveal_with_fuel(crate::text::non_digits_from, 15);
    reveal_with_fuel(crate::text::no_match_before, 20);
    reveal_with_fuel(crate::text::match_from, 15);
    assert(non_digits_from("ref_id="@, 0));
    assert(non_digits_from("target=file_"@, 0));
    assert(non_digits_from("exc/"@, 0));
    assert(non_digits_from("fold/"@, 0));
    assert(non_digits_from("target=exc_"@, 0));
    lemma_non_digits_from("ref_id="@, 0);
    lemma_non_digits_from("target=file_"@, 0);
    lemma_non_digits_from("exc/"@, 0);
    lemma_non_digits_from("fold/"@, 0);
    lemma_non_digits_from("target=exc_"@, 0);
    assert forall|k: int, t: int|
        0 <= k < id_marker_count() && 0 <= t < id_marker(k).len() implies !is_digit(
        #[trigger] id_marker(k)[t],
    ) by {
        if k == 0 {
            assert(!is_digit(id_marker(0)[t]));
        } else if k == 1 {
            assert(!is_digit(id_marker(1)[t]));
        } else if k == 2 {
            assert(!is_digit(id_marker(2)[t]));
        } else if k == 3 {
            assert(!is_digit(id_marker(3)[t]));
        } else {
            assert(!is_digit(id_marker(4)[t]));
        }
    }
}

/// A marker cannot hit inside a run of digits: any hit covering a digit
/// position is ruled out.
proof fn lemma_no_hit_covering_digit(s: Seq<char>, j: int, p: int)
    requires
        0 <= p < s.len(),
        is_digit(s[p]),
        forall|k: int|
            0 <= k < id_marker_count() ==> j <= p < j + (#[trigger] id_marker(k)).len(),
    ensures
        !any_id_hit_at(s, j),
{
    lemma_markers_hold_no_digit();
    assert forall|k: int| !id_hit_at(s, j, k) by {
        if 0 <= k < id_marker_count() {
            assert(forall|t: int| 0 <= t < id_marker(k).len() ==> !is_digit(id_marker(k)[t]));
            lemma_no_match_covering_digit(s, id_marker(k), j, p);
        }
    }
}

/// Law: addressing round-trip for folders. For every non-empty decimal id,
/// extracting an id out of the folder address built from it yields exactly
/// that id: the folder path marker at position 9 is the first and only hit.
pub proof fn lemma_folder_address_round_trip(id: Seq<char>)
    requires
        id.len() > 0,
        all_digits(id),
    ensures
        is_extracted_id("goto.php/fold/"@ + id, id),
        forall|x: Seq<char>| is_extracted_id("goto.php/fold/"@ + id, x) ==> x == id,
{
    let prefix = "goto.php/fold/"@;
    let addr = prefix + id;
    reveal_strlit("goto.php/fold/");
    reveal_strlit("goto.php?target=exc_");
    reveal_strlit("&client_id=produktiv");
    reveal_strlit("ref_id=");
    reveal_strlit("target=file_");
    reveal_strlit("exc/");
    reveal_strlit("fold/");
    reveal_strlit("target=exc_");
    reveal_with_fuel(crate::text::non_digits_from, 15);
    reveal_with_fuel(crate::text::no_match_before, 20);
    reveal_with_fuel(crate::text::match_from, 15);
    assert(prefix.len() == 14);
    lemma_markers_hold_no_digit();

    // Every character from position 14 on is a digit of `id`.
    assert(forall|p: int| 14 <= p < addr.len() ==> addr[p] == id[p - 14] && is_digit(addr[p]));

    // The folder marker hits at position 9.
    assert(matches_within(prefix, "fold/"@, 9));
    lemma_matches_within(prefix, "fold/"@, 9);
    lemma_match_within_prefix(prefix, id, "fold/"@, 9);
    assert(id_hit_at(addr, 9, 3));

    // No marker matches anywhere in the prefix but the folder marker at 9.
    assert(no_match_before(prefix, "ref_id="@, 8));
    assert(no_match_before(prefix, "target=file_"@, 3));
    assert(no_match_before(prefix, "exc/"@, 11));
    assert(no_match_before(prefix, "fold/"@, 9));
    assert(no_match_before(prefix, "target=exc_"@, 4));
    lemma_no_match_before(prefix, "ref_id="@, 8);
    lemma_no_match_before(prefix, "target=file_"@, 3);
    lemma_no_match_before(prefix, "exc/"@, 11);
    lemma_no_match_before(prefix, "fold/"@, 9);
    lemma_no_match_before(prefix, "target=exc_"@, 4);

    assert forall|j: int| 0 <= j < 9 implies !any_id_hit_at(addr, j) by {
        assert forall|k: int| !id_hit_at(addr, j, k) by {
            if 0 <= k < id_marker_count() {
                let m = id_marker(k);
                if j + m.len() <= 14 {
                    lemma_match_within_prefix(prefix, id, m, j);
                    assert(!match_at(prefix, m, j));
                } else {
                    assert(j <= 14 < j + m.len());
                    lemma_no_match_covering_digit(addr, m, j, 14);
                }
            }
        }
    }

    // At position 9 no earlier-ordered marker hits.
    assert forall|k2: int| 0 <= k2 < 3 implies !id_hit_at(addr, 9, k2) by {
        let m = id_marker(k2);
        if 9 + m.len() <= 14 {
            lemma_match_within_prefix(prefix, id, m, 9);
            assert(!match_at(prefix, m, 9));
        } else {
            lemma_no_match_covering_digit(addr, m, 9, 14);
        }
    }

    // The digit run behind the marker reaches the end of the address.
    lemma_digit_run_end(addr, 14);
    let e = digit_run_end(addr, 14);
    assert(e == addr.len()) by {
        if e < addr.len() {
            assert(is_digit(addr[e]));
        }
    }
    assert(id_at_hit(addr, 9, 3) =~= id);
    assert(is_extracted_id(addr, id));
    assert forall|x: Seq<char>| is_extracted_id(addr, x) implies x == id by {
        lemma_extracted_id_unique(addr, x, id);
    }
}

/// Law: addressing round-trip for exercises. For every non-empty decimal id,
/// extracting an id out of the exercise address built from it yields exactly
/// that id: the exercise target marker at position 9 is the first hit.
pub proof fn lemma_exercise_address_round_trip(id: Seq<char>)
    requires
        id.len() > 0,
        all_digits(id),
    ensures
        is_extracted_id("goto.php?target=exc_"@ + id + "&client_id=produktiv"@, id),
        forall|x: Seq<char>|
            is_extracted_id("goto.php?target=exc_"@ + id + "&client_id=produktiv"@, x) ==> x
                == id,
{
    let prefix = "goto.php?target=exc_"@;
    let suffix = "&client_id=produktiv"@;
    let addr = prefix + id + suffix;
    let n = id.len() as int;
    reveal_strlit("goto.php/fold/");
    reveal_strlit("goto.php?target=exc_");
    reveal_strlit("&client_id=produktiv");
    reveal_strlit("ref_id=");
    reveal_strlit("target=file_");
    reveal_strlit("exc/");
    reveal_strlit("fold/");
    reveal_strlit("target=exc_");
    reveal_with_fuel(crate::text::non_digits_from, 15);
    reveal_with_fuel(crate::text::no_match_before, 20);
    reveal_with_fuel(crate::text::match_from, 15);
    assert(prefix.len() == 20);
    assert(suffix.len() == 20);
    lemma_markers_hold_no_digit();

    // Character layout of the address.
    assert(forall|p: int| 0 <= p < 20 ==> addr[p] == prefix[p]);
    assert(forall|p: int| 20 <= p < 20 + n ==> addr[p] == id[p - 20] && is_digit(addr[p]));
    assert(forall|p: int| 20 + n <= p < addr.len() ==> addr[p] == suffix[p - 20 - n]);

    // The exercise target marker hits at position 9.
    assert(matches_within(prefix, "target=exc_"@, 9));
    lemma_matches_within(prefix, "target=exc_"@, 9);
    lemma_match_within_prefix(prefix, id + suffix, "target=exc_"@, 9);
    assert(prefix + (id + suffix) =~= addr);
    assert(match_at(addr, "target=exc_"@, 9));
    assert(id_hit_at(addr, 9, 4));

    // No marker matches within the prefix, except through position 20.
    assert(no_match_before(prefix, "ref_id="@, 14));
    assert(no_match_before(prefix, "target=file_"@, 9));
    assert(no_match_before(prefix, "exc/"@, 17));
    assert(no_match_before(prefix, "fold/"@, 16));
    assert(no_match_before(prefix, "target=exc_"@, 9));
    lemma_no_match_before(prefix, "ref_id="@, 14);
    lemma_no_match_before(prefix, "target=file_"@, 9);
    lemma_no_match_before(prefix, "exc/"@, 17);
    lemma_no_match_before(prefix, "fold/"@, 16);
    lemma_no_match_before(prefix, "target=exc_"@, 9);

    assert forall|j: int| 0 <= j < 9 implies !any_id_hit_at(addr, j) by {
        assert forall|k: int| !id_hit_at(addr, j, k) by {
            if 0 <= k < id_marker_count() {
                let m = id_marker(k);
                if j + m.len() <= 20 {
                    lemma_match_within_prefix(prefix, id + suffix, m, j);
                    assert(!match_at(prefix, m, j));
                    assert(!match_at(addr, m, j));
                } else {
                    assert(j <= 20 < j + m.len());
                    lemma_no_match_covering_digit(addr, m, j, 20);
                }
            }
        }
    }

    // At position 9 no earlier-ordered marker hits.
    assert forall|k2: int| 0 <= k2 < 4 implies !id_hit_at(addr, 9, k2) by {
        let m = id_marker(k2);
        if 9 + m.len() <= 20 {
            lemma_match_within_prefix(prefix, id + suffix, m, 9);
            assert(!match_at(prefix, m, 9));
            assert(!match_at(addr, m, 9));
        } else {
            lemma_no_match_covering_digit(addr, m, 9, 20);
        }
    }

    // The digit run behind the marker covers exactly the id: the suffix
    // starts with a non-digit.
    lemma_digit_run_end(addr, 20);
    let e = digit_run_end(addr, 20);
    assert(!is_digit(suffix[0]));
    assert(addr[20 + n] == suffix[0]);
    assert(e == 20 + n) by {
        if e < 20 + n {
            assert(!is_digit(addr[e]));
        }
        if e > 20 + n {
            assert(is_digit(addr[20 + n]));
        }
    }
    assert(id_at_hit(addr, 9, 4) =~= id);
    assert(is_extracted_id(addr, id));
    assert forall|x: Seq<char>| is_extracted_id(addr, x) implies x == id by {
        lemma_extracted_id_unique(addr, x, id);
    }
}

/// A character that may stand in a host name: anything up to the first
/// path, port, query or fragment delimiter.
pub open spec fn is_host_char(c: char) -> bool {
    c != '/' && c != ':' && c != '?' && c != '#'
}

/// `is_host_char` as a first-class spec function, shared by specification
/// and implementation so that both speak of the same run.
pub open spec fn host_char_f() -> spec_fn(char) -> bool {
    |c: char| is_host_char(c)
}

/// The host component of an absolute address: the characters between the
/// scheme separator and the first delimiter after it.
pub open spec fn host_of_spec(url: Seq<char>) -> Option<Seq<char>> {
    let sep = first_index_from(url, "://"@, 0);
    if sep < 0 {
        None
    } else {
        let start = sep + "://"@.len();
        Some(url.subrange(start, run_end(url, start, host_char_f())))
    }
}

/// End of the host-character run starting at `p`.
fn host_run_end_exec(s: &str, p: usize) -> (r: usize)
    requires
        p <= s@.len(),
    ensures
        r == run_end(s@, p as int, host_char_f()),
        p <= r <= s@.len(),
{
    let len = s.unicode_len();
    let mut i = p;
    loop
        invariant
            p <= i <= len,
            len == s@.len(),
            run_end(s@, p as int, host_char_f()) == run_end(s@, i as int, host_char_f()),
        decreases len - i,
    {
        if i == len {
            return i;
        }
        let c = s.get_char(i);
        if c == '/' || c == ':' || c == '?' || c == '#' {
            return i;
        }
        proof {
            assert(host_char_f()(s@[i as int]));
        }
        i += 1;
    }
}

/// The host component of an absolute address, or `None` when `url` carries
/// no scheme separator.
pub fn host_of(url: &str) -> (r: Option<String>)
    ensures
        match r {
            Some(h) => host_of_spec(url@) == Some(h@),
            None => host_of_spec(url@) is None,
        },
{
    let len = url.unicode_len();
    let scheme_sep = "://";
    match find_index_from(url, scheme_sep, 0) {
        None => None,
        Some(sep) => {
            let start = sep + scheme_sep.unicode_len();
            let end = host_run_end_exec(url, start);
            Some(substring_string(url, start, end))
        },
    }
}

/// The origin-relative query path of an absolute address: its path component,
/// a `?`, and its query component (empty when the address has none). The
/// fragment is dropped.
pub open spec fn querypath_of_url_spec(url: Seq<char>) -> Option<Seq<char>> {
    let sep = first_index_from(url, "://"@, 0);
    if sep < 0 {
        None
    } else {
        let slash = first_index_from(url, "/"@, sep + "://"@.len());
        if slash < 0 {
            None
        } else {
            let h = first_index_from(url, "#"@, slash);
            let stop = if h < 0 {
                url.len() as int
            } else {
                h
            };
            let q = first_index_from(url, "?"@, slash);
            if q >= 0 && q < stop {
                Some(url.subrange(slash, q) + "?"@ + url.subrange(q + 1, stop))
            } else {
                Some(url.subrange(slash, stop) + "?"@)
            }
        }
    }
}

/// The origin-relative query path of an absolute address.
///
/// Fails when the address has no scheme separator or no path after the host.
pub fn querypath_of_url(url: &str) -> (r: Result<String, ParseError>)
    ensures
        match r {
            Ok(qp) => querypath_of_url_spec(url@) == Some(qp@),
            Err(_) => querypath_of_url_spec(url@) is None,
        },
{
    let len = url.unicode_len();
    let scheme_sep = "://";
    let sep = match find_index_from(url, scheme_sep, 0) {
        None => {
            return Err(ParseError::new("an absolute address with a scheme"));
        },
        Some(sep) => sep,
    };
    let slash = match find_index_from(url, "/", sep + scheme_sep.unicode_len()) {
        None => {
            return Err(ParseError::new("a path after the host"));
        },
        Some(slash) => slash,
    };
    let stop = match find_index_from(url, "#", slash) {
        None => len,
        Some(h) => h,
    };
    let q = find_index_from(url, "?", slash);
    match q {
        Some(q) if q < stop => {
            let mut r = substring_string(url, slash, q);
            r.append("?");
            let rest = url.substring_char(q + 1, stop);
            r.append(rest);
            Ok(r)
        },
        _ => {
            let mut r = substring_string(url, slash, stop);
            r.append("?");
            Ok(r)
        },
    }
}

/// The path before the first `?` of a query path, and what follows it.
pub fn split_querypath(querypath: &str) -> (r: (String, Option<String>))
    ensures
        ({
            let q = first_index_from(querypath@, "?"@, 0);
            if q < 0 {
                r.0@ == querypath@ && r.1 is None
            } else {
                &&& r.0@ == querypath@.subrange(0, q)
                &&& r.1 matches Some(rest) && rest@ == querypath@.subrange(
                    q + 1,
                    querypath@.len() as int,
                )
            }
        }),
{
    proof {
        reveal_strlit("?");
    }
    let len = querypath.unicode_len();
    match find_index_from(querypath, "?", 0) {
        None => (querypath.to_owned(), None),
        Some(q) => (
            substring_string(querypath, 0, q),
            Some(substring_string(querypath, q + 1, len)),
        ),
    }
}

/// A query path built from a path and a query component.
pub fn join_querypath(path: &str, query: &str) -> (r: String)
    ensures
        r@ == path@ + "?"@ + query@,
{
    let mut r = path.to_owned();
    r.append("?");
    r.append(query);
    r
}

/// The action endpoint that a listing page's inline script binds to the node
/// with the given id: behind the first anchor named after the id, the first
/// quoted literal handed to the replacement call, which must be tagged with
/// the same id again.
pub open spec fn actions_querypath_spec(script: Seq<char>, id: Seq<char>) -> Option<Seq<char>> {
    let anchor = "$(\"#ilAdvSelListAnchorText_act_"@ + id + "_pref_"@;
    let i = first_index_from(script, anchor, 0);
    if i < 0 {
        None
    } else {
        let e = i + anchor.len();
        let d = digit_run_end(script, e);
        if d == e || !match_at(script, "\").click("@, d) {
            None
        } else {
            let j = first_index_from(script, "ajaxReplaceInner('"@, d);
            if j < 0 {
                None
            } else {
                let c0 = j + "ajaxReplaceInner('"@.len();
                let q = first_index_from(script, "'"@, c0);
                if q <= c0 {
                    None
                } else if match_at(script, "', 'ilAdvSelListTable_act_"@ + id, q) {
                    Some(script.subrange(c0, q))
                } else {
                    None
                }
            }
        }
    }
}

/// Extract the action-menu endpoint bound to node `id` out of a listing
/// page's inline script.
pub fn extract_actions_querypath(script: &str, id: &str) -> (r: Option<String>)
    ensures
        match r {
            Some(qp) => actions_querypath_spec(script@, id@) == Some(qp@),
            None => actions_querypath_spec(script@, id@) is None,
        },
{
    let len = script.unicode_len();
    let mut anchor = String::new();
    anchor.append("$(\"#ilAdvSelListAnchorText_act_");
    anchor.append(id);
    anchor.append("_pref_");
    let i = match find_index_from(script, anchor.as_str(), 0) {
        None => {
            return None;
        },
        Some(i) => i,
    };
    let e = i + anchor.as_str().unicode_len();
    let d = digit_run_end_exec(script, e);
    if d == e || !str_match_at(script, "\").click(", d) {
        return None;
    }
    let j = match find_index_from(script, "ajaxReplaceInner('", d) {
        None => {
            return None;
        },
        Some(j) => j,
    };
    let c0 = j + "ajaxReplaceInner('".unicode_len();
    let q = match find_index_from(script, "'", c0) {
        None => {
            return None;
        },
        Some(q) => q,
    };
    if q <= c0 {
        return None;
    }
    let mut tag = String::new();
    tag.append("', 'ilAdvSelListTable_act_");
    tag.append(id);
    if str_match_at(script, tag.as_str(), q) {
        Some(substring_string(script, c0, q))
    } else {
        None
    }
}

/// The upload endpoint that a file-input initialisation script carries: the
/// second quoted literal handed to the initialisation call, where the first
/// literal is followed directly by a comma.
pub open spec fn file_upload_querypath_spec(script: Seq<char>) -> Option<Seq<char>> {
    let i = first_index_from(script, "il.UI.Input.File.init("@, 0);
    if i < 0 {
        None
    } else {
        let q1 = first_index_from(script, "'"@, i + "il.UI.Input.File.init("@.len());
        if q1 < 0 {
            None
        } else {
            let q2 = first_index_from(script, "'"@, q1 + 1);
            if q2 < 0 || !match_at(script, "',"@, q2) {
                None
            } else {
                let q3 = first_index_from(script, "'"@, q2 + 2);
                if q3 < 0 {
                    None
                } else {
                    let q4 = first_index_from(script, "'"@, q3 + 1);
                    if q4 <= q3 + 1 {
                        None
                    } else {
                        Some(script.subrange(q3 + 1, q4))
                    }
                }
            }
        }
    }
}

/// Extract the direct-upload endpoint out of a file-input initialisation
/// script.
pub fn extract_file_upload_querypath(script: &str) -> (r: Option<String>)
    ensures
        match r {
            Some(qp) => file_upload_querypath_spec(script@) == Some(qp@),
            None => file_upload_querypath_spec(script@) is None,
        },
{
    proof {
        reveal_strlit("'");
        reveal_strlit("',");
    }
    let len = script.unicode_len();
    let marker = "il.UI.Input.File.init(";
    let i = match find_index_from(script, marker, 0) {
        None => {
            return None;
        },
        Some(i) => i,
    };
    let q1 = match find_index_from(script, "'", i + marker.unicode_len()) {
        None => {
            return None;
        },
        Some(q1) => q1,
    };
    let q2 = match find_index_from(script, "'", q1 + 1) {
        None => {
            return None;
        },
        Some(q2) => q2,
    };
    if !str_match_at(script, "',", q2) {
        return None;
    }
    let q3 = match find_index_from(script, "'", q2 + 2) {
        None => {
            return None;
        },
        Some(q3) => q3,
    };
    let q4 = match find_index_from(script, "'", q3 + 1) {
        None => {
            return None;
        },
        Some(q4) => q4,
    };
    if q4 <= q3 + 1 {
        return None;
    }
    Some(substring_string(script, q3 + 1, q4))
}

/// A character the platform uses inside its upload endpoints: letters,
/// digits, `=`, `&`, `:` and `_`.
pub open spec fn is_qp_charset(c: char) -> bool {
    ||| 'a' as u32 <= c as u32 && c as u32 <= 'z' as u32
    ||| 'A' as u32 <= c as u32 && c as u32 <= 'Z' as u32
    ||| '0' as u32 <= c as u32 && c as u32 <= '9' as u32
    ||| c == '='
    ||| c == '&'
    ||| c == ':'
    ||| c == '_'
}

/// `is_qp_charset` as a first-class spec function.
pub open spec fn qp_charset_f() -> spec_fn(char) -> bool {
    |c: char| is_qp_charset(c)
}

/// End of the endpoint-character run starting at `p`.
fn charset_run_end_exec(s: &str, p: usize) -> (r: usize)
    requires
        p <= s@.len(),
    ensures
        r == run_end(s@, p as int, qp_charset_f()),
        p <= r <= s@.len(),
{
    let len = s.unicode_len();
    let mut i = p;
    loop
        invariant
            p <= i <= len,
            len == s@.len(),
            run_end(s@, p as int, qp_charset_f()) == run_end(s@, i as int, qp_charset_f()),
        decreases len - i,
    {
        if i == len {
            return i;
        }
        let c = s.get_char(i);
        let u = c as u32;
        let keep = ('a' as u32 <= u && u <= 'z' as u32) || ('A' as u32 <= u && u <= 'Z' as u32)
            || ('0' as u32 <= u && u <= '9' as u32) || c == '=' || c == '&' || c == ':'
            || c == '_';
        if !keep {
            proof {
                assert(!qp_charset_f()(s@[i as int]));
            }
            return i;
        }
        proof {
            assert(qp_charset_f()(s@[i as int]));
        }
        i += 1;
    }
}

/// The submission-upload endpoint embedded in a page script: the first quoted
/// literal that starts with the platform's script entry point, stays within
/// the endpoint character set up to its closing quote, and carries an upload
/// command between other parameters.
pub open spec fn submission_upload_spec_from(script: Seq<char>, from: int) -> Option<Seq<char>>
    decreases script.len() + 1 - from,
{
    let i = first_index_from(script, "'ilias.php?"@, from);
    if i < from || i > script.len() {
        None
    } else {
        let cstart = i + "'ilias.php?"@.len();
        let e = run_end(script, cstart, qp_charset_f());
        let p = first_index_from(script, "cmd=upload"@, cstart + 1);
        if e < script.len() && script[e] == '\'' && e > cstart && p >= 0 && p
            + "cmd=upload"@.len() < e {
            Some(script.subrange(i + 1, e))
        } else {
            submission_upload_spec_from(script, i + 1)
        }
    }
}

/// Extract the submission-upload endpoint out of a page script.
pub fn extract_submission_upload_querypath(script: &str) -> (r: Option<String>)
    ensures
        match r {
            Some(qp) => submission_upload_spec_from(script@, 0) == Some(qp@),
            None => submission_upload_spec_from(script@, 0) is None,
        },
{
    let marker = "'ilias.php?";
    let needle = "cmd=upload";
    let len = script.unicode_len();
    let mut from: usize = 0;
    loop
        invariant
            marker@ == "'ilias.php?"@,
            needle@ == "cmd=upload"@,
            len == script@.len(),
            from <= len + 1,
            submission_upload_spec_from(script@, 0) == submission_upload_spec_from(
                script@,
                from as int,
            ),
        decreases len + 1 - from,
    {
        let i = match find_index_from(script, marker, from) {
            None => {
                return None;
            },
            Some(i) => i,
        };
        let cstart = i + marker.unicode_len();
        let e = charset_run_end_exec(script, cstart);
        if e < len && script.get_char(e) == '\'' && e > cstart {
            let p = find_index_from(script, needle, cstart + 1);
            let nlen = needle.unicode_len();
            let good = match p {
                Some(p) => p + nlen < e,
                None => false,
            };
            if good {
                return Some(substring_string(script, i + 1, e));
            }
        }
        proof {
            assert(submission_upload_spec_from(script@, from as int)
                == submission_upload_spec_from(script@, i + 1));
            reveal_strlit("'ilias.php?");
        }
        from = i + 1;
    }
}

/// The value of the first `from_url` parameter of a query path: the
/// characters between `from_url=` and the next `&`, which must be present.
pub open spec fn from_url_param_spec(s: Seq<char>) -> Option<Seq<char>> {
    let i = first_index_from(s, "from_url="@, 0);
    if i < 0 {
        None
    } else {
        let start = i + "from_url="@.len();
        let a = first_index_from(s, "&"@, start);
        if a <= start {
            None
        } else {
            Some(s.subrange(start, a))
        }
    }
}

/// Extract the first `from_url` parameter value of a query path.
pub fn extract_from_url_param(s: &str) -> (r: Option<String>)
    ensures
        match r {
            Some(v) => from_url_param_spec(s@) == Some(v@),
            None => from_url_param_spec(s@) is None,
        },
{
    let len = s.unicode_len();
    let marker = "from_url=";
    let i = match find_index_from(s, marker, 0) {
        None => {
            return None;
        },
        Some(i) => i,
    };
    let start = i + marker.unicode_len();
    let a = match find_index_from(s, "&", start) {
        None => {
            return None;
        },
        Some(a) => a,
    };
    if a <= start {
        return None;
    }
    Some(substring_string(s, start, a))
}

} // verus!
