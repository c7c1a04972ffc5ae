//! The grades facet of an exercise: one grade page per assignment, each
//! fetched only when asked for.

use vstd::prelude::*;
use vstd::string::StringSliceAdditionalSpecFns;

use base64::Engine;
use submission::{is_feedback_action, GradeSubmission};

use crate::addressing::{extract_from_url_param, from_url_param_spec};
use crate::error::ParseError;
use crate::reference::Reference;
use crate::scrape::{element_attr, first_attr, first_in, document_root, select_in};
use crate::IliasElement;

pub mod submission;

verus! {

/// What the URL-safe, unpadded base64 alphabet decodes a string to, when the
/// string is valid base64; a function of the characters alone.
pub uninterp spec fn b64url_decode_of(s: Seq<char>) -> Option<Seq<u8>>;

/// Relies on base64's URL-safe no-pad engine (`BASE64_URL_SAFE_NO_PAD`):
/// decoding is deterministic in the input characters, and fails exactly on
/// text outside that alphabet's valid encodings.
#[verifier::external_body]
fn b64url_decode(s: &str) -> (r: Option<Vec<u8>>)
    ensures
        match r {
            Some(v) => b64url_decode_of(s@) == Some(v@),
            None => b64url_decode_of(s@) is None,
        },
{
    match base64::prelude::BASE64_URL_SAFE_NO_PAD.decode(s) {
        Ok(v) => Some(v),
        Err(_) => None,
    }
}

/// `n` occurs in `h` starting at position `i`.
pub open spec fn bytes_match_at(h: Seq<u8>, n: Seq<u8>, i: int) -> bool {
    &&& 0 <= i
    &&& i + n.len() <= h.len()
    &&& forall|j: int| 0 <= j < n.len() ==> h[i + j] == n[j]
}

/// `n` occurs somewhere in `h`.
pub open spec fn bytes_contain(h: Seq<u8>, n: Seq<u8>) -> bool {
    exists|i: int| bytes_match_at(h, n, i)
}

/// Whether the byte needle occurs in the haystack.
fn bytes_contain_exec(h: &Vec<u8>, n: &[u8]) -> (r: bool)
    ensures
        r == bytes_contain(h@, n@),
{
    if n.len() > h.len() {
        proof {
            assert(forall|i: int| !bytes_match_at(h@, n@, i));
        }
        return false;
    }
    let mut i: usize = 0;
    while i <= h.len() - n.len()
        invariant
            n@.len() <= h@.len(),
            i <= h@.len() - n@.len() + 1,
            forall|j: int| 0 <= j < i ==> !bytes_match_at(h@, n@, j),
        decreases h@.len() - n@.len() + 1 - i,
    {
        let mut k: usize = 0;
        let mut all = true;
        while k < n.len()
            invariant
                n@.len() <= h@.len(),
                i + n@.len() <= h@.len(),
                k <= n@.len(),
                all == forall|t: int| 0 <= t < k ==> h@[i + t] == n@[t],
            decreases n@.len() - k,
        {
            let hl = h.len();
            proof {
                assert(i + k < hl);
            }
            if h[i + k] != n[k] {
                proof {
                    assert(h@[i + k] != n@[k as int]);
                }
                all = false;
            }
            k += 1;
        }
        if all {
            proof {
                assert(bytes_match_at(h@, n@, i as int));
            }
            return true;
        }
        proof {
            assert(!bytes_match_at(h@, n@, i as int));
        }
        i += 1;
    }
    proof {
        assert forall|j: int| !bytes_match_at(h@, n@, j) by {
            if 0 <= j <= h@.len() - n@.len() {
                assert(!bytes_match_at(h@, n@, j));
            }
        }
    }
    false
}

/// An action endpoint that downloads the archive of this assignment: its
/// `from_url` parameter decodes to bytes naming the assignment id.
pub open spec fn action_downloads(a: Seq<char>, ass_id: &str) -> bool {
    match from_url_param_spec(a) {
        None => false,
        Some(u) => match b64url_decode_of(u) {
            None => false,
            Some(bytes) => bytes_contain(bytes, ass_id.spec_bytes()),
        },
    }
}

/// The first notification action whose encoded `from_url` parameter names
/// the assignment: that action downloads the submissions archive.
pub fn find_submissions_download_querypath(actions: &Vec<String>, ass_id: &str) -> (r: Option<
    String,
>)
    ensures
        match r {
            Some(a) => exists|i: int|
                {
                    &&& 0 <= i < actions@.len()
                    &&& #[trigger] action_downloads(actions@[i]@, ass_id)
                    &&& forall|j: int| 0 <= j < i ==> !action_downloads(actions@[j]@, ass_id)
                    &&& a == actions@[i]
                },
            None => forall|i: int|
                0 <= i < actions@.len() ==> !action_downloads(actions@[i]@, ass_id),
        },
{
    let needle = ass_id.as_bytes();
    let mut i: usize = 0;
    while i < actions.len()
        invariant
            needle@ == ass_id.spec_bytes(),
            i <= actions@.len(),
            forall|j: int| 0 <= j < i ==> !action_downloads(actions@[j]@, ass_id),
        decreases actions@.len() - i,
    {
        let hit = match extract_from_url_param(actions[i].as_str()) {
            None => false,
            Some(u) => match b64url_decode(u.as_str()) {
                None => false,
                Some(bytes) => bytes_contain_exec(&bytes, needle),
            },
        };
        if hit {
            proof {
                assert(action_downloads(actions@[i as int]@, ass_id));
            }
            return Some(actions[i].clone());
        }
        proof {
            assert(!action_downloads(actions@[i as int]@, ass_id));
        }
        i += 1;
    }
    None
}

/// The thirteen fixed filter and command fields that every point update
/// posts ahead of the per-submission entries.
pub open spec fn update_points_fixed_fields(r: Seq<(String, String)>) -> bool {
    &&& r.len() >= 13
    &&& r[0].0@ == "flt_status"@ && r[0].1@ == ""@
    &&& r[1].0@ == "flt_subm"@ && r[1].1@ == ""@
    &&& r[2].0@ == "flt_subm_after"@ && r[2].1@ == ""@
    &&& r[3].0@ == "flt_subm_before"@ && r[3].1@ == ""@
    &&& r[4].0@ == "tblfsexc_mem[]"@ && r[4].1@ == "login"@
    &&& r[5].0@ == "tblfsexc_mem[]"@ && r[5].1@ == "submission"@
    &&& r[6].0@ == "tblfsexc_mem[]"@ && r[6].1@ == "idl"@
    &&& r[7].0@ == "tblfsexc_mem[]"@ && r[7].1@ == "mark"@
    &&& r[8].0@ == "tblfshexc_mem"@ && r[8].1@ == "1"@
    &&& r[9].0@ == "tbltplcrt"@ && r[9].1@ == ""@
    &&& r[10].0@ == "selected_cmd"@ && r[10].1@ == "saveStatusSelected"@
    &&& r[11].0@ == "selected_cmd2"@ && r[11].1@ == "saveStatusSelected"@
    &&& r[12].0@ == "select_cmd2"@ && r[12].1@ == "Ausführen"@
}

/// The grades facet: an unresolved reference to one grade page per
/// assignment of the exercise.
#[derive(Debug)]
pub struct Grades {
    pub assignment_grades: Vec<Reference<GradePage>>,
}

impl Grades {
    /// The per-assignment grade page addresses: the base address with each
    /// assignment id appended.
    pub fn from_option_values(values: &Vec<String>, base_querypath: &str) -> (g: Grades)
        ensures
            g.assignment_grades@.len() == values@.len(),
            forall|i: int|
                0 <= i < values@.len() ==> ((#[trigger] g.assignment_grades@[i]) matches
                    Reference::Unresolved(q) && q@ == base_querypath@ + "&ass_id="@ + values@[i]@),
    {
        let mut refs: Vec<Reference<GradePage>> = Vec::new();
        let mut i: usize = 0;
        while i < values.len()
            invariant
                i <= values@.len(),
                refs@.len() == i,
                forall|j: int|
                    0 <= j < i ==> ((#[trigger] refs@[j]) matches Reference::Unresolved(q) && q@
                        == base_querypath@ + "&ass_id="@ + values@[j]@),
            decreases values@.len() - i,
        {
            let mut qp = base_querypath.to_owned();
            qp.append("&ass_id=");
            qp.append(values[i].as_str());
            refs.push(Reference::Unresolved(qp));
            i += 1;
        }
        Grades { assignment_grades: refs }
    }

    /// Parse the grades overview: every assignment option of the selection
    /// dropdown becomes one unresolved grade page reference, derived from the
    /// base address. An option without a value is an error.
    pub fn parse(page: &scraper::Html, base_querypath: &str) -> (r: Result<Grades, ParseError>)
        ensures
            r matches Ok(g) ==> forall|i: int|
                0 <= i < g.assignment_grades@.len() ==> (#[trigger] g.assignment_grades@[i])
                    is Unresolved,
    {
        let root = document_root(page)?;
        let options = select_in(&root, "select#ass_id>option")?;
        let mut values: Vec<String> = Vec::new();
        let mut i: usize = 0;
        while i < options.len()
            decreases options.len() - i,
        {
            match element_attr(&options[i], "value") {
                Some(v) => values.push(v),
                None => {
                    return Err(ParseError::new("a value on the assignment option"));
                },
            }
            i += 1;
        }
        Ok(Self::from_option_values(&values, base_querypath))
    }
}

/// One assignment's grade page: the assignment's name and id, the toolbar
/// form all grading commands post to, and one entry per submission row.
#[derive(Debug)]
pub struct GradePage {
    pub name: String,
    pub ass_id: String,
    pub toolbar_form_querypath: String,
    pub submissions: Vec<GradeSubmission>,
}

impl IliasElement for GradePage {
    /// Grade pages cannot be addressed directly.
    fn type_identifier() -> (r: Option<&'static str>)
        ensures
            r is None,
    {
        None
    }

    fn querypath_from_id(id: &str) -> (r: Option<String>)
        ensures
            r is None,
    {
        None
    }
}

impl GradePage {
    /// Parse a grade page: the selected assignment option names the page, the
    /// toolbar form receives the grading commands, and every row of the
    /// member table is one submission. A row matching no supported shape
    /// fails the whole parse rather than being skipped.
    pub fn parse(page: &scraper::Html) -> (r: Result<GradePage, ParseError>)
        ensures
            r matches Ok(g) ==> forall|i: int|
                0 <= i < g.submissions@.len() ==> {
                    &&& (#[trigger] g.submissions@[i]).ilias_id@.len() == 0
                    &&& g.submissions@[i].points@.len() == 0
                    &&& is_feedback_action(g.submissions@[i].file_feedback_querypath@)
                },
    {
        let root = document_root(page)?;
        let selected = match first_in(&root, "select#ass_id option[selected=\"selected\"]")? {
            Some(s) => s,
            None => {
                return Err(ParseError::new("the selected assignment option"));
            },
        };
        let ass_id = match element_attr(&selected, "value") {
            Some(v) => v,
            None => {
                return Err(ParseError::new("a value on the selected assignment option"));
            },
        };
        let name = crate::scrape::element_text(&selected);
        let toolbar_form_querypath = match first_attr(&root, "form#ilToolbar", "action")? {
            Some(a) => a,
            None => {
                return Err(ParseError::new("the toolbar form's action"));
            },
        };
        let row_els = select_in(&root, "table#exc_mem tbody tr")?;
        let mut submissions: Vec<GradeSubmission> = Vec::new();
        let mut i: usize = 0;
        while i < row_els.len()
            invariant
                forall|j: int|
                    0 <= j < submissions@.len() ==> {
                        &&& (#[trigger] submissions@[j]).ilias_id@.len() == 0
                        &&& submissions@[j].points@.len() == 0
                        &&& is_feedback_action(submissions@[j].file_feedback_querypath@)
                    },
            decreases row_els.len() - i,
        {
            let row = GradeSubmission::scrape_row(&row_els[i])?;
            let submission = GradeSubmission::parse(&row)?;
            submissions.push(submission);
            i += 1;
        }
        Ok(GradePage { name, ass_id, toolbar_form_querypath, submissions })
    }

    /// The fields that ask the platform to pack all submissions into an
    /// archive.
    pub fn download_submissions_fields(&self) -> (r: Vec<(String, String)>)
        ensures
            r@.len() == 3,
            r@[0].0@ == "ass_id"@ && r@[0].1 == self.ass_id,
            r@[1].0@ == "user_login"@ && r@[1].1@ == ""@,
            r@[2].0@ == "cmd[downloadSubmissions]"@ && r@[2].1@ == ":)"@,
    {
        let mut r: Vec<(String, String)> = Vec::new();
        r.push(("ass_id".to_owned(), self.ass_id.clone()));
        r.push(("user_login".to_owned(), "".to_owned()));
        r.push(("cmd[downloadSubmissions]".to_owned(), ":)".to_owned()));
        r
    }

    /// The fields that record the given point values: the table's fixed
    /// filter and command fields, then four entries per changed submission.
    pub fn update_points_fields(&self, changed: &Vec<GradeSubmission>) -> (r: Vec<
        (String, String),
    >)
        ensures
            r@.len() == 13 + 4 * changed@.len(),
            update_points_fixed_fields(r@),
            forall|i: int|
                0 <= i < changed@.len() ==> {
                    &&& (#[trigger] r@[13 + 4 * i]).0@ == "sel_part_ids[]"@ && r@[13 + 4 * i].1
                        == changed@[i].ilias_id
                    &&& r@[13 + 4 * i + 1].0@ == "listed_part_ids[]"@ && r@[13 + 4 * i + 1].1
                        == changed@[i].ilias_id
                    &&& r@[13 + 4 * i + 2].0@ == "status["@ + changed@[i].ilias_id@ + "]"@ && r@[
                        13 + 4 * i + 2
                    ].1@ == "notgraded"@
                    &&& r@[13 + 4 * i + 3].0@ == "mark["@ + changed@[i].ilias_id@ + "]"@ && r@[
                        13 + 4 * i + 3
                    ].1 == changed@[i].points
                },
    {
        let mut r: Vec<(String, String)> = Vec::new();
        r.push(("flt_status".to_owned(), "".to_owned()));
        r.push(("flt_subm".to_owned(), "".to_owned()));
        r.push(("flt_subm_after".to_owned(), "".to_owned()));
        r.push(("flt_subm_before".to_owned(), "".to_owned()));
        r.push(("tblfsexc_mem[]".to_owned(), "login".to_owned()));
        r.push(("tblfsexc_mem[]".to_owned(), "submission".to_owned()));
        r.push(("tblfsexc_mem[]".to_owned(), "idl".to_owned()));
        r.push(("tblfsexc_mem[]".to_owned(), "mark".to_owned()));
        r.push(("tblfshexc_mem".to_owned(), "1".to_owned()));
        r.push(("tbltplcrt".to_owned(), "".to_owned()));
        r.push(("selected_cmd".to_owned(), "saveStatusSelected".to_owned()));
        r.push(("selected_cmd2".to_owned(), "saveStatusSelected".to_owned()));
        r.push(("select_cmd2".to_owned(), "Ausführen".to_owned()));
        let mut i: usize = 0;
        while i < changed.len()
            invariant
                i <= changed@.len(),
                r@.len() == 13 + 4 * i,
                update_points_fixed_fields(r@),
                forall|j: int|
                    0 <= j < i ==> {
                        &&& (#[trigger] r@[13 + 4 * j]).0@ == "sel_part_ids[]"@ && r@[13 + 4
                            * j].1 == changed@[j].ilias_id
                        &&& r@[13 + 4 * j + 1].0@ == "listed_part_ids[]"@ && r@[13 + 4 * j + 1].1
                            == changed@[j].ilias_id
                        &&& r@[13 + 4 * j + 2].0@ == "status["@ + changed@[j].ilias_id@ + "]"@
                            && r@[13 + 4 * j + 2].1@ == "notgraded"@
                        &&& r@[13 + 4 * j + 3].0@ == "mark["@ + changed@[j].ilias_id@ + "]"@ && r@[
                            13 + 4 * j + 3
                        ].1 == changed@[j].points
                    },
            decreases changed@.len() - i,
        {
            let sub = &changed[i];
            let ghost r0 = r@;
            r.push(("sel_part_ids[]".to_owned(), sub.ilias_id.clone()));
            r.push(("listed_part_ids[]".to_owned(), sub.ilias_id.clone()));
            let mut status_key = "status[".to_owned();
            status_key.append(sub.ilias_id.as_str());
            status_key.append("]");
            r.push((status_key, "notgraded".to_owned()));
            let mut mark_key = "mark[".to_owned();
            mark_key.append(sub.ilias_id.as_str());
            mark_key.append("]");
            r.push((mark_key, sub.points.clone()));
            proof {
                let ii = i as int;
                let entry = changed@[ii];
                assert(r0.len() == 13 + 4 * ii);
                assert(forall|j: int| 0 <= j < r0.len() ==> r@[j] == r0[j]);
                assert(r@[13 + 4 * ii].0@ == "sel_part_ids[]"@ && r@[13 + 4 * ii].1
                    == entry.ilias_id);
                assert(r@[13 + 4 * ii + 1].0@ == "listed_part_ids[]"@ && r@[13 + 4 * ii + 1].1
                    == entry.ilias_id);
                assert(r@[13 + 4 * ii + 2].0@ == "status["@ + entry.ilias_id@ + "]"@ && r@[13 + 4
                    * ii + 2].1@ == "notgraded"@);
                assert(r@[13 + 4 * ii + 3].0@ == "mark["@ + entry.ilias_id@ + "]"@ && r@[13 + 4
                    * ii + 3].1 == entry.points);
                assert(update_points_fixed_fields(r@));
                assert forall|j: int| 0 <= j < ii implies {
                    &&& (#[trigger] r@[13 + 4 * j]).0@ == "sel_part_ids[]"@ && r@[13 + 4 * j].1
                        == changed@[j].ilias_id
                    &&& r@[13 + 4 * j + 1].0@ == "listed_part_ids[]"@ && r@[13 + 4 * j + 1].1
                        == changed@[j].ilias_id
                    &&& r@[13 + 4 * j + 2].0@ == "status["@ + changed@[j].ilias_id@ + "]"@ && r@[
                        13 + 4 * j + 2
                    ].1@ == "notgraded"@
                    &&& r@[13 + 4 * j + 3].0@ == "mark["@ + changed@[j].ilias_id@ + "]"@ && r@[13
                        + 4 * j + 3].1 == changed@[j].points
                } by {
                    assert(r@[13 + 4 * j] == r0[13 + 4 * j]);
                    assert(r@[13 + 4 * j + 1] == r0[13 + 4 * j + 1]);
                    assert(r@[13 + 4 * j + 2] == r0[13 + 4 * j + 2]);
                    assert(r@[13 + 4 * j + 3] == r0[13 + 4 * j + 3]);
                }
            }
            i += 1;
        }
        r
    }
}

} // verus!
