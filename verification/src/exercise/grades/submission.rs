//! One submission row of a grade page: who submitted, and where feedback
//! files for them are managed.

use vstd::prelude::*;

use crate::addressing::{extract_file_upload_querypath, file_upload_querypath_spec};
use crate::error::ParseError;
use crate::scrape::{all_attrs, first_attr, first_text, document_root};
use crate::text::{
    contains_seq, contains_sub, swap_comma_name, swapped_name, translit, transliterate, trim_seq,
    trim_str,
};

verus! {

/// A submission of a user or team for an assignment that feedback can be
/// uploaded to. `ilias_id` is the platform's internal id of the submitter
/// row and `points` the value to record; both are filled in by the grading
/// caller before the point update is posted.
#[derive(Debug, Clone)]
pub struct GradeSubmission {
    pub identifier: String,
    pub file_feedback_querypath: String,
    pub ilias_id: String,
    pub points: String,
}

/// One row of the member table, as plain values: the team marker text, the
/// sign-in name column, the display name column, and the action endpoints of
/// the row's dropdown.
#[derive(Debug, Clone)]
pub struct GradeRow {
    pub team_text: Option<String>,
    pub signin_text: Option<String>,
    pub name_text: Option<String>,
    pub actions: Vec<String>,
}

/// The identity a row denotes. A team marker `"(N)"` yields `"Team N"`. A
/// display name beside an at-sign-bearing sign-in name yields
/// `"Given_Family_signin"`, the name swapped around its comma and
/// transliterated. Rows matching neither shape are a recognized but
/// unsupported submission style and yield nothing.
pub open spec fn identifier_spec(
    team: Option<String>,
    signin: Option<String>,
    name: Option<String>,
) -> Option<Seq<char>> {
    match team {
        Some(t) => {
            let tt = trim_seq(t@);
            if tt.len() >= 2 && tt[0] == '(' && tt[tt.len() - 1] == ')' {
                Some("Team "@ + tt.subrange(1, tt.len() - 1))
            } else {
                None
            }
        },
        None => match (signin, name) {
            (Some(s), Some(n)) => {
                if contains_seq(s@, "@"@) {
                    Some(translit(swapped_name(trim_seq(n@))) + "_"@ + trim_seq(s@))
                } else {
                    None
                }
            },
            _ => None,
        },
    }
}

/// The identity a row denotes; an error when the row matches no supported
/// shape, so that a platform format change is noticed rather than skipped.
pub fn identifier_from(
    team: &Option<String>,
    signin: &Option<String>,
    name: &Option<String>,
) -> (r: Result<String, ParseError>)
    ensures
        match r {
            Ok(id) => identifier_spec(*team, *signin, *name) == Some(id@),
            Err(_) => identifier_spec(*team, *signin, *name) is None,
        },
{
    match team {
        Some(t) => {
            let tt = trim_str(t.as_str());
            let len = tt.as_str().unicode_len();
            if len >= 2 && tt.as_str().get_char(0) == '(' && tt.as_str().get_char(len - 1) == ')' {
                let mut id = "Team ".to_owned();
                let inner = tt.as_str().substring_char(1, len - 1);
                id.append(inner);
                Ok(id)
            } else {
                Err(ParseError::new("a team marker of the shape (N)"))
            }
        },
        None => match (signin, name) {
            (Some(s), Some(n)) => {
                if contains_sub(s.as_str(), "@") {
                    let trimmed_name = trim_str(n.as_str());
                    let swapped = swap_comma_name(trimmed_name.as_str());
                    let mut id = transliterate(swapped.as_str());
                    id.append("_");
                    let trimmed_signin = trim_str(s.as_str());
                    id.append(trimmed_signin.as_str());
                    Ok(id)
                } else {
                    Err(ParseError::new("an at sign in the sign-in name"))
                }
            },
            _ => Err(ParseError::new("a supported submission row shape")),
        },
    }
}

/// The first dropdown action that manages feedback files: a resource
/// collection command or a file listing command.
pub open spec fn is_feedback_action(a: Seq<char>) -> bool {
    contains_seq(a, "cmdClass=ilResourceCollectionGUI"@) || contains_seq(a, "cmd=listFiles"@)
}

/// `a` is the first action of the list that manages feedback files.
pub open spec fn first_feedback_action(actions: Seq<String>, a: String) -> bool {
    exists|i: int|
        {
            &&& 0 <= i < actions.len()
            &&& #[trigger] is_feedback_action(actions[i]@)
            &&& forall|j: int| 0 <= j < i ==> !is_feedback_action(actions[j]@)
            &&& a == actions[i]
        }
}

/// No action of the list manages feedback files.
pub open spec fn no_feedback_action(actions: Seq<String>) -> bool {
    forall|i: int| 0 <= i < actions.len() ==> !is_feedback_action(actions[i]@)
}

/// The first dropdown action that manages feedback files.
pub fn find_feedback_querypath(actions: &Vec<String>) -> (r: Option<String>)
    ensures
        match r {
            Some(a) => first_feedback_action(actions@, a),
            None => no_feedback_action(actions@),
        },
{
    let mut i: usize = 0;
    while i < actions.len()
        invariant
            i <= actions@.len(),
            forall|j: int| 0 <= j < i ==> !is_feedback_action(actions@[j]@),
        decreases actions@.len() - i,
    {
        if contains_sub(actions[i].as_str(), "cmdClass=ilResourceCollectionGUI") || contains_sub(
            actions[i].as_str(),
            "cmd=listFiles",
        ) {
            proof {
                assert(is_feedback_action(actions@[i as int]@));
            }
            return Some(actions[i].clone());
        }
        proof {
            assert(!is_feedback_action(actions@[i as int]@));
        }
        i += 1;
    }
    None
}

impl GradeSubmission {
    /// Read one member-table row into plain values.
    pub fn scrape_row(row: &scraper::ElementRef<'_>) -> (r: Result<GradeRow, ParseError>) {
        let team_text = first_text(row, "td:nth-child(2) div.small")?;
        let signin_text = first_text(row, "td:nth-child(3).std")?;
        let name_text = first_text(row, "td:nth-child(2).std")?;
        let actions = all_attrs(row, ".dropdown-menu button", "data-action")?;
        Ok(GradeRow { team_text, signin_text, name_text, actions })
    }

    /// Construct a submission from its table row: derive the submitter's
    /// identity and locate the feedback endpoint among the row's actions.
    /// Fails exactly when the row matches no supported identity shape or no
    /// dropdown action manages feedback, so that a platform format change is
    /// noticed rather than skipped.
    pub fn parse(row: &GradeRow) -> (r: Result<GradeSubmission, ParseError>)
        ensures
            r matches Ok(s) ==> {
                &&& identifier_spec(row.team_text, row.signin_text, row.name_text) == Some(
                    s.identifier@,
                )
                &&& first_feedback_action(row.actions@, s.file_feedback_querypath)
                &&& is_feedback_action(s.file_feedback_querypath@)
                &&& s.ilias_id@.len() == 0 && s.points@.len() == 0
            },
            r is Err <==> (identifier_spec(row.team_text, row.signin_text, row.name_text) is None
                || no_feedback_action(row.actions@)),
    {
        let identifier = identifier_from(&row.team_text, &row.signin_text, &row.name_text)?;
        let file_feedback_querypath = match find_feedback_querypath(&row.actions) {
            Some(a) => a,
            None => {
                return Err(ParseError::new("a feedback action in the row's dropdown"));
            },
        };
        proof {
            let i = choose|i: int|
                {
                    &&& 0 <= i < row.actions@.len()
                    &&& #[trigger] is_feedback_action(row.actions@[i]@)
                    &&& forall|j: int| 0 <= j < i ==> !is_feedback_action(row.actions@[j]@)
                    &&& file_feedback_querypath == row.actions@[i]
                };
            assert(is_feedback_action(row.actions@[i]@));
            assert(!no_feedback_action(row.actions@));
        }
        Ok(
            GradeSubmission {
                identifier,
                file_feedback_querypath,
                ilias_id: String::new(),
                points: String::new(),
            },
        )
    }
}

/// How feedback is uploaded to a submission: the platform renders one of two
/// page variants, detected by whether the page script embeds a direct staging
/// endpoint.
#[derive(Debug, Clone, PartialEq, Eq)]
pub enum FeedbackUploadPlan {
    /// The script embeds a staging endpoint; the page's modal form confirms.
    Direct { upload_querypath: String, form_querypath: String },
    /// No embedded endpoint: post the file to the toolbar form directly.
    FormPost { upload_querypath: String },
}

/// What a feedback page shows, as plain values: its trailing inline script,
/// the modal form's action, and the toolbar form's action.
#[derive(Debug, Clone)]
pub struct FeedbackPageParts {
    pub script: String,
    pub modal_action: Option<String>,
    pub toolbar_action: Option<String>,
}

/// Read a feedback page into plain values.
pub fn scrape_feedback_page(page: &scraper::Html) -> (r: Result<FeedbackPageParts, ParseError>) {
    let root = document_root(page)?;
    let script = match first_text(&root, "body script:last-child")? {
        Some(s) => s,
        None => {
            return Err(ParseError::new("the feedback page's trailing script"));
        },
    };
    let modal_action = first_attr(&root, ".modal-body form", "action")?;
    let toolbar_action = first_attr(&root, ".ilToolbarContainer form", "action")?;
    Ok(FeedbackPageParts { script, modal_action, toolbar_action })
}

/// Select the upload variant a feedback page offers: the script-embedded
/// staging endpoint when the script carries one (the modal form must then be
/// present), else the conventional toolbar form.
pub fn feedback_upload_plan(parts: &FeedbackPageParts) -> (r: Result<
    FeedbackUploadPlan,
    ParseError,
>)
    ensures
        match r {
            Ok(plan) => match file_upload_querypath_spec(parts.script@) {
                Some(qp) => plan matches FeedbackUploadPlan::Direct {
                    upload_querypath,
                    form_querypath,
                } && upload_querypath@ == qp && (parts.modal_action matches Some(m)
                    && form_querypath == m),
                None => plan matches FeedbackUploadPlan::FormPost { upload_querypath } && (
                parts.toolbar_action matches Some(t) && upload_querypath == t),
            },
            Err(_) => (file_upload_querypath_spec(parts.script@) is Some
                && parts.modal_action is None) || (file_upload_querypath_spec(parts.script@)
                is None && parts.toolbar_action is None),
        },
{
    match extract_file_upload_querypath(parts.script.as_str()) {
        Some(upload_querypath) => match &parts.modal_action {
            Some(m) => Ok(
                FeedbackUploadPlan::Direct { upload_querypath, form_querypath: m.clone() },
            ),
            None => Err(ParseError::new("a form to confirm the feedback upload")),
        },
        None => match &parts.toolbar_action {
            Some(t) => Ok(FeedbackUploadPlan::FormPost { upload_querypath: t.clone() }),
            None => Err(ParseError::new("a toolbar form to upload feedback")),
        },
    }
}

/// Whether the platform accepted a staged feedback upload.
pub fn feedback_upload_accepted(status: u64) -> (r: bool)
    ensures
        r == (status == 1),
{
    status == 1
}

} // verus!
