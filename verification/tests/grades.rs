use base64::Engine;

use ilias_client::exercise::grades::submission::{
    feedback_upload_accepted, feedback_upload_plan, find_feedback_querypath, identifier_from,
    FeedbackPageParts, FeedbackUploadPlan, GradeRow, GradeSubmission,
};
use ilias_client::exercise::grades::{
    find_submissions_download_querypath, GradePage, Grades,
};
use scraper::Html;

fn some(s: &str) -> Option<String> {
    Some(s.to_string())
}

/// A team marker row yields the team identity.
#[test]
fn team_marker_yields_team_identifier() {
    let id = identifier_from(&some(" (42) "), &None, &None).unwrap();
    assert_eq!(id, "Team 42");
}

/// A display name beside an at-sign-bearing sign-in name yields the swapped,
/// transliterated identity.
#[test]
fn display_name_yields_swapped_identifier() {
    let id = identifier_from(
        &None,
        &some(" max.mustermann@student.kit.edu "),
        &some(" Mustermann, Max "),
    )
    .unwrap();
    assert_eq!(id, "Max_Mustermann_max.mustermann@student.kit.edu");
}

#[test]
fn german_diacritics_are_transliterated() {
    let id = identifier_from(&None, &some("jm@kit.edu"), &some("Müßig, Jörg")).unwrap();
    assert_eq!(id, "Joerg_Muessig_jm@kit.edu");
    let id = identifier_from(&None, &some("a@b"), &some("Schäfer-Größe, Übel")).unwrap();
    assert_eq!(id, "Uebel_Schaefer-Groesse_a@b");
}

/// A row matching neither supported shape fails instead of being skipped.
#[test]
fn unsupported_row_shapes_fail() {
    // No at sign in the sign-in name.
    assert!(identifier_from(&None, &some("no-at-sign"), &some("Mustermann, Max")).is_err());
    // A malformed team marker.
    assert!(identifier_from(&some("42"), &None, &None).is_err());
    // Nothing at all.
    assert!(identifier_from(&None, &None, &None).is_err());
}

#[test]
fn feedback_querypath_is_the_first_matching_action() {
    let actions = vec![
        "ilias.php?cmd=edit".to_string(),
        "ilias.php?cmd=listFiles&id=1".to_string(),
        "ilias.php?cmdClass=ilResourceCollectionGUI&id=2".to_string(),
    ];
    assert_eq!(find_feedback_querypath(&actions).unwrap(), "ilias.php?cmd=listFiles&id=1");
    assert!(find_feedback_querypath(&vec!["ilias.php?cmd=edit".to_string()]).is_none());
}

#[test]
fn grade_submission_from_a_team_row() {
    let row = GradeRow {
        team_text: some("(7)"),
        signin_text: None,
        name_text: None,
        actions: vec!["ilias.php?cmd=listFiles&id=9".to_string()],
    };
    let s = GradeSubmission::parse(&row).unwrap();
    assert_eq!(s.identifier, "Team 7");
    assert_eq!(s.file_feedback_querypath, "ilias.php?cmd=listFiles&id=9");
    assert_eq!(s.ilias_id, "");
    assert_eq!(s.points, "");
}

/// A row whose dropdown offers no feedback action fails, even when the
/// identity is fine.
#[test]
fn row_without_feedback_action_fails() {
    let row = GradeRow {
        team_text: some("(7)"),
        signin_text: None,
        name_text: None,
        actions: vec!["ilias.php?cmd=edit".to_string()],
    };
    assert!(GradeSubmission::parse(&row).is_err());
}

#[test]
fn grades_overview_builds_one_reference_per_option() {
    let html = "<html><body><select id=\"ass_id\">\
                <option value=\"11\">Sheet 1</option>\
                <option value=\"12\">Sheet 2</option>\
                </select></body></html>";
    let page = Html::parse_document(html);
    let grades = Grades::parse(&page, "ilias.php?cmd=members&ref_id=123").unwrap();
    assert_eq!(grades.assignment_grades.len(), 2);
    let qp = grades.assignment_grades[0].pending_querypath().unwrap();
    assert_eq!(qp, "ilias.php?cmd=members&ref_id=123&ass_id=11");
    let qp = grades.assignment_grades[1].pending_querypath().unwrap();
    assert_eq!(qp, "ilias.php?cmd=members&ref_id=123&ass_id=12");
}

#[test]
fn grade_page_parses_rows() {
    let html = "<html><body>\
        <form id=\"ilToolbar\" action=\"ilias.php?cmd=saveStatus&ass_id=11\"></form>\
        <select id=\"ass_id\">\
          <option value=\"11\" selected=\"selected\">Sheet 1</option>\
          <option value=\"12\">Sheet 2</option>\
        </select>\
        <table id=\"exc_mem\"><tbody>\
          <tr><td>1</td><td><div class=\"small\">(42)</div></td><td class=\"std\">x</td>\
          <td><div class=\"dropdown-menu\"><button data-action=\"ilias.php?cmd=listFiles&amp;id=1\">Files</button></div></td></tr>\
        </tbody></table>\
        </body></html>";
    let page = Html::parse_document(html);
    let grade_page = GradePage::parse(&page).unwrap();
    assert_eq!(grade_page.name, "Sheet 1");
    assert_eq!(grade_page.ass_id, "11");
    assert_eq!(grade_page.toolbar_form_querypath, "ilias.php?cmd=saveStatus&ass_id=11");
    assert_eq!(grade_page.submissions.len(), 1);
    assert_eq!(grade_page.submissions[0].identifier, "Team 42");
}

#[test]
fn download_querypath_decodes_the_from_url_parameter() {
    let encoded = base64::prelude::BASE64_URL_SAFE_NO_PAD.encode("ilias.php?ass_id=11&cmd=x");
    let matching = format!("ilias.php?cmd=show&from_url={encoded}&other=1");
    let other_encoded = base64::prelude::BASE64_URL_SAFE_NO_PAD.encode("ilias.php?ass_id=99");
    let other = format!("ilias.php?cmd=show&from_url={other_encoded}&other=1");
    let actions = vec![other, matching.clone(), "ilias.php?noparam=1".to_string()];
    assert_eq!(find_submissions_download_querypath(&actions, "ass_id=11").unwrap(), matching);
    assert!(find_submissions_download_querypath(&actions, "ass_id=77").is_none());
}

#[test]
fn download_submissions_fields_name_the_assignment() {
    let page = GradePage {
        name: "Sheet 1".to_string(),
        ass_id: "11".to_string(),
        toolbar_form_querypath: "tb".to_string(),
        submissions: vec![],
    };
    let fields = page.download_submissions_fields();
    assert_eq!(fields[0], ("ass_id".to_string(), "11".to_string()));
    assert_eq!(fields[1], ("user_login".to_string(), "".to_string()));
    assert_eq!(fields[2].0, "cmd[downloadSubmissions]");
}

#[test]
fn update_points_fields_carry_each_submission() {
    let page = GradePage {
        name: "Sheet 1".to_string(),
        ass_id: "11".to_string(),
        toolbar_form_querypath: "tb".to_string(),
        submissions: vec![],
    };
    let changed = vec![GradeSubmission {
        identifier: "Team 7".to_string(),
        file_feedback_querypath: "fq".to_string(),
        ilias_id: "usr_31".to_string(),
        points: "9.5".to_string(),
    }];
    let fields = page.update_points_fields(&changed);
    assert_eq!(fields.len(), 17);
    assert_eq!(fields[10], ("selected_cmd".to_string(), "saveStatusSelected".to_string()));
    assert_eq!(fields[13], ("sel_part_ids[]".to_string(), "usr_31".to_string()));
    assert_eq!(fields[14], ("listed_part_ids[]".to_string(), "usr_31".to_string()));
    assert_eq!(fields[15], ("status[usr_31]".to_string(), "notgraded".to_string()));
    assert_eq!(fields[16], ("mark[usr_31]".to_string(), "9.5".to_string()));
}

#[test]
fn feedback_upload_prefers_the_embedded_endpoint() {
    let parts = FeedbackPageParts {
        script: "il.UI.Input.File.init(top, 'a', 'ilias.php?cmd=upload&rid=1', 20);".to_string(),
        modal_action: some("ilias.php?cmd=confirm"),
        toolbar_action: some("ilias.php?cmd=toolbarUpload"),
    };
    let plan = feedback_upload_plan(&parts).unwrap();
    assert_eq!(
        plan,
        FeedbackUploadPlan::Direct {
            upload_querypath: "ilias.php?cmd=upload&rid=1".to_string(),
            form_querypath: "ilias.php?cmd=confirm".to_string(),
        }
    );
}

#[test]
fn feedback_upload_falls_back_to_the_form_variant() {
    let parts = FeedbackPageParts {
        script: "console.log('nothing embedded');".to_string(),
        modal_action: None,
        toolbar_action: some("ilias.php?cmd=toolbarUpload"),
    };
    let plan = feedback_upload_plan(&parts).unwrap();
    assert_eq!(
        plan,
        FeedbackUploadPlan::FormPost { upload_querypath: "ilias.php?cmd=toolbarUpload".to_string() }
    );
    // A direct endpoint without its confirmation form is an error.
    let broken = FeedbackPageParts {
        script: "il.UI.Input.File.init(top, 'a', 'ilias.php?cmd=upload&rid=1', 20);".to_string(),
        modal_action: None,
        toolbar_action: None,
    };
    assert!(feedback_upload_plan(&broken).is_err());
}

#[test]
fn feedback_upload_status() {
    assert!(feedback_upload_accepted(1));
    assert!(!feedback_upload_accepted(0));
    assert!(!feedback_upload_accepted(2));
}
