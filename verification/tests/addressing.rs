use ilias_client::addressing::{
    base_grades_querypath, extract_actions_querypath, extract_file_upload_querypath,
    extract_from_url_param, extract_id, extract_submission_upload_querypath, find_marker_id,
    host_of, join_querypath, querypath_of_url, split_querypath,
};
use ilias_client::IliasElement;

#[test]
fn extract_id_ref_id() {
    assert_eq!(extract_id("ilias.php?cmd=view&ref_id=123&x=1").unwrap(), "123");
}

#[test]
fn extract_id_target_file() {
    assert_eq!(extract_id("goto.php?target=file_5564").unwrap(), "5564");
}

#[test]
fn extract_id_exercise_path() {
    assert_eq!(extract_id("ilias.php/exc/480/submissions").unwrap(), "480");
}

#[test]
fn extract_id_first_position_wins() {
    // `target=file_` appears before `ref_id=`, so its id wins.
    assert_eq!(extract_id("a.php?target=file_7&ref_id=9").unwrap(), "7");
}

#[test]
fn extract_id_marker_order_at_same_position() {
    // At the same position, markers are tried in their fixed order.
    assert_eq!(extract_id("x ref_id=31 fold/77").unwrap(), "31");
}

#[test]
fn extract_id_requires_digits() {
    // A marker without a following digit is no hit.
    let err = extract_id("a.php?ref_id=abc").unwrap_err();
    assert_eq!(err.querypath, "a.php?ref_id=abc");
}

#[test]
fn extract_id_nothing_matches() {
    assert!(extract_id("ilias.php?cmd=view").is_err());
}

#[test]
fn folder_address_round_trip() {
    // Root folder id 123 yields the canonical folder address, and id
    // extraction recovers the id from it.
    let addr = <ilias_client::folder::Folder as IliasElement>::querypath_from_id("123").unwrap();
    assert_eq!(addr, "goto.php/fold/123");
    assert_eq!(extract_id(&addr).unwrap(), "123");
}

#[test]
fn exercise_address_round_trip() {
    let addr =
        <ilias_client::exercise::Exercise as IliasElement>::querypath_from_id("480").unwrap();
    assert_eq!(addr, "goto.php?target=exc_480&client_id=produktiv");
    assert_eq!(extract_id(&addr).unwrap(), "480");
}

#[test]
fn assignment_and_grade_page_have_no_direct_address() {
    assert!(<ilias_client::exercise::assignment::Assignment as IliasElement>::querypath_from_id(
        "1"
    )
    .is_none());
    assert!(<ilias_client::exercise::grades::GradePage as IliasElement>::querypath_from_id("1")
        .is_none());
}

#[test]
fn type_identifiers() {
    assert_eq!(<ilias_client::folder::Folder as IliasElement>::type_identifier(), Some("fold"));
    assert_eq!(<ilias_client::exercise::Exercise as IliasElement>::type_identifier(), Some("exc"));
    assert_eq!(
        <ilias_client::exercise::assignment::Assignment as IliasElement>::type_identifier(),
        Some("ass")
    );
    assert_eq!(
        <ilias_client::exercise::grades::GradePage as IliasElement>::type_identifier(),
        None
    );
}

#[test]
fn host_of_absolute_url() {
    assert_eq!(host_of("https://ilias.studium.kit.edu/goto.php").unwrap(), "ilias.studium.kit.edu");
    assert_eq!(host_of("https://idp.scc.kit.edu:443/idp?x=1").unwrap(), "idp.scc.kit.edu");
    assert!(host_of("no-scheme/path").is_none());
}

#[test]
fn querypath_of_url_extracts_path_and_query() {
    assert_eq!(
        querypath_of_url("https://host.example/ilias.php?a=1&b=2").unwrap(),
        "/ilias.php?a=1&b=2"
    );
    assert_eq!(querypath_of_url("https://host.example/plain").unwrap(), "/plain?");
    assert_eq!(querypath_of_url("https://host.example/p?q=1#frag").unwrap(), "/p?q=1");
    assert!(querypath_of_url("not-absolute").is_err());
}

#[test]
fn split_and_join_querypath() {
    let (path, query) = split_querypath("goto.php?target=file_1");
    assert_eq!(path, "goto.php");
    assert_eq!(query.as_deref(), Some("target=file_1"));
    let (path, query) = split_querypath("plain/path");
    assert_eq!(path, "plain/path");
    assert!(query.is_none());
    assert_eq!(join_querypath("goto.php", "a=1"), "goto.php?a=1");
}

#[test]
fn find_marker_id_first_hit() {
    assert_eq!(find_marker_id("x ref_id=nope ref_id=44&ref_id=55", "ref_id=").unwrap(), "44");
    assert!(find_marker_id("no marker here", "ref_id=").is_none());
}

#[test]
fn base_grades_querypath_truncates_after_last_ref_id() {
    assert_eq!(
        base_grades_querypath("ilias.php?ref_id=3&cmd=grades&ref_id=123&ass_id=9").unwrap(),
        "ilias.php?ref_id=3&cmd=grades&ref_id=123"
    );
    assert!(base_grades_querypath("ilias.php?cmd=grades").is_none());
}

#[test]
fn actions_querypath_out_of_listing_script() {
    let script = "init(); $(\"#ilAdvSelListAnchorText_act_55_pref_1\").click(function(ev) {\n\
                  il.Util.ajaxReplaceInner('ilias.php?cmd=menu&ref_id=55', 'ilAdvSelListTable_act_55');\n\
                  });";
    assert_eq!(
        extract_actions_querypath(script, "55").unwrap(),
        "ilias.php?cmd=menu&ref_id=55"
    );
    // The id must match on both sides of the binding.
    assert!(extract_actions_querypath(script, "56").is_none());
}

#[test]
fn file_upload_querypath_out_of_init_script() {
    let script = "$(function() { il.UI.Input.File.init(top, 'block', 'ilias.php?cmd=upload&x=1', 20); });";
    assert_eq!(extract_file_upload_querypath(script).unwrap(), "ilias.php?cmd=upload&x=1");
    assert!(extract_file_upload_querypath("nothing here").is_none());
}

#[test]
fn submission_upload_querypath_out_of_page_script() {
    let script = "var x = foo('ilias.php?baseClass=ilExSubmissionGUI&cmd=upload&id=5');";
    assert_eq!(
        extract_submission_upload_querypath(script).unwrap(),
        "ilias.php?baseClass=ilExSubmissionGUI&cmd=upload&id=5"
    );
    // An endpoint without the upload command is rejected.
    let other = "var x = foo('ilias.php?baseClass=ilExSubmissionGUI&cmd=view&id=5');";
    assert!(extract_submission_upload_querypath(other).is_none());
}

#[test]
fn from_url_parameter() {
    assert_eq!(extract_from_url_param("a?from_url=QUJD&x=1").unwrap(), "QUJD");
    // The parameter must be delimited by a following ampersand.
    assert!(extract_from_url_param("a?from_url=QUJD").is_none());
    assert!(extract_from_url_param("a?other=1").is_none());
}
