use ilias_client::datetime::DateTime;
use ilias_client::exercise::assignment::{
    Assignment, AssignmentDetail, AssignmentItem, AssignmentSubmission, Panel, Property,
    SubmissionRow,
};
use ilias_client::exercise::{Exercise, ExerciseParts};
use ilias_client::file::File;
use scraper::Html;

fn today() -> DateTime {
    DateTime { year: 2024, month: 4, day: 10, hour: 12, minute: 0 }
}

fn prop(key: &str, value: Option<&str>) -> Property {
    Property { key: key.to_string(), value: value.map(str::to_string) }
}

fn item(properties: Vec<Property>) -> AssignmentItem {
    AssignmentItem {
        name: "Sheet 3".to_string(),
        detail_href: "ilias.php?cmd=details&ass_id=3".to_string(),
        properties,
    }
}

fn detail(panels: Vec<Panel>, submission_href: Option<&str>) -> AssignmentDetail {
    AssignmentDetail { panels, submission_href: submission_href.map(str::to_string) }
}

#[test]
fn assignment_assembles_dates_instructions_and_attachments() {
    let properties = vec![
        prop("Startzeit", Some("1. Apr 2024, 08:00")),
        prop("Abgabetermin", Some("15. Apr 2024, 23:59")),
    ];
    let panels = vec![
        Panel {
            title: "Arbeitsanweisung".to_string(),
            body_text: Some("  Solve everything.  ".to_string()),
            rows: vec![],
        },
        Panel {
            title: "Dateien".to_string(),
            body_text: None,
            rows: vec![
                (Some(" sheet3.pdf ".to_string()), Some("goto.php?target=file_9".to_string())),
                (Some("spacer".to_string()), None),
                (None, None),
            ],
        },
    ];
    let a = Assignment::assemble(
        &item(properties),
        &detail(panels, Some("ilias.php?cmd=submission&ass_id=3")),
        &today(),
    )
    .unwrap();
    assert_eq!(a.name, "Sheet 3");
    assert_eq!(a.instructions.as_deref(), Some("Solve everything."));
    let start = a.submission_start_date.unwrap();
    assert_eq!((start.year, start.month, start.day, start.hour), (2024, 4, 1, 8));
    let end = a.submission_end_date.unwrap();
    assert_eq!((end.year, end.month, end.day, end.minute), (2024, 4, 15, 59));
    assert_eq!(a.attachments.len(), 1);
    assert_eq!(a.attachments[0].name, "sheet3.pdf");
    assert_eq!(a.attachments[0].download_querypath.as_deref(), Some("goto.php?target=file_9"));
    assert_eq!(
        a.submission.pending_querypath().map(String::as_str),
        Some("ilias.php?cmd=submission&ass_id=3")
    );
}

#[test]
fn assignment_deadlines_are_optional_and_fall_back() {
    // No deadline properties at all: both dates stay unset.
    let a = Assignment::assemble(&item(vec![]), &detail(vec![], None), &today()).unwrap();
    assert!(a.submission_start_date.is_none());
    assert!(a.submission_end_date.is_none());
    assert!(a.instructions.is_none());
    assert!(a.attachments.is_empty());

    // The ended-on property serves as the end-deadline fallback.
    let a = Assignment::assemble(
        &item(vec![prop("Beendet am", Some("2. Apr 2024, 10:00"))]),
        &detail(vec![], None),
        &today(),
    )
    .unwrap();
    let end = a.submission_end_date.unwrap();
    assert_eq!((end.year, end.month, end.day), (2024, 4, 2));

    // An unparsable end deadline is dropped, not an error.
    let a = Assignment::assemble(
        &item(vec![prop("Edit Until", Some("whenever"))]),
        &detail(vec![], None),
        &today(),
    )
    .unwrap();
    assert!(a.submission_end_date.is_none());
}

#[test]
fn unparsable_start_time_is_an_error() {
    let r = Assignment::assemble(
        &item(vec![prop("Start Time", Some("not a date"))]),
        &detail(vec![], None),
        &today(),
    );
    assert!(r.is_err());
}

#[test]
fn instruction_panel_without_body_is_an_error() {
    let panels = vec![Panel {
        title: "Work Instructions".to_string(),
        body_text: None,
        rows: vec![],
    }];
    assert!(Assignment::assemble(&item(vec![]), &detail(panels, None), &today()).is_err());
}

/// A files panel with an incomplete leading row fails the assembly.
#[test]
fn broken_attachment_row_is_an_error() {
    let panels = vec![Panel {
        title: "Files".to_string(),
        body_text: None,
        rows: vec![(None, None), (Some("x".to_string()), None), (None, None)],
    }];
    assert!(Assignment::assemble(&item(vec![]), &detail(panels, None), &today()).is_err());

    // A files panel without its two trailing rows fails as well.
    let short = vec![Panel {
        title: "Dateien".to_string(),
        body_text: None,
        rows: vec![(Some("x".to_string()), Some("y".to_string()))],
    }];
    assert!(Assignment::assemble(&item(vec![]), &detail(short, None), &today()).is_err());
}

#[test]
fn activity_window_respects_both_deadlines() {
    let a = Assignment::assemble(
        &item(vec![
            prop("Startzeit", Some("1. Apr 2024, 08:00")),
            prop("Abgabetermin", Some("15. Apr 2024, 23:59")),
        ]),
        &detail(vec![], None),
        &today(),
    )
    .unwrap();
    let before = DateTime { year: 2024, month: 3, day: 31, hour: 12, minute: 0 };
    let during = DateTime { year: 2024, month: 4, day: 10, hour: 12, minute: 0 };
    let after = DateTime { year: 2024, month: 4, day: 16, hour: 0, minute: 0 };
    assert!(!a.is_active_at(&before));
    assert!(a.is_active_at(&during));
    assert!(!a.is_active_at(&after));
}

/// The assignment's own clock-based activity check agrees with the window
/// check on any plausible current date.
#[test]
fn activity_against_the_real_clock() {
    let open_window = Assignment::assemble(
        &item(vec![
            prop("Startzeit", Some("1. Apr 1990, 00:00")),
            prop("Abgabetermin", Some("31. Dez 9999, 23:59")),
        ]),
        &detail(vec![], None),
        &today(),
    )
    .unwrap();
    assert!(open_window.is_active());

    let closed_window = Assignment::assemble(
        &item(vec![prop("Abgabetermin", Some("1. Jan 1990, 00:00"))]),
        &detail(vec![], None),
        &today(),
    )
    .unwrap();
    assert!(!closed_window.is_active());
}

#[test]
fn submission_page_rows_become_files() {
    let rows = vec![SubmissionRow {
        file_id: Some("710".to_string()),
        name: Some("upload.pdf".to_string()),
        date_texts: vec!["junk".to_string(), "5. Apr 2024, 17:20".to_string()],
        download_href: Some("ilias.php?cmd=download&id=710".to_string()),
    }];
    let s = AssignmentSubmission::assemble(
        &rows,
        "ilias.php?cmd=delete".to_string(),
        "ilias.php?cmd=upload".to_string(),
        &today(),
    )
    .unwrap();
    assert_eq!(s.submissions.len(), 1);
    let f = &s.submissions[0];
    assert_eq!(f.id.as_deref(), Some("710"));
    assert_eq!(f.name, "upload.pdf");
    let d = f.date.unwrap();
    assert_eq!((d.year, d.month, d.day, d.hour, d.minute), (2024, 4, 5, 17, 20));
    assert_eq!(s.delete_querypath, "ilias.php?cmd=delete");
    assert_eq!(s.upload_querypath, "ilias.php?cmd=upload");
}

#[test]
fn submission_row_without_date_is_an_error() {
    let rows = vec![SubmissionRow {
        file_id: Some("710".to_string()),
        name: Some("upload.pdf".to_string()),
        date_texts: vec!["junk".to_string()],
        download_href: Some("d".to_string()),
    }];
    assert!(AssignmentSubmission::assemble(&rows, "d".to_string(), "u".to_string(), &today())
        .is_err());
}

#[test]
fn delete_files_fields_list_every_id() {
    let files = vec![
        File {
            name: "a".to_string(),
            description: String::new(),
            date: None,
            id: Some("1".to_string()),
            download_querypath: None,
        },
        File {
            name: "b".to_string(),
            description: String::new(),
            date: None,
            id: Some("2".to_string()),
            download_querypath: None,
        },
    ];
    let fields = AssignmentSubmission::delete_files_fields(&files).unwrap();
    assert_eq!(fields.len(), 3);
    assert_eq!(fields[0], ("delivered[]".to_string(), "1".to_string()));
    assert_eq!(fields[1], ("delivered[]".to_string(), "2".to_string()));
    assert_eq!(fields[2], ("cmd[deleteDelivered]".to_string(), "Löschen".to_string()));

    let unnamed = vec![File {
        name: "a".to_string(),
        description: String::new(),
        date: None,
        id: None,
        download_querypath: None,
    }];
    assert!(AssignmentSubmission::delete_files_fields(&unnamed).is_err());
}

#[test]
fn exercise_assembles_with_a_grades_reference() {
    let parts = ExerciseParts {
        name: "Programming".to_string(),
        description: "weekly sheets".to_string(),
        grades_href: Some("ilias.php?cmd=members&x=1&ref_id=123&extra=9".to_string()),
    };
    let ex = Exercise::assemble(&parts, vec![]).unwrap();
    assert_eq!(ex.name, "Programming");
    assert_eq!(
        ex.grades.pending_querypath().map(String::as_str),
        Some("ilias.php?cmd=members&x=1&ref_id=123")
    );

    let no_tab = ExerciseParts {
        name: "n".to_string(),
        description: String::new(),
        grades_href: None,
    };
    let ex = Exercise::assemble(&no_tab, vec![]).unwrap();
    assert!(ex.grades.pending_querypath().is_none());
    assert!(ex.grades.try_get_resolved().is_none());

    let bad = ExerciseParts {
        name: "n".to_string(),
        description: String::new(),
        grades_href: Some("ilias.php?cmd=members".to_string()),
    };
    assert!(Exercise::assemble(&bad, vec![]).is_err());
}

#[test]
fn exercise_page_scrapes_its_parts() {
    let html = "<html><body>\
        <h1 class=\"il-page-content-header\">Programming</h1>\
        <div class=\"ilHeaderDesc\">weekly sheets</div>\
        <div id=\"tab_grades\"><a href=\"ilias.php?cmd=members&ref_id=123&ass_id=0\">Grades</a></div>\
        <div id=\"ilContentContainer\">\
          <div class=\"il-item\"><div class=\"il-item-title\"><a href=\"ilias.php?d=1\">Sheet 1</a></div></div>\
          <div class=\"il-item\"><div class=\"il-item-title\"><a href=\"ilias.php?d=2\">Sheet 2</a></div></div>\
        </div>\
        </body></html>";
    let page = Html::parse_document(html);
    let parts = Exercise::scrape_parts(&page).unwrap();
    assert_eq!(parts.name, "Programming");
    assert_eq!(parts.grades_href.as_deref(), Some("ilias.php?cmd=members&ref_id=123&ass_id=0"));
    let items = Exercise::scrape_assignment_items(&page).unwrap();
    assert_eq!(items.len(), 2);
    let first = Assignment::scrape_item(&items[0]).unwrap();
    assert_eq!(first.name, "Sheet 1");
    assert_eq!(first.detail_href, "ilias.php?d=1");
}
