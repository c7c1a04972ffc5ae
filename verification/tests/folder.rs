use ilias_client::datetime::DateTime;
use ilias_client::folder::{
    find_deletion_href, finish_upload_fields, Folder, FolderElement, FolderParts, ListingEntry,
};
use scraper::Html;

fn today() -> DateTime {
    DateTime { year: 2024, month: 1, day: 15, hour: 12, minute: 0 }
}

fn entry(link: &str, properties: Vec<&str>) -> ListingEntry {
    ListingEntry {
        name: "Entry".to_string(),
        description: "desc".to_string(),
        link: link.to_string(),
        properties: properties.into_iter().map(str::to_string).collect(),
    }
}

/// The four recognized address shapes classify, in order, as file,
/// plugin-forward activity, generic viewable and exercise.
#[test]
fn classification_covers_the_four_variants_in_order() {
    let file = FolderElement::parse(
        &entry("https://host/goto.php?target=file_55", vec!["pdf", "12. Mär 2024, 13:30"]),
        None,
        &today(),
    )
    .unwrap();
    assert!(matches!(file, FolderElement::File { .. }));

    let opencast = FolderElement::parse(
        &entry(
            "https://host/ilias.php?baseClass=ilObjPluginDispatchGUI&cmd=forward&forwardCmd=showContent&ref_id=99",
            vec![],
        ),
        None,
        &today(),
    )
    .unwrap();
    assert!(matches!(opencast, FolderElement::Opencast { .. }));

    let viewable = FolderElement::parse(
        &entry("https://host/ilias.php?baseClass=ilrepositorygui&cmd=view&ref_id=77", vec![]),
        None,
        &today(),
    )
    .unwrap();
    assert!(matches!(viewable, FolderElement::Viewable { .. }));

    let exercise = FolderElement::parse(
        &entry("https://host/ilias.php/exc/480/overview", vec![]),
        None,
        &today(),
    )
    .unwrap();
    assert!(matches!(exercise, FolderElement::Exercise { .. }));
}

/// An entry matching none of the recognized patterns fails the whole folder
/// parse instead of being silently dropped.
#[test]
fn unmatched_entry_fails_the_folder_parse() {
    let entries = vec![
        entry("https://host/goto.php?target=file_55", vec!["pdf", "12. Mär 2024, 13:30"]),
        entry(
            "https://host/ilias.php?baseClass=ilObjPluginDispatchGUI&cmd=forward&forwardCmd=showContent&ref_id=99",
            vec![],
        ),
        entry("https://host/ilias.php?baseClass=ilrepositorygui&cmd=view&ref_id=77", vec![]),
        entry("https://host/ilias.php/exc/480/overview", vec![]),
        entry("https://host/ilias.php?cmd=infoScreen&ref_id=88", vec![]),
    ];
    let parts = FolderParts {
        name: "f".to_string(),
        description: String::new(),
        id: "x".to_string(),
        last_script: String::new(),
        entries,
        upload_page_querypath: None,
    };
    let deletions = vec![None, None, None, None, None];
    assert!(Folder::assemble(&parts, &deletions, &today()).is_err());
}

#[test]
fn file_entry_gets_extension_date_and_id() {
    let el = FolderElement::parse(
        &entry(
            "https://host/goto.php?target=file_55",
            vec![" pdf ", "not a date", "Gestern, 08:30"],
        ),
        Some("del.php?cmd=delete&id=55".to_string()),
        &today(),
    )
    .unwrap();
    match &el {
        FolderElement::File { file, deletion_querypath } => {
            assert_eq!(file.name, "Entry.pdf");
            assert_eq!(file.id.as_deref(), Some("55"));
            assert_eq!(file.download_querypath.as_deref(), Some("/goto.php?target=file_55"));
            let date = file.date.unwrap();
            assert_eq!((date.year, date.month, date.day, date.hour, date.minute), (2024, 1, 14, 8, 30));
            assert_eq!(deletion_querypath.as_deref(), Some("del.php?cmd=delete&id=55"));
        }
        _ => panic!("expected a file element"),
    }
    assert_eq!(el.id(), "55");
    assert_eq!(el.name(), "Entry.pdf");
    assert!(el.file().is_some());
    assert_eq!(el.deletion_querypath().map(String::as_str), Some("del.php?cmd=delete&id=55"));
}

#[test]
fn file_entry_without_date_property_fails() {
    let r = FolderElement::parse(
        &entry("https://host/goto.php?target=file_55", vec!["pdf", "no date here"]),
        None,
        &today(),
    );
    assert!(r.is_err());
}

#[test]
fn viewable_reads_its_id_from_the_ref_id_parameter() {
    let el = FolderElement::parse(
        &entry("https://host/ilias.php?target=file2&baseClass=ilrepositorygui&cmd=view&ref_id=77", vec![]),
        None,
        &today(),
    )
    .unwrap();
    match el {
        FolderElement::Viewable { id, .. } => assert_eq!(id, "77"),
        _ => panic!("expected a viewable element"),
    }
}

/// End to end: a synthetic folder page with two matching listing entries
/// yields a folder with exactly two elements carrying the extracted ids.
#[test]
fn folder_page_parses_end_to_end() {
    let html = "<html><body>\
        <div class=\"breadcrumbs\"><span><a href=\"x\">Home</a></span>\
        <span><a href=\"goto.php/fold/123\">Folder</a></span></div>\
        <h1 class=\"il-page-content-header\"> My Folder </h1>\
        <div class=\"ilHeaderDesc\">All materials</div>\
        <div class=\"ilObjListRow\">\
          <div class=\"il_ContainerItemTitle\"><a href=\"https://host/goto.php?target=file_55\">Sheet</a></div>\
          <div class=\"il_Description\">first</div>\
          <span class=\"il_ItemProperty\">pdf</span>\
          <span class=\"il_ItemProperty\">12. Mär 2024, 13:30</span>\
        </div>\
        <div class=\"ilObjListRow\">\
          <div class=\"il_ContainerItemTitle\"><a href=\"https://host/ilias.php/exc/480/view\">Exercise</a></div>\
          <div class=\"il_Description\">second</div>\
        </div>\
        <script>var menus = 1;</script>\
        </body></html>";
    let page = Html::parse_document(html);
    let parts = Folder::scrape_parts(&page).unwrap();
    assert_eq!(parts.name, "My Folder");
    assert_eq!(parts.description, "All materials");
    assert_eq!(parts.entries.len(), 2);

    let deletions = vec![None, None];
    let folder = Folder::assemble(&parts, &deletions, &today()).unwrap();
    assert_eq!(folder.elements.len(), 2);
    assert_eq!(folder.elements[0].id(), "55");
    assert_eq!(folder.elements[1].id(), "480");
    assert!(matches!(folder.elements[0], FolderElement::File { .. }));
    assert!(matches!(folder.elements[1], FolderElement::Exercise { .. }));
}

#[test]
fn deletion_href_is_the_first_delete_action() {
    let hrefs = vec![
        "a.php?cmd=edit".to_string(),
        "a.php?cmd=delete&ref_id=1".to_string(),
        "b.php?cmd=delete&ref_id=2".to_string(),
    ];
    assert_eq!(find_deletion_href(&hrefs).unwrap(), "a.php?cmd=delete&ref_id=1");
    assert!(find_deletion_href(&vec!["a.php?cmd=edit".to_string()]).is_none());
}

#[test]
fn finish_upload_form_fields() {
    let fields = finish_upload_fields("report.pdf", "file-id-9");
    assert_eq!(fields.len(), 4);
    assert_eq!(fields[0], ("form/input_0[input_1][]".to_string(), "report.pdf".to_string()));
    assert_eq!(fields[1].1, "");
    assert_eq!(fields[2].1, "file-id-9");
    assert_eq!(fields[3], ("form/input_1".to_string(), "7".to_string()));
}

#[test]
fn delete_confirm_fields_carry_the_id() {
    let el = FolderElement::parse(
        &entry("https://host/ilias.php/exc/480/view", vec![]),
        None,
        &today(),
    )
    .unwrap();
    let fields = el.delete_confirm_fields();
    assert_eq!(fields, vec![("form/input_0".to_string(), "480".to_string())]);
}
