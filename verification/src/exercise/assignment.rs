//! Assignments and their submission facet.
//!
//! An assignment's listing item names its deadlines; its detail page carries
//! the work instructions and attachments and links to the submission page,
//! which is only fetched when asked for.

use vstd::prelude::*;

use crate::datetime::{dt_le, parse_date, parse_date_spec, DateTime};
use crate::error::ParseError;
use crate::file::File;
use crate::reference::Reference;
use crate::scrape::{
    child_elements, element_attr, element_text, first_attr, first_in, first_text, document_root,
    select_in,
};
use crate::text::{str_eq, trim_seq, trim_str};
use crate::IliasElement;

verus! {

/// An assignment: its attributes from the listing and detail pages, and a
/// reference to its submission facet.
#[derive(Debug)]
pub struct Assignment {
    pub name: String,
    pub instructions: Option<String>,
    pub submission_start_date: Option<DateTime>,
    pub submission_end_date: Option<DateTime>,
    pub attachments: Vec<File>,
    pub submission: Reference<AssignmentSubmission>,
}

/// One property field of an assignment's listing item: its label and, when
/// the platform rendered one, its value.
#[derive(Debug, Clone)]
pub struct Property {
    pub key: String,
    pub value: Option<String>,
}

/// What an assignment's listing item shows, as plain values.
#[derive(Debug, Clone)]
pub struct AssignmentItem {
    pub name: String,
    pub detail_href: String,
    pub properties: Vec<Property>,
}

/// One titled panel of an assignment's detail page: its heading, the nested
/// body text when the panel has one, and its rows (first column text and
/// nested link address).
#[derive(Debug, Clone)]
pub struct Panel {
    pub title: String,
    pub body_text: Option<String>,
    pub rows: Vec<(Option<String>, Option<String>)>,
}

/// What an assignment's detail page shows, as plain values.
#[derive(Debug, Clone)]
pub struct AssignmentDetail {
    pub panels: Vec<Panel>,
    pub submission_href: Option<String>,
}

/// First property whose key is one of `keys`: `-1` when none matches.
pub open spec fn first_key_index(props: Seq<Property>, keys: Seq<Seq<char>>, from: int) -> int
    decreases props.len() - from,
{
    if from < 0 || from >= props.len() {
        -1
    } else if keys.contains(props[from].key@) {
        from
    } else {
        first_key_index(props, keys, from + 1)
    }
}

/// The value the properties carry under the first of `keys` that occurs:
/// `None` when no key occurs, `Some(None)` when the property has no value.
pub open spec fn value_for_keys_spec(props: Seq<Property>, keys: Seq<Seq<char>>) -> Option<
    Option<String>,
> {
    let i = first_key_index(props, keys, 0);
    if i < 0 {
        None
    } else {
        Some(props[i].value)
    }
}

/// First panel whose title is `t1` or `t2`: `-1` when none matches.
pub open spec fn first_panel_index(
    panels: Seq<Panel>,
    t1: Seq<char>,
    t2: Seq<char>,
    from: int,
) -> int
    decreases panels.len() - from,
{
    if from < 0 || from >= panels.len() {
        -1
    } else if panels[from].title@ == t1 || panels[from].title@ == t2 {
        from
    } else {
        first_panel_index(panels, t1, t2, from + 1)
    }
}

/// First panel whose title is `t1` or `t2`.
fn find_panel<'a>(panels: &'a Vec<Panel>, t1: &str, t2: &str) -> (r: Option<&'a Panel>)
    ensures
        ({
            let i = first_panel_index(panels@, t1@, t2@, 0);
            match r {
                Some(p) => 0 <= i < panels@.len() && *p == panels@[i],
                None => i == -1,
            }
        }),
{
    let mut j: usize = 0;
    while j < panels.len()
        invariant
            j <= panels@.len(),
            first_panel_index(panels@, t1@, t2@, 0) == first_panel_index(
                panels@,
                t1@,
                t2@,
                j as int,
            ),
        decreases panels@.len() - j,
    {
        if str_eq(panels[j].title.as_str(), t1) || str_eq(panels[j].title.as_str(), t2) {
            return Some(&panels[j]);
        }
        j += 1;
    }
    None
}

impl IliasElement for Assignment {
    fn type_identifier() -> (r: Option<&'static str>)
        ensures
            r matches Some(t) && t@ == "ass"@,
    {
        Some("ass")
    }

    /// Assignments cannot be addressed directly; they are only reachable
    /// through their exercise.
    fn querypath_from_id(id: &str) -> (r: Option<String>)
        ensures
            r is None,
    {
        None
    }
}

impl Assignment {
    /// The value of the first property labelled with one of `keys`. A label
    /// match without a value is an error, as is the absence of every label.
    pub fn get_value_for_keys(properties: &Vec<Property>, keys: &[&str]) -> (r: Result<
        String,
        ParseError,
    >)
        ensures
            ({
                let spec_keys = keys@.map_values(|k: &str| k@);
                match r {
                    Ok(v) => value_for_keys_spec(properties@, spec_keys) matches Some(vv)
                        && vv == Some(v),
                    Err(_) => value_for_keys_spec(properties@, spec_keys) is None
                        || value_for_keys_spec(properties@, spec_keys) == Some(
                        Option::<String>::None,
                    ),
                }
            }),
    {
        let ghost spec_keys = keys@.map_values(|k: &str| k@);
        let mut i: usize = 0;
        while i < properties.len()
            invariant
                spec_keys == keys@.map_values(|k: &str| k@),
                i <= properties@.len(),
                first_key_index(properties@, spec_keys, 0) == first_key_index(
                    properties@,
                    spec_keys,
                    i as int,
                ),
            decreases properties@.len() - i,
        {
            let mut k: usize = 0;
            let mut hit = false;
            while k < keys.len()
                invariant
                    spec_keys == keys@.map_values(|k2: &str| k2@),
                    k <= keys@.len(),
                    i < properties@.len(),
                    hit == exists|k2: int|
                        0 <= k2 < k && spec_keys[k2] == properties@[i as int].key@,
                decreases keys@.len() - k,
            {
                if str_eq(properties[i].key.as_str(), keys[k]) {
                    hit = true;
                    proof {
                        assert(spec_keys[k as int] == properties@[i as int].key@);
                    }
                }
                k += 1;
            }
            if hit {
                proof {
                    assert(spec_keys.contains(properties@[i as int].key@));
                    assert(first_key_index(properties@, spec_keys, i as int) == i as int);
                }
                return match &properties[i].value {
                    Some(v) => Ok(v.clone()),
                    None => Err(ParseError::new("a value on the matched property")),
                };
            }
            proof {
                let key = properties@[i as int].key@;
                assert(!spec_keys.contains(key)) by {
                    if spec_keys.contains(key) {
                        let k2 = choose|k2: int|
                            0 <= k2 < spec_keys.len() && spec_keys[k2] == key;
                        assert(exists|k3: int| 0 <= k3 < keys@.len() && spec_keys[k3] == key);
                    }
                }
            }
            i += 1;
        }
        Err(ParseError::new("a property with one of the expected labels"))
    }

    /// Read an assignment's listing item into plain values.
    pub fn scrape_item(el: &scraper::ElementRef<'_>) -> (r: Result<AssignmentItem, ParseError>) {
        let title = match first_in(el, ".il-item-title > a")? {
            Some(t) => t,
            None => {
                return Err(ParseError::new("the assignment's title link"));
            },
        };
        let name = element_text(&title);
        let detail_href = match element_attr(&title, "href") {
            Some(h) => h,
            None => {
                return Err(ParseError::new("an address on the assignment's title link"));
            },
        };
        let rows = select_in(el, ".il-multi-line-cap-3")?;
        let mut properties: Vec<Property> = Vec::new();
        let mut i: usize = 0;
        while i < rows.len()
            decreases rows.len() - i,
        {
            let key = match first_text(&rows[i], ".il-item-property-name")? {
                Some(k) => k,
                None => {
                    return Err(ParseError::new("a label on the assignment property"));
                },
            };
            let value = first_text(&rows[i], ".il-item-property-value")?;
            properties.push(Property { key, value });
            i += 1;
        }
        Ok(AssignmentItem { name, detail_href, properties })
    }

    /// Read an assignment's detail page into plain values.
    pub fn scrape_detail(page: &scraper::Html) -> (r: Result<AssignmentDetail, ParseError>) {
        let root = document_root(page)?;
        let panel_els = select_in(&root, ".panel.panel-sub")?;
        let mut panels: Vec<Panel> = Vec::new();
        let mut i: usize = 0;
        while i < panel_els.len()
            decreases panel_els.len() - i,
        {
            let title = match first_text(&panel_els[i], "h3")? {
                Some(t) => t,
                None => String::new(),
            };
            let body_text = Self::scrape_panel_body(&panel_els[i])?;
            let row_els = select_in(&panel_els[i], ".row")?;
            let mut rows: Vec<(Option<String>, Option<String>)> = Vec::new();
            let mut j: usize = 0;
            while j < row_els.len()
                decreases row_els.len() - j,
            {
                rows.push(Self::scrape_attachment_row(&row_els[j]));
                j += 1;
            }
            panels.push(Panel { title, body_text, rows });
            i += 1;
        }
        let submission_href = first_attr(&root, "#tab_submission > a", "href")?;
        Ok(AssignmentDetail { panels, submission_href })
    }

    /// The text nested two element levels under a panel's body, when present.
    fn scrape_panel_body(panel: &scraper::ElementRef<'_>) -> (r: Result<
        Option<String>,
        ParseError,
    >) {
        let body = match first_in(panel, ".panel-body")? {
            Some(b) => b,
            None => {
                return Ok(None);
            },
        };
        let level1 = child_elements(&body);
        if level1.len() == 0 {
            return Ok(None);
        }
        let level2 = child_elements(&level1[0]);
        if level2.len() == 0 {
            return Ok(None);
        }
        Ok(Some(element_text(&level2[0])))
    }

    /// One attachment row: the first column's text and the address nested two
    /// element levels under the second column.
    fn scrape_attachment_row(row: &scraper::ElementRef<'_>) -> (r: (
        Option<String>,
        Option<String>,
    )) {
        let cells = child_elements(row);
        if cells.len() == 0 {
            return (None, None);
        }
        let filename = element_text(&cells[0]);
        if cells.len() < 2 {
            return (Some(filename), None);
        }
        let level1 = child_elements(&cells[1]);
        if level1.len() == 0 {
            return (Some(filename), None);
        }
        let level2 = child_elements(&level1[0]);
        if level2.len() == 0 {
            return (Some(filename), None);
        }
        (Some(filename), element_attr(&level2[0], "href"))
    }

    /// Build an assignment from its listing item and its detail page.
    ///
    /// The start deadline comes from the start-time property and must parse
    /// when present; the end deadline comes from the edit-until property or,
    /// failing that, the ended-on property, and is dropped when unparsable.
    /// Work instructions come from the instruction panel, attachments from
    /// the files panel (all rows but the trailing two), and the submission
    /// facet stays unresolved behind the submission tab's address.
    pub fn assemble(item: &AssignmentItem, detail: &AssignmentDetail, today: &DateTime) -> (r:
        Result<Assignment, ParseError>)
        ensures
            r is Err <==> assignment_unassemblable(item.properties@, detail.panels@, today),
            r matches Ok(a) ==> {
                &&& a.name == item.name
                &&& (match value_for_keys_spec(
                    item.properties@,
                    seq!["Startzeit"@, "Start Time"@],
                ) {
                    None => a.submission_start_date is None,
                    Some(None) => a.submission_start_date is None,
                    Some(Some(v)) => (a.submission_start_date matches Some(d) && parse_date_spec(
                        trim_seq(v@),
                        today,
                    ) == Some(d)),
                })
                &&& a.submission_end_date == end_date_spec(item.properties@, today)
                &&& ({
                    let ip = first_panel_index(
                        detail.panels@,
                        "Arbeitsanweisung"@,
                        "Work Instructions"@,
                        0,
                    );
                    if ip == -1 {
                        a.instructions is None
                    } else {
                        detail.panels@[ip].body_text matches Some(b) && (a.instructions
                            matches Some(t) && t@ == trim_seq(b@))
                    }
                })
                &&& ({
                    let ap = first_panel_index(detail.panels@, "Dateien"@, "Files"@, 0);
                    if ap == -1 {
                        a.attachments@.len() == 0
                    } else {
                        let rows = detail.panels@[ap].rows@;
                        &&& rows.len() >= 2
                        &&& a.attachments@.len() == rows.len() - 2
                        &&& forall|i: int|
                            0 <= i < a.attachments@.len() ==> attachment_file(
                                rows[i],
                                a.attachments@[i],
                            )
                    }
                })
                &&& (match detail.submission_href {
                    None => a.submission is Unavailable,
                    Some(h) => a.submission matches Reference::Unresolved(q) && q == h,
                })
            },
    {
        let start_keys: [&str; 2] = ["Startzeit", "Start Time"];
        proof {
            assert(start_keys@.map_values(|k: &str| k@) =~= seq!["Startzeit"@, "Start Time"@]);
        }
        let submission_start_date = match Self::get_value_for_keys(&item.properties, &start_keys) {
            Ok(v) => {
                let trimmed = trim_str(v.as_str());
                match parse_date(trimmed.as_str(), today) {
                    Ok(d) => Some(d),
                    Err(_) => {
                        return Err(ParseError::new("a parsable start time"));
                    },
                }
            },
            Err(_) => None,
        };
        let end_keys_a: [&str; 2] = ["Abgabetermin", "Edit Until"];
        let end_keys_b: [&str; 2] = ["Beendet am", "Ended On"];
        let end_value = match Self::get_value_for_keys(&item.properties, &end_keys_a) {
            Ok(v) => Some(v),
            Err(_) => match Self::get_value_for_keys(&item.properties, &end_keys_b) {
                Ok(v) => Some(v),
                Err(_) => None,
            },
        };
        let submission_end_date = match end_value {
            Some(v) => {
                let trimmed = trim_str(v.as_str());
                match parse_date(trimmed.as_str(), today) {
                    Ok(d) => Some(d),
                    Err(_) => None,
                }
            },
            None => None,
        };
        proof {
            assert(end_keys_a@.map_values(|k: &str| k@) =~= seq!["Abgabetermin"@, "Edit Until"@]);
            assert(end_keys_b@.map_values(|k: &str| k@) =~= seq!["Beendet am"@, "Ended On"@]);
        }
        let instructions = match find_panel(&detail.panels, "Arbeitsanweisung", "Work Instructions")
             {
            Some(panel) => match &panel.body_text {
                Some(b) => Some(trim_str(b.as_str())),
                None => {
                    return Err(ParseError::new("a body under the instruction panel"));
                },
            },
            None => None,
        };
        let attachments = match find_panel(&detail.panels, "Dateien", "Files") {
            Some(panel) => Self::attachments_of(panel)?,
            None => Vec::new(),
        };
        let submission_href = match &detail.submission_href {
            Some(h) => Some(h.clone()),
            None => None,
        };
        Ok(
            Assignment {
                name: item.name.clone(),
                instructions,
                submission_start_date,
                submission_end_date,
                attachments,
                submission: Reference::from_optional_querypath(submission_href),
            },
        )
    }

    /// The attachments a files panel lists: every row but the trailing two,
    /// each with its file name and download address.
    fn attachments_of(panel: &Panel) -> (r: Result<Vec<File>, ParseError>)
        ensures
            r matches Ok(files) ==> {
                &&& panel.rows@.len() >= 2
                &&& files@.len() == panel.rows@.len() - 2
                &&& forall|i: int|
                    0 <= i < files@.len() ==> attachment_file(panel.rows@[i], files@[i])
            },
            r is Err <==> (panel.rows@.len() < 2 || exists|i: int|
                0 <= i < panel.rows@.len() - 2 && attachment_row_broken(
                    #[trigger] panel.rows@[i],
                )),
    {
        if panel.rows.len() < 2 {
            return Err(ParseError::new("the files panel's trailing rows"));
        }
        let n = panel.rows.len() - 2;
        let mut files: Vec<File> = Vec::new();
        let mut i: usize = 0;
        while i < n
            invariant
                n == panel.rows@.len() - 2,
                i <= n,
                files@.len() == i,
                forall|j: int| 0 <= j < i ==> attachment_file(panel.rows@[j], files@[j]),
                forall|j: int|
                    0 <= j < i ==> !attachment_row_broken(#[trigger] panel.rows@[j]),
            decreases n - i,
        {
            let (name, href) = &panel.rows[i];
            let name = match name {
                Some(nm) => trim_str(nm.as_str()),
                None => {
                    proof {
                        assert(attachment_row_broken(panel.rows@[i as int]));
                    }
                    return Err(ParseError::new("a file name on the attachment row"));
                },
            };
            let href = match href {
                Some(h) => h.clone(),
                None => {
                    proof {
                        assert(attachment_row_broken(panel.rows@[i as int]));
                    }
                    return Err(ParseError::new("a download address on the attachment row"));
                },
            };
            files.push(
                File {
                    name,
                    description: "".to_owned(),
                    date: None,
                    id: None,
                    download_querypath: Some(href),
                },
            );
            i += 1;
        }
        Ok(files)
    }

    /// Whether the assignment accepts work right now: `is_active_at` applied
    /// to the clock's current local date and time.
    pub fn is_active(&self) -> bool {
        let now = crate::datetime::now_local();
        self.is_active_at(&now)
    }

    /// Whether the assignment accepts work at the given moment: after the
    /// start deadline (when one is set) and before the end deadline (when one
    /// is set).
    pub fn is_active_at(&self, now: &DateTime) -> (r: bool)
        ensures
            r == ((self.submission_end_date matches Some(e) ==> dt_le(now, &e)) && (
            self.submission_start_date matches Some(s) ==> dt_le(&s, now))),
    {
        let end_ok = match &self.submission_end_date {
            Some(e) => now.le(e),
            None => true,
        };
        let start_ok = match &self.submission_start_date {
            Some(s) => s.le(now),
            None => true,
        };
        end_ok && start_ok
    }
}

/// An attachment row missing its file name or its download address.
pub open spec fn attachment_row_broken(row: (Option<String>, Option<String>)) -> bool {
    row.0 is None || row.1 is None
}

/// What makes an assignment unassemblable from its plain parts: a start-time
/// value whose trimmed text parses as no date, an instruction panel without a
/// body, or a files panel that lacks its two trailing rows or names a leading
/// attachment incompletely. Everything else yields an assignment.
pub open spec fn assignment_unassemblable(
    props: Seq<Property>,
    panels: Seq<Panel>,
    today: &DateTime,
) -> bool {
    ||| (value_for_keys_spec(props, seq!["Startzeit"@, "Start Time"@]) matches Some(Some(v))
        && parse_date_spec(trim_seq(v@), today) is None)
    ||| ({
        let ip = first_panel_index(panels, "Arbeitsanweisung"@, "Work Instructions"@, 0);
        ip >= 0 && panels[ip].body_text is None
    })
    ||| ({
        let ap = first_panel_index(panels, "Dateien"@, "Files"@, 0);
        ap >= 0 && (panels[ap].rows@.len() < 2 || exists|i: int|
            0 <= i < panels[ap].rows@.len() - 2 && attachment_row_broken(
                #[trigger] panels[ap].rows@[i],
            ))
    })
}

/// What an attachment row yields: a file named after the row's trimmed first
/// column, downloadable at the row's nested address.
pub open spec fn attachment_file(row: (Option<String>, Option<String>), f: File) -> bool {
    &&& (row.0 matches Some(n) && f.name@ == trim_seq(n@))
    &&& (row.1 matches Some(h) && f.download_querypath == Some(h))
    &&& f.description@ == ""@
    &&& f.date is None
    &&& f.id is None
}

/// The end deadline the listing properties denote: the edit-until property
/// or, failing that, the ended-on property, parsed as a date; anything else
/// means no end deadline.
pub open spec fn end_date_spec(props: Seq<Property>, today: &DateTime) -> Option<DateTime> {
    let a = value_for_keys_spec(props, seq!["Abgabetermin"@, "Edit Until"@]);
    let b = value_for_keys_spec(props, seq!["Beendet am"@, "Ended On"@]);
    let v = match a {
        Some(Some(v)) => Some(v),
        _ => match b {
            Some(Some(v)) => Some(v),
            _ => None,
        },
    };
    match v {
        None => None,
        Some(v) => parse_date_spec(trim_seq(v@), today),
    }
}

/// A submission facet: the files handed in so far and the endpoints that
/// delete or extend them.
#[derive(Debug)]
pub struct AssignmentSubmission {
    pub submissions: Vec<File>,
    pub delete_querypath: String,
    pub upload_querypath: String,
}

/// One row of the submission page's file table, as plain values.
#[derive(Debug, Clone)]
pub struct SubmissionRow {
    pub file_id: Option<String>,
    pub name: Option<String>,
    pub date_texts: Vec<String>,
    pub download_href: Option<String>,
}

/// What a submission page shows, as plain values: the file rows, the form
/// that deletes files, and the address of the upload form page (whose script
/// carries the true upload endpoint).
#[derive(Debug, Clone)]
pub struct SubmissionPageParts {
    pub rows: Vec<SubmissionRow>,
    pub delete_querypath: String,
    pub upload_form_querypath: String,
}

/// Index of the first date text that parses, or the number of texts.
pub open spec fn first_row_date_index(texts: Seq<String>, from: int, today: &DateTime) -> int
    decreases texts.len() - from,
{
    if from < 0 || from >= texts.len() {
        texts.len() as int
    } else if parse_date_spec(texts[from]@, today) is Some {
        from
    } else {
        first_row_date_index(texts, from + 1, today)
    }
}

/// The submitted file a table row denotes.
pub open spec fn row_file(row: &SubmissionRow, today: &DateTime, f: &File) -> bool {
    let di = first_row_date_index(row.date_texts@, 0, today);
    &&& (row.file_id matches Some(id) && f.id == Some(id))
    &&& (row.name matches Some(n) && f.name == n)
    &&& 0 <= di < row.date_texts@.len()
    &&& (parse_date_spec(row.date_texts@[di]@, today) matches Some(d) && f.date == Some(d))
    &&& (row.download_href matches Some(h) && f.download_querypath == Some(h))
    &&& f.description@ == ""@
}

/// A table row that denotes no submitted file: a column is missing or no
/// column parses as the submission date.
pub open spec fn row_unparsable(row: &SubmissionRow, today: &DateTime) -> bool {
    ||| row.file_id is None
    ||| row.name is None
    ||| row.download_href is None
    ||| first_row_date_index(row.date_texts@, 0, today) >= row.date_texts@.len()
}

impl AssignmentSubmission {
    /// Read a submission page into plain values. Rows with a single column
    /// are spacers and are skipped; real rows carry the selection checkbox,
    /// the file name, date columns and a trailing download column.
    pub fn scrape_page(page: &scraper::Html) -> (r: Result<SubmissionPageParts, ParseError>) {
        let root = document_root(page)?;
        let row_els = select_in(&root, "#ilContentContainer form tbody tr")?;
        let mut rows: Vec<SubmissionRow> = Vec::new();
        let mut i: usize = 0;
        while i < row_els.len()
            decreases row_els.len() - i,
        {
            let cells = child_elements(&row_els[i]);
            if cells.len() > 1 {
                let file_id = if cells.len() >= 1 {
                    let boxes = child_elements(&cells[0]);
                    if boxes.len() >= 1 {
                        element_attr(&boxes[0], "value")
                    } else {
                        None
                    }
                } else {
                    None
                };
                let name = if cells.len() >= 2 {
                    Some(element_text(&cells[1]))
                } else {
                    None
                };
                let mut date_texts: Vec<String> = Vec::new();
                let mut j: usize = 2;
                while j < cells.len() - 1
                    invariant
                        2 <= j,
                        cells@.len() > 1,
                        j <= cells@.len(),
                    decreases cells.len() - j,
                {
                    date_texts.push(element_text(&cells[j]));
                    j += 1;
                }
                let download_href = if cells.len() >= 4 {
                    let links = child_elements(&cells[cells.len() - 1]);
                    if links.len() >= 1 {
                        element_attr(&links[0], "href")
                    } else {
                        None
                    }
                } else {
                    None
                };
                rows.push(SubmissionRow { file_id, name, date_texts, download_href });
            }
            i += 1;
        }
        let delete_querypath = match first_attr(&root, "div#ilContentContainer form", "action")? {
            Some(a) => a,
            None => {
                return Err(ParseError::new("the deletion form on the submission page"));
            },
        };
        let upload_form_querypath = match first_attr(&root, ".navbar-form button", "data-action")? {
            Some(a) => a,
            None => {
                return Err(ParseError::new("the upload button on the submission page"));
            },
        };
        Ok(SubmissionPageParts { rows, delete_querypath, upload_form_querypath })
    }

    /// Build the submission facet from the page's rows and endpoints. The
    /// upload endpoint is the one embedded in the upload form page's script;
    /// the caller fetches that page and extracts the endpoint beforehand.
    pub fn assemble(
        rows: &Vec<SubmissionRow>,
        delete_querypath: String,
        upload_querypath: String,
        today: &DateTime,
    ) -> (r: Result<AssignmentSubmission, ParseError>)
        ensures
            match r {
                Ok(s) => {
                    &&& s.delete_querypath == delete_querypath
                    &&& s.upload_querypath == upload_querypath
                    &&& s.submissions@.len() == rows@.len()
                    &&& forall|i: int|
                        0 <= i < rows@.len() ==> row_file(&rows@[i], today, &s.submissions@[i])
                },
                Err(_) => exists|i: int| 0 <= i < rows@.len() && row_unparsable(&rows@[i], today),
            },
    {
        let mut submissions: Vec<File> = Vec::new();
        let mut i: usize = 0;
        while i < rows.len()
            invariant
                i <= rows@.len(),
                submissions@.len() == i,
                forall|j: int|
                    0 <= j < i ==> row_file(&rows@[j], today, &submissions@[j]),
            decreases rows@.len() - i,
        {
            let row = &rows[i];
            let id = match &row.file_id {
                Some(id) => id.clone(),
                None => {
                    return Err(ParseError::new("a checkbox value naming the file id"));
                },
            };
            let name = match &row.name {
                Some(n) => n.clone(),
                None => {
                    return Err(ParseError::new("a file name column"));
                },
            };
            let date = match first_row_date(&row.date_texts, today) {
                Some(d) => d,
                None => {
                    return Err(ParseError::new("a date column of the submission row"));
                },
            };
            let href = match &row.download_href {
                Some(h) => h.clone(),
                None => {
                    return Err(ParseError::new("a download link on the submission row"));
                },
            };
            submissions.push(
                File {
                    name,
                    description: "".to_owned(),
                    date: Some(date),
                    id: Some(id),
                    download_querypath: Some(href),
                },
            );
            i += 1;
        }
        Ok(AssignmentSubmission { submissions, delete_querypath, upload_querypath })
    }

    /// The fields that delete the given already-submitted files.
    pub fn delete_files_fields(files: &Vec<File>) -> (r: Result<Vec<(String, String)>, ParseError>)
        ensures
            match r {
                Ok(fields) => {
                    &&& fields@.len() == files@.len() + 1
                    &&& forall|i: int|
                        0 <= i < files@.len() ==> fields@[i].0@ == "delivered[]"@ && (
                        files@[i].id matches Some(id) && fields@[i].1 == id)
                    &&& fields@[files@.len() as int].0@ == "cmd[deleteDelivered]"@
                    &&& fields@[files@.len() as int].1@ == "Löschen"@
                },
                Err(_) => exists|i: int| 0 <= i < files@.len() && files@[i].id is None,
            },
    {
        let mut fields: Vec<(String, String)> = Vec::new();
        let mut i: usize = 0;
        while i < files.len()
            invariant
                i <= files@.len(),
                fields@.len() == i,
                forall|j: int|
                    0 <= j < i ==> fields@[j].0@ == "delivered[]"@ && (files@[j].id matches Some(
                        id,
                    ) && fields@[j].1 == id),
            decreases files@.len() - i,
        {
            let id = match &files[i].id {
                Some(id) => id.clone(),
                None => {
                    return Err(ParseError::new("an id on the file to delete"));
                },
            };
            fields.push(("delivered[]".to_owned(), id));
            i += 1;
        }
        fields.push(("cmd[deleteDelivered]".to_owned(), "Löschen".to_owned()));
        Ok(fields)
    }
}

/// The first date text that parses as a date.
fn first_row_date(texts: &Vec<String>, today: &DateTime) -> (r: Option<DateTime>)
    ensures
        match r {
            Some(dt) => ({
                let di = first_row_date_index(texts@, 0, today);
                0 <= di < texts@.len() && parse_date_spec(texts@[di]@, today) == Some(dt)
            }),
            None => first_row_date_index(texts@, 0, today) >= texts@.len(),
        },
{
    let mut j: usize = 0;
    while j < texts.len()
        invariant
            j <= texts@.len(),
            first_row_date_index(texts@, 0, today) == first_row_date_index(texts@, j as int, today),
        decreases texts@.len() - j,
    {
        match parse_date(texts[j].as_str(), today) {
            Ok(d) => {
                return Some(d);
            },
            Err(_) => {
                j += 1;
            },
        }
    }
    None
}

} // verus!
