//! Folders and the elements listed in them.
//!
//! A folder listing yields one element per entry; the element's kind is
//! decided purely by matching structural patterns in its resolved query path,
//! as an ordered, first-match decision list. An entry matching none of the
//! patterns fails the whole folder parse: elements are never silently
//! dropped, because a silently missing element is a correctness hazard.

use vstd::prelude::*;

use crate::addressing::{
    extract_id, find_marker_id, is_extracted_id, is_marker_id, no_extractable_id, no_marker_id,
    querypath_of_url, querypath_of_url_spec,
};
use crate::datetime::{parse_date, parse_date_spec, DateTime};
use crate::error::ParseError;
use crate::file::File;
use crate::scrape::{
    all_texts, element_attr, element_text, first_attr, first_in, first_text, select_in,
};
use crate::text::{contains_seq, contains_sub, trim_seq, trim_str};
use crate::IliasElement;

verus! {

/// One element of a folder listing. Every variant carries the deletion
/// endpoint discovered via the listing's action menu, when there is one.
#[derive(Debug, Clone)]
pub enum FolderElement {
    /// A downloadable file.
    File { file: File, deletion_querypath: Option<String> },
    /// An exercise, reached through an exercise path.
    Exercise {
        name: String,
        description: String,
        id: String,
        querypath: String,
        deletion_querypath: Option<String>,
    },
    /// A plugin-forwarded media activity.
    Opencast {
        name: String,
        description: String,
        id: String,
        querypath: String,
        deletion_querypath: Option<String>,
    },
    /// A generic viewable container.
    Viewable {
        name: String,
        description: String,
        id: String,
        querypath: String,
        deletion_querypath: Option<String>,
    },
}

/// A folder: its scraped attributes and one parsed element per listing entry.
#[derive(Debug, Clone)]
pub struct Folder {
    pub name: String,
    pub description: String,
    pub id: String,
    pub elements: Vec<FolderElement>,
    pub upload_page_querypath: Option<String>,
}

/// What the platform answers to a staged file upload.
#[derive(Debug, Clone)]
pub struct IliasUploadResponse {
    pub status: u8,
    pub message: String,
    pub file_id: String,
}

/// What a folder page shows, as plain values: the folder's own attributes,
/// the listing entries, and the trailing inline script that binds action
/// menus to entries.
#[derive(Debug, Clone)]
pub struct FolderParts {
    pub name: String,
    pub description: String,
    pub id: String,
    pub last_script: String,
    pub entries: Vec<ListingEntry>,
    pub upload_page_querypath: Option<String>,
}

/// One listing entry, as plain values: the entry's title, its description,
/// the address its title links to, and the texts of its property fields.
#[derive(Debug, Clone)]
pub struct ListingEntry {
    pub name: String,
    pub description: String,
    pub link: String,
    pub properties: Vec<String>,
}

/// A query path that addresses a downloadable file.
pub open spec fn is_file_address(qp: Seq<char>) -> bool {
    contains_seq(qp, "target=file_"@) || (contains_seq(qp, "baseClass=ilrepositorygui"@)
        && contains_seq(qp, "cmd=sendfile"@))
}

/// A query path that forwards into the media plugin.
pub open spec fn is_opencast_address(qp: Seq<char>) -> bool {
    &&& contains_seq(qp, "baseClass=ilObjPluginDispatchGUI"@)
    &&& contains_seq(qp, "cmd=forward"@)
    &&& contains_seq(qp, "forwardCmd=showContent"@)
}

/// A query path that views a generic container.
pub open spec fn is_viewable_address(qp: Seq<char>) -> bool {
    contains_seq(qp, "baseClass=ilrepositorygui"@) && contains_seq(qp, "cmd=view"@)
}

/// A query path that leads into an exercise.
pub open spec fn is_exercise_address(qp: Seq<char>) -> bool {
    contains_seq(qp, "/exc/"@)
}

/// Index of the first property at or after `from` that parses as a date, or
/// the number of properties when none does.
pub open spec fn first_date_index(props: Seq<String>, from: int, today: &DateTime) -> int
    decreases props.len() - from,
{
    if from < 0 || from >= props.len() {
        props.len() as int
    } else if parse_date_spec(props[from]@, today) is Some {
        from
    } else {
        first_date_index(props, from + 1, today)
    }
}

/// The element that a listing entry with resolved query path `qp` and
/// extracted id `id` yields, decided first-match in this order: file address,
/// plugin-forward address, generic-view address, exercise address.
pub open spec fn parsed_element_with(
    entry: &ListingEntry,
    deletion: Option<String>,
    today: &DateTime,
    qp: Seq<char>,
    id: Seq<char>,
    el: &FolderElement,
) -> bool {
    if is_file_address(qp) {
        let props = entry.properties@;
        let di = first_date_index(props, 1, today);
        &&& props.len() >= 1
        &&& 1 <= di < props.len()
        &&& (el matches FolderElement::File { file, deletion_querypath } && {
            &&& deletion_querypath == deletion
            &&& file.description@ == entry.description@
            &&& (file.id matches Some(fid) && fid@ == id)
            &&& (file.download_querypath matches Some(d) && d@ == qp)
            &&& (parse_date_spec(props[di]@, today) matches Some(dt) && file.date == Some(dt))
            &&& file.name@ == (if trim_seq(props[0]@).len() == 0 {
                entry.name@
            } else {
                entry.name@ + "."@ + trim_seq(props[0]@)
            })
        })
    } else if is_opencast_address(qp) {
        el matches FolderElement::Opencast {
            name,
            description,
            id: eid,
            querypath,
            deletion_querypath,
        } && {
            &&& name == entry.name
            &&& description == entry.description
            &&& eid@ == id
            &&& querypath@ == qp
            &&& deletion_querypath == deletion
        }
    } else if is_viewable_address(qp) {
        el matches FolderElement::Viewable {
            name,
            description,
            id: eid,
            querypath,
            deletion_querypath,
        } && {
            &&& name == entry.name
            &&& description == entry.description
            &&& is_marker_id(qp, "ref_id="@, eid@)
            &&& querypath@ == qp
            &&& deletion_querypath == deletion
        }
    } else if is_exercise_address(qp) {
        el matches FolderElement::Exercise {
            name,
            description,
            id: eid,
            querypath,
            deletion_querypath,
        } && {
            &&& name == entry.name
            &&& description == entry.description
            &&& eid@ == id
            &&& querypath@ == qp
            &&& deletion_querypath == deletion
        }
    } else {
        false
    }
}

/// The element a listing entry yields.
pub open spec fn parsed_element(
    entry: &ListingEntry,
    deletion: Option<String>,
    today: &DateTime,
    el: &FolderElement,
) -> bool {
    match querypath_of_url_spec(entry.link@) {
        None => false,
        Some(qp) => exists|id: Seq<char>|
            #[trigger] is_extracted_id(qp, id) && parsed_element_with(
                entry,
                deletion,
                today,
                qp,
                id,
                el,
            ),
    }
}

/// A listing entry that yields no element: its link resolves to no query
/// path, carries no extractable id, matches no recognized pattern, or (for a
/// file) lacks the expected extension and date properties.
pub open spec fn element_unparsable(entry: &ListingEntry, today: &DateTime) -> bool {
    match querypath_of_url_spec(entry.link@) {
        None => true,
        Some(qp) => {
            ||| no_extractable_id(qp)
            ||| (is_file_address(qp) && (entry.properties@.len() < 1 || first_date_index(
                entry.properties@,
                1,
                today,
            ) >= entry.properties@.len()))
            ||| (!is_file_address(qp) && !is_opencast_address(qp) && is_viewable_address(qp)
                && no_marker_id(qp, "ref_id="@))
            ||| (!is_file_address(qp) && !is_opencast_address(qp) && !is_viewable_address(qp)
                && !is_exercise_address(qp))
        },
    }
}

/// An extracted id witnesses a pattern hit, so extraction cannot also have
/// found nothing.
proof fn lemma_extracted_id_hits(qp: Seq<char>, id: Seq<char>)
    requires
        is_extracted_id(qp, id),
    ensures
        !no_extractable_id(qp),
{
    let (i, k) = choose|i: int, k: int|
        {
            &&& #[trigger] crate::addressing::id_hit_at(qp, i, k)
            &&& forall|j: int| 0 <= j < i ==> !crate::addressing::any_id_hit_at(qp, j)
            &&& forall|k2: int| 0 <= k2 < k ==> !crate::addressing::id_hit_at(qp, i, k2)
            &&& id == crate::addressing::id_at_hit(qp, i, k)
        };
    assert(crate::addressing::any_id_hit_at(qp, i));
}

/// A found marker id witnesses a marker hit, so the marker cannot also be
/// absent.
proof fn lemma_marker_id_hits(qp: Seq<char>, id: Seq<char>)
    requires
        is_marker_id(qp, "ref_id="@, id),
    ensures
        !no_marker_id(qp, "ref_id="@),
{
}

/// The first property at or after index 1 that parses as a date, with its
/// index.
fn first_parsed_date(props: &Vec<String>, today: &DateTime) -> (r: Option<DateTime>)
    requires
        props@.len() >= 1,
    ensures
        match r {
            Some(dt) => ({
                let di = first_date_index(props@, 1, today);
                1 <= di < props@.len() && parse_date_spec(props@[di]@, today) == Some(dt)
            }),
            None => first_date_index(props@, 1, today) >= props@.len(),
        },
{
    let mut j: usize = 1;
    while j < props.len()
        invariant
            1 <= j,
            j <= props@.len(),
            first_date_index(props@, 1, today) == first_date_index(props@, j as int, today),
        decreases props@.len() - j,
    {
        match parse_date(props[j].as_str(), today) {
            Ok(d) => {
                return Some(d);
            },
            Err(_) => {
                j += 1;
            },
        }
    }
    None
}

impl FolderElement {
    /// A parsed element is well formed: a file element always knows its id.
    pub open spec fn wf(&self) -> bool {
        self matches FolderElement::File { file, .. } ==> file.id is Some
    }

    /// Decide a listing entry's element from its plain values: resolve the
    /// linked address to a query path, extract the element's id, then match
    /// the query path against the recognized patterns in their fixed order.
    /// An entry matching no pattern is an error, never skipped.
    pub fn parse(entry: &ListingEntry, deletion_querypath: Option<String>, today: &DateTime) -> (r:
        Result<FolderElement, ParseError>)
        ensures
            r matches Ok(el) ==> parsed_element(entry, deletion_querypath, today, &el) && el.wf(),
            r is Err <==> element_unparsable(entry, today),
    {
        let qp = match querypath_of_url(entry.link.as_str()) {
            Ok(qp) => qp,
            Err(e) => {
                return Err(e);
            },
        };
        let id = match extract_id(qp.as_str()) {
            Ok(id) => id,
            Err(_) => {
                return Err(ParseError::new("an id inside the element address"));
            },
        };
        let is_file = contains_sub(qp.as_str(), "target=file_") || (contains_sub(
            qp.as_str(),
            "baseClass=ilrepositorygui",
        ) && contains_sub(qp.as_str(), "cmd=sendfile"));
        if is_file {
            let el = Self::parse_file_entry(entry, deletion_querypath, today, qp, id)?;
            return Ok(el);
        }
        let is_opencast = contains_sub(qp.as_str(), "baseClass=ilObjPluginDispatchGUI")
            && contains_sub(qp.as_str(), "cmd=forward") && contains_sub(
            qp.as_str(),
            "forwardCmd=showContent",
        );
        if is_opencast {
            let el = FolderElement::Opencast {
                name: entry.name.clone(),
                description: entry.description.clone(),
                id,
                querypath: qp,
                deletion_querypath,
            };
            proof {
                let qps = querypath_of_url_spec(entry.link@)->Some_0;
                assert(el matches FolderElement::Opencast { id: ref eid, .. } && is_extracted_id(
                    qps,
                    eid@,
                ));
                lemma_extracted_id_hits(qps, id@);
            }
            return Ok(el);
        }
        let is_viewable = contains_sub(qp.as_str(), "baseClass=ilrepositorygui") && contains_sub(
            qp.as_str(),
            "cmd=view",
        );
        if is_viewable {
            let vid = match find_marker_id(qp.as_str(), "ref_id=") {
                Some(vid) => vid,
                None => {
                    return Err(ParseError::new("a ref_id parameter in a viewable address"));
                },
            };
            let el = FolderElement::Viewable {
                name: entry.name.clone(),
                description: entry.description.clone(),
                id: vid,
                querypath: qp,
                deletion_querypath,
            };
            proof {
                let qps = querypath_of_url_spec(entry.link@)->Some_0;
                assert(is_extracted_id(qps, id@));
                lemma_extracted_id_hits(qps, id@);
                assert(el matches FolderElement::Viewable { id: ref eid, .. } && is_marker_id(
                    qps,
                    "ref_id="@,
                    eid@,
                ));
                lemma_marker_id_hits(qps, vid@);
            }
            return Ok(el);
        }
        if contains_sub(qp.as_str(), "/exc/") {
            let el = FolderElement::Exercise {
                name: entry.name.clone(),
                description: entry.description.clone(),
                id,
                querypath: qp,
                deletion_querypath,
            };
            proof {
                let qps = querypath_of_url_spec(entry.link@)->Some_0;
                assert(el matches FolderElement::Exercise { id: ref eid, .. } && is_extracted_id(
                    qps,
                    eid@,
                ));
                lemma_extracted_id_hits(qps, id@);
            }
            return Ok(el);
        }
        Err(ParseError::new("an element address matching a recognized pattern"))
    }

    /// Build the file element of an entry whose address is a file address:
    /// the first property is the file extension, and the first later property
    /// that parses as a date is the upload date.
    fn parse_file_entry(
        entry: &ListingEntry,
        deletion_querypath: Option<String>,
        today: &DateTime,
        qp: String,
        id: String,
    ) -> (r: Result<FolderElement, ParseError>)
        requires
            querypath_of_url_spec(entry.link@) == Some(qp@),
            is_extracted_id(qp@, id@),
            is_file_address(qp@),
        ensures
            r matches Ok(el) ==> parsed_element(entry, deletion_querypath, today, &el) && el.wf(),
            r is Err <==> element_unparsable(entry, today),
    {
        let props = &entry.properties;
        if props.len() == 0 {
            return Err(ParseError::new("a file extension property"));
        }
        let extension = trim_str(props[0].as_str());
        let date: DateTime = match first_parsed_date(props, today) {
            Some(d) => d,
            None => {
                return Err(ParseError::new("a date property of the file entry"));
            },
        };
        let name = if extension.as_str().unicode_len() == 0 {
            entry.name.clone()
        } else {
            let mut n = entry.name.clone();
            n.append(".");
            n.append(extension.as_str());
            n
        };
        let file = File {
            name,
            description: entry.description.clone(),
            date: Some(date),
            id: Some(id),
            download_querypath: Some(qp),
        };
        let el = FolderElement::File { file, deletion_querypath };
        proof {
            let qps = querypath_of_url_spec(entry.link@)->Some_0;
            assert(el matches FolderElement::File { file: ref f, .. } && (f.id matches Some(
                ref fid,
            ) && is_extracted_id(qps, fid@)));
            lemma_extracted_id_hits(qps, el->File_file.id->Some_0@);
        }
        Ok(el)
    }

    /// The deletion endpoint this element carries, as a specification value.
    pub open spec fn deletion_querypath_spec(&self) -> Option<String> {
        match *self {
            FolderElement::File { deletion_querypath: d, .. } => d,
            FolderElement::Exercise { deletion_querypath: d, .. } => d,
            FolderElement::Opencast { deletion_querypath: d, .. } => d,
            FolderElement::Viewable { deletion_querypath: d, .. } => d,
        }
    }

    /// The endpoint this element can be deleted through, when the listing's
    /// action menu offered one.
    pub fn deletion_querypath(&self) -> (r: Option<&String>)
        ensures
            match r {
                Some(d) => self.deletion_querypath_spec() matches Some(dd) && dd == *d,
                None => self.deletion_querypath_spec() is None,
            },
    {
        match self {
            Self::File { deletion_querypath, .. }
            | Self::Exercise { deletion_querypath, .. }
            | Self::Opencast { deletion_querypath, .. }
            | Self::Viewable { deletion_querypath, .. } => deletion_querypath.as_ref(),
        }
    }

    /// The contained file, when this element is a file.
    pub fn file(&self) -> (r: Option<&File>)
        ensures
            match r {
                Some(f) => *self matches FolderElement::File { file, .. } && f == file,
                None => !(*self matches FolderElement::File { .. }),
            },
    {
        match self {
            Self::File { file, deletion_querypath: _ } => Some(file),
            _ => None,
        }
    }

    /// The element's id.
    pub fn id(&self) -> (r: &str)
        requires
            self.wf(),
        ensures
            match *self {
                FolderElement::File { ref file, .. } => file.id matches Some(ref i) && r@ == i@,
                FolderElement::Exercise { ref id, .. } => r@ == id@,
                FolderElement::Opencast { ref id, .. } => r@ == id@,
                FolderElement::Viewable { ref id, .. } => r@ == id@,
            },
    {
        match self {
            Self::File { file, .. } => match &file.id {
                Some(id) => id.as_str(),
                None => "",
            },
            Self::Exercise { id, .. } | Self::Opencast { id, .. } | Self::Viewable { id, .. } => {
                id.as_str()
            },
        }
    }

    /// The element's display name.
    pub fn name(&self) -> (r: &str)
        ensures
            match *self {
                FolderElement::File { ref file, .. } => r@ == file.name@,
                FolderElement::Exercise { ref name, .. } => r@ == name@,
                FolderElement::Opencast { ref name, .. } => r@ == name@,
                FolderElement::Viewable { ref name, .. } => r@ == name@,
            },
    {
        match self {
            Self::File { file, .. } => file.name.as_str(),
            Self::Exercise { name, .. } | Self::Opencast { name, .. } | Self::Viewable {
                name,
                ..
            } => name.as_str(),
        }
    }

    /// The fields of the deletion confirmation form: the element's id under
    /// the confirmation input's name.
    pub fn delete_confirm_fields(&self) -> (r: Vec<(String, String)>)
        requires
            self.wf(),
        ensures
            r@.len() == 1,
            r@[0].0@ == "form/input_0"@,
            match *self {
                FolderElement::File { ref file, .. } => file.id matches Some(ref i) && r@[0].1@
                    == i@,
                FolderElement::Exercise { ref id, .. } => r@[0].1@ == id@,
                FolderElement::Opencast { ref id, .. } => r@[0].1@ == id@,
                FolderElement::Viewable { ref id, .. } => r@[0].1@ == id@,
            },
    {
        let mut r: Vec<(String, String)> = Vec::new();
        r.push(("form/input_0".to_owned(), self.id().to_owned()));
        r
    }
}

/// The action of the confirmation form on a deletion page.
pub fn scrape_delete_confirm_action(page: &scraper::Html) -> (r: Result<String, ParseError>) {
    let root = crate::scrape::document_root(page)?;
    match first_attr(&root, ".il-layout-page-content>.modal form", "action")? {
        Some(action) => Ok(action),
        None => Err(ParseError::new("a confirmation form on the deletion page")),
    }
}

/// The first action-menu link that deletes: hrefs are tried in order and the
/// first carrying a delete command wins.
pub fn find_deletion_href(hrefs: &Vec<String>) -> (r: Option<String>)
    ensures
        match r {
            Some(h) => exists|i: int|
                {
                    &&& 0 <= i < hrefs@.len()
                    &&& #[trigger] contains_seq(hrefs@[i]@, "cmd=delete"@)
                    &&& forall|j: int| 0 <= j < i ==> !contains_seq(hrefs@[j]@, "cmd=delete"@)
                    &&& h@ == hrefs@[i]@
                },
            None => forall|i: int|
                0 <= i < hrefs@.len() ==> !contains_seq(hrefs@[i]@, "cmd=delete"@),
        },
{
    let mut i: usize = 0;
    while i < hrefs.len()
        invariant
            i <= hrefs@.len(),
            forall|j: int| 0 <= j < i ==> !contains_seq(hrefs@[j]@, "cmd=delete"@),
        decreases hrefs@.len() - i,
    {
        if contains_sub(hrefs[i].as_str(), "cmd=delete") {
            return Some(hrefs[i].clone());
        }
        i += 1;
    }
    None
}

impl IliasElement for Folder {
    fn type_identifier() -> (r: Option<&'static str>)
        ensures
            r matches Some(t) && t@ == "fold"@,
    {
        Some("fold")
    }

    fn querypath_from_id(id: &str) -> (r: Option<String>)
        ensures
            r matches Some(qp) && qp@ == "goto.php/fold/"@ + id@,
    {
        let mut qp = "goto.php/fold/".to_owned();
        qp.append(id);
        Some(qp)
    }
}

impl Folder {
    /// Build a folder from its scraped parts, the deletion endpoint found for
    /// each entry, and the current date (file entries render relative dates).
    /// Fails when any entry yields no element.
    pub fn assemble(
        parts: &FolderParts,
        deletions: &Vec<Option<String>>,
        today: &DateTime,
    ) -> (r: Result<Folder, ParseError>)
        requires
            deletions@.len() == parts.entries@.len(),
        ensures
            r matches Ok(f) ==> {
                &&& f.name == parts.name
                &&& f.description == parts.description
                &&& f.id == parts.id
                &&& f.upload_page_querypath == parts.upload_page_querypath
                &&& f.elements@.len() == parts.entries@.len()
                &&& forall|i: int|
                    0 <= i < f.elements@.len() ==> parsed_element(
                        &parts.entries@[i],
                        deletions@[i],
                        today,
                        &f.elements@[i],
                    )
            },
            r is Err <==> exists|i: int|
                0 <= i < parts.entries@.len() && element_unparsable(
                    &parts.entries@[i],
                    today,
                ),
    {
        let mut elements: Vec<FolderElement> = Vec::new();
        let mut i: usize = 0;
        while i < parts.entries.len()
            invariant
                deletions@.len() == parts.entries@.len(),
                i <= parts.entries@.len(),
                elements@.len() == i,
                forall|j: int|
                    0 <= j < i ==> parsed_element(
                        &parts.entries@[j],
                        deletions@[j],
                        today,
                        &elements@[j],
                    ),
                forall|j: int| 0 <= j < i ==> !element_unparsable(&parts.entries@[j], today),
            decreases parts.entries@.len() - i,
        {
            let deletion = match &deletions[i] {
                Some(d) => Some(d.clone()),
                None => None,
            };
            let el = FolderElement::parse(&parts.entries[i], deletion, today)?;
            elements.push(el);
            i += 1;
        }
        Ok(
            Folder {
                name: parts.name.clone(),
                description: parts.description.clone(),
                id: parts.id.clone(),
                elements,
                upload_page_querypath: match &parts.upload_page_querypath {
                    Some(qp) => Some(qp.clone()),
                    None => None,
                },
            },
        )
    }

    /// Read a folder page into plain parts: the folder's attributes, one
    /// entry per listing row, and the page's trailing inline script.
    pub fn scrape_parts(page: &scraper::Html) -> (r: Result<FolderParts, ParseError>) {
        let root = crate::scrape::document_root(page)?;
        let name = match first_text(&root, ".il-page-content-header")? {
            Some(n) => trim_str(n.as_str()),
            None => {
                return Err(ParseError::new("the folder name header"));
            },
        };
        let description = match first_text(&root, ".ilHeaderDesc")? {
            Some(d) => d,
            None => {
                return Err(ParseError::new("the folder description"));
            },
        };
        let id = match first_attr(&root, ".breadcrumbs span:last-child a", "href")? {
            Some(h) => h,
            None => {
                return Err(ParseError::new("a link in the breadcrumbs"));
            },
        };
        let last_script = match first_text(&root, "body script:last-child")? {
            Some(s) => s,
            None => {
                return Err(ParseError::new("the listing page's trailing script"));
            },
        };
        let upload_page_querypath = first_attr(&root, "#il-add-new-item-gl #file", "href")?;
        let rows = select_in(&root, ".ilObjListRow")?;
        let mut entries: Vec<ListingEntry> = Vec::new();
        let mut i: usize = 0;
        while i < rows.len()
            decreases rows.len() - i,
        {
            let entry = ListingEntry::scrape(&rows[i])?;
            entries.push(entry);
            i += 1;
        }
        Ok(FolderParts { name, description, id, last_script, entries, upload_page_querypath })
    }
}

impl ListingEntry {
    /// Read one listing row into plain values.
    pub fn scrape(row: &scraper::ElementRef<'_>) -> (r: Result<ListingEntry, ParseError>) {
        let title = match first_in(row, ".il_ContainerItemTitle a")? {
            Some(t) => t,
            None => {
                return Err(ParseError::new("the entry's title link"));
            },
        };
        let name = element_text(&title);
        let link = match element_attr(&title, "href") {
            Some(l) => l,
            None => {
                return Err(ParseError::new("an address on the entry's title link"));
            },
        };
        let description = match first_text(row, ".il_Description")? {
            Some(d) => d,
            None => {
                return Err(ParseError::new("the entry's description"));
            },
        };
        let properties = all_texts(row, ".il_ItemProperty")?;
        Ok(ListingEntry { name, description, link, properties })
    }
}

/// The fields that finish a staged folder upload: display name, empty
/// description, the staged file's id, and the fixed all-rights-reserved
/// license.
pub fn finish_upload_fields(file_name: &str, file_id: &str) -> (r: Vec<(String, String)>)
    ensures
        r@.len() == 4,
        r@[0].0@ == "form/input_0[input_1][]"@ && r@[0].1@ == file_name@,
        r@[1].0@ == "form/input_0[input_2][]"@ && r@[1].1@ == ""@,
        r@[2].0@ == "form/input_0[input_3][]"@ && r@[2].1@ == file_id@,
        r@[3].0@ == "form/input_1"@ && r@[3].1@ == "7"@,
{
    let mut r: Vec<(String, String)> = Vec::new();
    r.push(("form/input_0[input_1][]".to_owned(), file_name.to_owned()));
    r.push(("form/input_0[input_2][]".to_owned(), "".to_owned()));
    r.push(("form/input_0[input_3][]".to_owned(), file_id.to_owned()));
    r.push(("form/input_1".to_owned(), "7".to_owned()));
    r
}

/// What an upload page names: the form action that finishes the upload, and
/// the inline script that carries the staging endpoint.
pub fn scrape_upload_page(page: &scraper::Html) -> (r: Result<(String, String), ParseError>) {
    let root = crate::scrape::document_root(page)?;
    let finish = match first_attr(&root, "#ilContentContainer form", "action")? {
        Some(a) => a,
        None => {
            return Err(ParseError::new("the upload page's form action"));
        },
    };
    let script = match first_text(&root, "body script:not([src])")? {
        Some(s) => s,
        None => {
            return Err(ParseError::new("the upload page's inline script"));
        },
    };
    Ok((finish, script))
}

} // verus!
