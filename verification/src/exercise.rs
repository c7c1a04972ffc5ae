//! Exercises: named collections of assignments with a lazily fetched grades
//! facet.

use vstd::prelude::*;

use assignment::Assignment;
use grades::Grades;

use crate::addressing::{base_grades_querypath, is_base_grades_prefix, no_marker_id};
use crate::error::ParseError;
use crate::reference::Reference;
use crate::scrape::{first_attr, first_text, document_root, select_in};
use crate::IliasElement;

pub mod assignment;
pub mod grades;

verus! {

/// An exercise: its scraped attributes, its assignments, and a reference to
/// its grades facet, which is fetched only when asked for.
#[derive(Debug)]
pub struct Exercise {
    pub name: String,
    pub description: String,
    pub assignments: Vec<Assignment>,
    pub grades: Reference<Grades>,
}

/// What an exercise page shows about the exercise itself, as plain values.
/// The assignment listing items are scraped separately, because each needs
/// its own detail page fetched before it can be assembled.
#[derive(Debug)]
pub struct ExerciseParts {
    pub name: String,
    pub description: String,
    pub grades_href: Option<String>,
}

impl IliasElement for Exercise {
    fn type_identifier() -> (r: Option<&'static str>)
        ensures
            r matches Some(t) && t@ == "exc"@,
    {
        Some("exc")
    }

    fn querypath_from_id(id: &str) -> (r: Option<String>)
        ensures
            r matches Some(qp) && qp@ == "goto.php?target=exc_"@ + id@ + "&client_id=produktiv"@,
    {
        let mut qp = "goto.php?target=exc_".to_owned();
        qp.append(id);
        qp.append("&client_id=produktiv");
        Some(qp)
    }
}

impl Exercise {
    /// Read an exercise page's own attributes into plain values.
    pub fn scrape_parts(page: &scraper::Html) -> (r: Result<ExerciseParts, ParseError>) {
        let root = document_root(page)?;
        let name = match first_text(&root, ".il-page-content-header")? {
            Some(n) => n,
            None => {
                return Err(ParseError::new("the exercise name header"));
            },
        };
        let description = match first_text(&root, ".ilHeaderDesc")? {
            Some(d) => d,
            None => {
                return Err(ParseError::new("the exercise description"));
            },
        };
        let grades_href = first_attr(&root, "#tab_grades a", "href")?;
        Ok(ExerciseParts { name, description, grades_href })
    }

    /// The listing items of an exercise page, one per assignment.
    pub fn scrape_assignment_items<'a>(page: &'a scraper::Html) -> (r: Result<
        Vec<scraper::ElementRef<'a>>,
        ParseError,
    >) {
        let root = document_root(page)?;
        select_in(&root, "#ilContentContainer .il-item")
    }

    /// Build an exercise from its scraped parts and its assembled
    /// assignments. A grades tab whose address does not carry the expected
    /// `ref_id` parameter is an error; a missing grades tab leaves the grades
    /// facet unavailable.
    pub fn assemble(parts: &ExerciseParts, assignments: Vec<Assignment>) -> (r: Result<
        Exercise,
        ParseError,
    >)
        ensures
            match r {
                Ok(ex) => {
                    &&& ex.name == parts.name
                    &&& ex.description == parts.description
                    &&& ex.assignments == assignments
                    &&& match parts.grades_href {
                        None => ex.grades is Unavailable,
                        Some(h) => ex.grades matches Reference::Unresolved(q)
                            && is_base_grades_prefix(h@, q@),
                    }
                },
                Err(_) => parts.grades_href matches Some(h) && no_marker_id(h@, "ref_id="@),
            },
    {
        let grades: Reference<Grades> = match &parts.grades_href {
            None => Reference::from_optional_querypath(None),
            Some(h) => match base_grades_querypath(h.as_str()) {
                Some(base) => Reference::from_optional_querypath(Some(base)),
                None => {
                    return Err(ParseError::new("a grades address carrying a ref_id parameter"));
                },
            },
        };
        Ok(
            Exercise {
                name: parts.name.clone(),
                description: parts.description.clone(),
                assignments,
                grades,
            },
        )
    }
}

} // verus!
