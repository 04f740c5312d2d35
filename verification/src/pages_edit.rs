//! The simple page form: a title and a content stored as a page.
use vstd::prelude::*;
use crate::text::{byte_len, byte_length, join, owned, trim, trimmed};

verus! {

/// The new-page form.
#[derive(Debug, PartialEq, Eq)]
pub struct NewPage {
    pub title: String,
    pub content: String,
}

/// The new-page form page, showing `error`.
#[derive(Debug, PartialEq, Eq)]
pub struct NewPageForm {
    pub error: String,
}

/// What the new-page handler answers with.
#[derive(Debug, PartialEq, Eq)]
pub enum CreatePageResponse {
    Template(NewPageForm),
    Redirect(String),
}

/// A page row to insert.
#[derive(Debug, PartialEq, Eq)]
pub struct PageInsert {
    pub title: String,
    pub content: String,
}

pub open spec fn shows_error(r: CreatePageResponse, error: Seq<char>) -> bool {
    r matches CreatePageResponse::Template(form) && form.error@ == error
}

fn form_page(error: String) -> (r: CreatePageResponse)
    ensures
        shows_error(r, error@),
{
    CreatePageResponse::Template(NewPageForm { error })
}

/// First step of creating a page: the trimmed title and content must be
/// non-empty, with at most 100 bytes of title and 10000 of content. `Ok` is
/// the row to insert.
pub fn create_page(form: &NewPage) -> (r: Result<PageInsert, CreatePageResponse>)
    ensures
        ({
            let title = trimmed(form.title@);
            let content = trimmed(form.content@);
            if title.len() == 0 || content.len() == 0 {
                r matches Err(page) && shows_error(page, "Not all fields are filled in"@)
            } else if byte_len(title) > 100 || byte_len(content) > 10000 {
                r matches Err(page) && shows_error(
                    page,
                    "Too many text! Limits: 100 chars max for title and 10000 for content"@,
                )
            } else {
                r matches Ok(row) && row.title@ == title && row.content@ == content
            }
        }),
        r matches Ok(row) ==> row.title@.len() > 0 && row.content@.len() > 0 && byte_len(
            row.title@,
        ) <= 100 && byte_len(row.content@) <= 10000,
{
    let title = trim(form.title.as_str());
    let content = trim(form.content.as_str());
    if title.as_str().is_empty() || content.as_str().is_empty() {
        return Err(form_page(owned("Not all fields are filled in")));
    }
    if byte_length(title.as_str()) > 100 || byte_length(content.as_str()) > 10000 {
        return Err(
            form_page(
                owned("Too many text! Limits: 100 chars max for title and 10000 for content"),
            ),
        );
    }
    Ok(PageInsert { title, content })
}

/// Last step of creating a page: the insert has answered.
pub fn create_page_finish(insert: Result<(), String>) -> (r: CreatePageResponse)
    ensures
        match insert {
            Ok(_) => r matches CreatePageResponse::Redirect(to) && to@ == "/"@,
            Err(e) => shows_error(r, "Internal server error: "@ + e@),
        },
{
    match insert {
        Ok(_) => CreatePageResponse::Redirect(owned("/")),
        Err(e) => form_page(join("Internal server error: ", e.as_str())),
    }
}

} // verus!
