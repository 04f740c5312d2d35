//! Writing articles: creating one, editing one, deleting one.
//!
//! Each handler runs as a few steps between database round trips: a step
//! takes what the previous query answered and gives either the next query
//! to run (its parameters as a value) or the final answer.
use vstd::prelude::*;
use vstd::string::*;
use uuid::Uuid;
use crate::http::Status;
use crate::lookup::{found, found_text, same_text};
use crate::text::{byte_len, byte_length, join, owned, str_eq, trim, trimmed};
use crate::user::AuthenticatedUser;

verus! {

/// The form for a new article.
#[derive(Debug, PartialEq, Eq)]
pub struct NewPage {
    pub title: String,
    pub content: String,
    pub editable_for_all: Option<bool>,
    pub visibility: String,
}

/// The form for editing an article.
#[derive(Debug, PartialEq, Eq)]
pub struct EditPage {
    pub title: String,
    pub content: String,
    pub id: i64,
    pub editable_for_all: Option<bool>,
}

/// The form for deleting an article.
#[derive(Debug, PartialEq, Eq)]
pub struct DeleteArticle {
    pub id: i64,
}

/// The editor page, in the shapes the handlers render it.
#[derive(Debug, PartialEq, Eq)]
pub enum EditorPage {
    /// The editor for a new article, showing `error` (the user is its author).
    NewArticleError {
        error: String,
        title: String,
        content: String,
        visibility: String,
        editable: i32,
    },
    /// The editor after a link-only article was saved, showing its share link.
    NewArticleShared {
        share_link: String,
        title: String,
        content: String,
        visibility: String,
        editable: i32,
    },
    /// The editor for an existing article, showing `error`.
    EditArticleError { error: String, title: String, content: String, id: i64 },
}

/// What the article-writing handlers answer with.
#[derive(Debug, PartialEq, Eq)]
pub enum CreatePageResponse {
    Template(EditorPage),
    Redirect(String),
    Status(Status),
}

/// A new article that passed the form checks, waiting for its author's name.
#[derive(Debug, PartialEq, Eq)]
pub struct ArticleDraft {
    pub title: String,
    pub content: String,
    pub editable: i32,
    pub visibility: String,
    pub user_id: i64,
}

/// An article row to insert.
#[derive(Debug, PartialEq, Eq)]
pub struct ArticleInsert {
    pub title: String,
    pub content: String,
    pub author: String,
    pub editable: i32,
    pub visibility: String,
    pub share_link: Option<String>,
}

/// An article row to update.
#[derive(Debug, PartialEq, Eq)]
pub struct ArticleUpdate {
    pub title: String,
    pub content: String,
    pub editable: i32,
    pub id: i64,
}

pub open spec fn editable_flag(editable_for_all: Option<bool>) -> i32 {
    if editable_for_all == Some(true) {
        1
    } else {
        0
    }
}

pub open spec fn is_visibility(v: Seq<char>) -> bool {
    v == "public"@ || v == "private"@ || v == "link"@
}

pub open spec fn too_long(title: Seq<char>, content: Seq<char>) -> bool {
    byte_len(title) > 200 || byte_len(content) > 100000
}

/// Whether `r` is the new-article editor showing `error` with the given fields.
pub open spec fn new_article_error(
    r: CreatePageResponse,
    error: Seq<char>,
    title: Seq<char>,
    content: Seq<char>,
    visibility: Seq<char>,
    editable: i32,
) -> bool {
    r matches CreatePageResponse::Template(EditorPage::NewArticleError { error: e, title: t, content: c, visibility: v, editable: ed }) && e@ == error && t@ == title && c@ == content && v@ == visibility && ed == editable
}

/// Whether `r` is the existing-article editor showing `error` with the given fields.
pub open spec fn edit_article_error(
    r: CreatePageResponse,
    error: Seq<char>,
    title: Seq<char>,
    content: Seq<char>,
    id: i64,
) -> bool {
    r matches CreatePageResponse::Template(EditorPage::EditArticleError { error: e, title: t, content: c, id: i }) && e@ == error && t@ == title && c@ == content && i == id
}

pub open spec fn redirects_home(r: CreatePageResponse) -> bool {
    r matches CreatePageResponse::Redirect(to) && to@ == "/"@
}

/// Whether `t` is a version-4, RFC 4122 variant UUID in hyphenated lowercase
/// form.
pub open spec fn is_uuid_text(t: Seq<char>) -> bool {
    &&& t.len() == 36
    &&& forall|i: int|
        0 <= i < 36 ==> if i == 8 || i == 13 || i == 18 || i == 23 {
            #[trigger] t[i] == '-'
        } else {
            ('0' <= t[i] && t[i] <= '9') || ('a' <= t[i] && t[i] <= 'f')
        }
    &&& t[14] == '4'
    &&& ('8' <= t[19] && t[19] <= '9') || ('a' <= t[19] && t[19] <= 'b')
}

/// Calls `Uuid::new_v4` and renders the UUID with `to_string`.
/// Claimed: the text is a hyphenated lowercase version-4 UUID (`Uuid`'s
/// `Display` writes `LowerHex`, hyphenated, and `new_v4` masks in version 4
/// and the RFC 4122 variant).
/// Which UUID comes out is random and not claimed.
#[verifier::external_body]
fn new_share_token() -> (t: String)
    ensures
        is_uuid_text(t@),
{
    Uuid::new_v4().to_string()
}

fn new_article_page(
    error: String,
    title: &str,
    content: &str,
    visibility: &str,
    editable: i32,
) -> (r: CreatePageResponse)
    ensures
        new_article_error(r, error@, title@, content@, visibility@, editable),
{
    CreatePageResponse::Template(
        EditorPage::NewArticleError {
            error,
            title: owned(title),
            content: owned(content),
            visibility: owned(visibility),
            editable,
        },
    )
}

/// First step of creating an article: checks the form. `Ok` is the draft
/// whose author's name is looked up next (by `user.id`); `Err` is the answer.
pub fn create_page(form: &NewPage, user: &AuthenticatedUser) -> (r: Result<
    ArticleDraft,
    CreatePageResponse,
>)
    ensures
        ({
            let title = trimmed(form.title@);
            let content = trimmed(form.content@);
            let editable = editable_flag(form.editable_for_all);
            if !is_visibility(form.visibility@) {
                r == Err::<ArticleDraft, CreatePageResponse>(
                    CreatePageResponse::Status(Status::BadRequest),
                )
            } else if title.len() == 0 || content.len() == 0 {
                r matches Err(page) && new_article_error(
                    page,
                    "Not all fields are filled in"@,
                    title,
                    content,
                    form.visibility@,
                    editable,
                )
            } else if too_long(title, content) {
                r matches Err(page) && new_article_error(
                    page,
                    "Too much text! Limits: 200 chars max for title and 100000 for content"@,
                    title,
                    content,
                    form.visibility@,
                    editable,
                )
            } else {
                r matches Ok(draft) && draft.title@ == title && draft.content@ == content
                    && draft.editable == editable && draft.visibility@ == form.visibility@
                    && draft.user_id == user.id
            }
        }),
        r matches Ok(draft) ==> {
            &&& form.visibility@ == "public"@ || form.visibility@ == "private"@
                || form.visibility@ == "link"@
            &&& draft.title@.len() > 0 && draft.content@.len() > 0
            &&& byte_len(draft.title@) <= 200 && byte_len(draft.content@) <= 100000
            &&& draft.editable == (if form.editable_for_all == Some(true) {
                1i32
            } else {
                0i32
            })
        },
        !(form.visibility@ == "public"@ || form.visibility@ == "private"@ || form.visibility@
            == "link"@) ==> r == Err::<ArticleDraft, CreatePageResponse>(
            CreatePageResponse::Status(Status::BadRequest),
        ),
{
    let title = trim(form.title.as_str());
    let content = trim(form.content.as_str());
    let editable: i32 = if form.editable_for_all == Some(true) {
        1
    } else {
        0
    };
    let visibility = form.visibility.as_str();
    if !(str_eq(visibility, "public") || str_eq(visibility, "private") || str_eq(
        visibility,
        "link",
    )) {
        return Err(CreatePageResponse::Status(Status::BadRequest));
    }
    if title.as_str().is_empty() || content.as_str().is_empty() {
        return Err(
            new_article_page(
                owned("Not all fields are filled in"),
                title.as_str(),
                content.as_str(),
                visibility,
                editable,
            ),
        );
    }
    if byte_length(title.as_str()) > 200 || byte_length(content.as_str()) > 100000 {
        return Err(
            new_article_page(
                owned("Too much text! Limits: 200 chars max for title and 100000 for content"),
                title.as_str(),
                content.as_str(),
                visibility,
                editable,
            ),
        );
    }
    Ok(ArticleDraft { title, content, editable, visibility: owned(visibility), user_id: user.id })
}

/// Second step of creating an article: the lookup of the author's name has
/// answered. When the name was found the row to insert is returned, with a
/// fresh share token when the article is visible by link only; otherwise the
/// editor reports an internal error.
pub fn create_page_with_author(
    draft: ArticleDraft,
    username_lookup: Result<Option<String>, String>,
) -> (r: Result<ArticleInsert, CreatePageResponse>)
    ensures
        match found_text(username_lookup) {
            Some(name) => r matches Ok(row) && row.title@ == draft.title@ && row.content@
                == draft.content@ && row.author@ == name && row.editable == draft.editable
                && row.visibility@ == draft.visibility@ && (row.share_link is Some <==> draft.visibility@
                == "link"@) && (row.share_link matches Some(t) ==> is_uuid_text(t@)),
            None => r matches Err(page) && new_article_error(
                page,
                "Internal server error"@,
                draft.title@,
                draft.content@,
                draft.visibility@,
                draft.editable,
            ),
        },
{
    let username = match username_lookup {
        Ok(Some(name)) => name,
        _ => {
            return Err(
                new_article_page(
                    owned("Internal server error"),
                    draft.title.as_str(),
                    draft.content.as_str(),
                    draft.visibility.as_str(),
                    draft.editable,
                ),
            );
        },
    };
    let share_link = if str_eq(draft.visibility.as_str(), "link") {
        Some(new_share_token())
    } else {
        None
    };
    Ok(
        ArticleInsert {
            title: draft.title,
            content: draft.content,
            author: username,
            editable: draft.editable,
            visibility: draft.visibility,
            share_link,
        },
    )
}

/// Last step of creating an article: the insert has answered. A link-only
/// article shows its share link (`/article/share/` and the token); any other
/// goes back to the front page; a failed insert shows the database's error.
pub fn create_page_finish(row: ArticleInsert, insert: Result<(), String>) -> (r:
    CreatePageResponse)
    ensures
        match insert {
            Ok(_) => match row.share_link {
                Some(t) => r matches CreatePageResponse::Template(
                    EditorPage::NewArticleShared { share_link, title, content, visibility, editable },
                ) && share_link@ == "/article/share/"@ + t@ && title@ == row.title@ && content@
                    == row.content@ && visibility@ == row.visibility@ && editable == row.editable,
                None => redirects_home(r),
            },
            Err(e) => new_article_error(
                r,
                "Internal server error: "@ + e@,
                row.title@,
                row.content@,
                row.visibility@,
                row.editable,
            ),
        },
{
    match insert {
        Ok(_) => match row.share_link {
            Some(token) => CreatePageResponse::Template(
                EditorPage::NewArticleShared {
                    share_link: join("/article/share/", token.as_str()),
                    title: row.title,
                    content: row.content,
                    visibility: row.visibility,
                    editable: row.editable,
                },
            ),
            None => CreatePageResponse::Redirect(owned("/")),
        },
        Err(e) => new_article_page(
            join("Internal server error: ", e.as_str()),
            row.title.as_str(),
            row.content.as_str(),
            row.visibility.as_str(),
            row.editable,
        ),
    }
}

/// The `editable_for_all` flag a lookup found, `0` when no row came back or
/// the query failed.
pub open spec fn found_flag(lookup: Result<Option<i32>, String>) -> i32 {
    match lookup {
        Ok(Some(v)) => v,
        _ => 0,
    }
}

/// Whether the signed-in user may change an article: they are its author
/// (their name equals the article's author, both possibly absent), or the
/// article is editable by everyone.
pub open spec fn may_edit(
    username: Option<Seq<char>>,
    author: Option<Seq<char>>,
    db_editable: i32,
) -> bool {
    username == author || db_editable == 1
}

/// The `editable_for_all` value an accepted edit stores: the author's choice
/// from the form, or, for anyone else, the value already stored.
pub open spec fn stored_flag(
    username: Option<Seq<char>>,
    author: Option<Seq<char>>,
    db_editable: i32,
    requested: i32,
) -> i32 {
    if username != author {
        db_editable
    } else {
        requested
    }
}

/// Law: someone other than an article's author may change it only when it
/// is editable by everyone, and their change keeps the stored
/// `editable_for_all` value whatever the form asked for.
pub proof fn non_author_edits_keep_the_flag(
    username: Option<Seq<char>>,
    author: Option<Seq<char>>,
    db_editable: i32,
    requested: i32,
)
    requires
        username != author,
        may_edit(username, author, db_editable),
    ensures
        db_editable == 1,
        stored_flag(username, author, db_editable, requested) == db_editable,
{
}

/// Law: the author's edit stores the `editable_for_all` value the form asked
/// for, whatever was stored before.
pub proof fn author_edits_set_the_flag(
    username: Option<Seq<char>>,
    db_editable: i32,
    requested: i32,
)
    ensures
        may_edit(username, username, db_editable),
        stored_flag(username, username, db_editable, requested) == requested,
{
}

/// Checks an edit, given the answers of the lookups of the signed-in user's
/// name, of the article's author, and of its `editable_for_all` flag. `Ok`
/// is the update to run; `Err` is the answer.
pub fn edit_page(
    form: &EditPage,
    username_lookup: Result<Option<String>, String>,
    author_lookup: Result<Option<String>, String>,
    editable_lookup: Result<Option<i32>, String>,
) -> (r: Result<ArticleUpdate, CreatePageResponse>)
    ensures
        ({
            let username = found_text(username_lookup);
            let author = found_text(author_lookup);
            let db_editable = found_flag(editable_lookup);
            let title = trimmed(form.title@);
            let content = trimmed(form.content@);
            if !may_edit(username, author, db_editable) {
                r == Err::<ArticleUpdate, CreatePageResponse>(
                    CreatePageResponse::Status(Status::Forbidden),
                )
            } else if title.len() == 0 || content.len() == 0 {
                r matches Err(page) && edit_article_error(
                    page,
                    "Not all fields are filled in"@,
                    title,
                    content,
                    form.id,
                )
            } else if too_long(title, content) {
                r matches Err(page) && edit_article_error(
                    page,
                    "Too much text! Limits: 200 chars max for title and 100000 for content"@,
                    title,
                    content,
                    form.id,
                )
            } else {
                r matches Ok(update) && update.title@ == title && update.content@ == content
                    && update.id == form.id && update.editable == stored_flag(
                    username,
                    author,
                    db_editable,
                    editable_flag(form.editable_for_all),
                )
            }
        }),        r matches Ok(update) ==> {
            let username = found_text(username_lookup);
            let author = found_text(author_lookup);
            let db_editable = found_flag(editable_lookup);
            &&& username == author || db_editable == 1
            &&& username != author ==> update.editable == db_editable
            &&& username == author ==> update.editable == (if form.editable_for_all == Some(
                true,
            ) {
                1i32
            } else {
                0i32
            })
            &&& update.title@.len() > 0 && update.content@.len() > 0
            &&& byte_len(update.title@) <= 200 && byte_len(update.content@) <= 100000
        },
{
    let id = form.id;
    let mut editable: i32 = if form.editable_for_all == Some(true) {
        1
    } else {
        0
    };
    let username = found(username_lookup);
    let author = found(author_lookup);
    let db_editable: i32 = match editable_lookup {
        Ok(Some(v)) => v,
        _ => 0,
    };
    let same_user = same_text(&username, &author);
    if !same_user && db_editable != 1 {
        return Err(CreatePageResponse::Status(Status::Forbidden));
    }
    if !same_user && db_editable != editable {
        editable = db_editable;
    }
    let title = trim(form.title.as_str());
    let content = trim(form.content.as_str());
    if title.as_str().is_empty() || content.as_str().is_empty() {
        return Err(
            CreatePageResponse::Template(
                EditorPage::EditArticleError {
                    error: owned("Not all fields are filled in"),
                    title,
                    content,
                    id,
                },
            ),
        );
    }
    if byte_length(title.as_str()) > 200 || byte_length(content.as_str()) > 100000 {
        return Err(
            CreatePageResponse::Template(
                EditorPage::EditArticleError {
                    error: owned(
                        "Too much text! Limits: 200 chars max for title and 100000 for content",
                    ),
                    title,
                    content,
                    id,
                },
            ),
        );
    }
    Ok(ArticleUpdate { title, content, editable, id })
}

/// What an edit is answered with once the update has run: the front page, or
/// the editor showing the database's error.
pub fn edit_page_finish(update: ArticleUpdate, result: Result<(), String>) -> (r:
    CreatePageResponse)
    ensures
        match result {
            Ok(_) => redirects_home(r),
            Err(e) => edit_article_error(
                r,
                "Internal server error: "@ + e@,
                update.title@,
                update.content@,
                update.id,
            ),
        },
{
    match result {
        Ok(_) => CreatePageResponse::Redirect(owned("/")),
        Err(e) => CreatePageResponse::Template(
            EditorPage::EditArticleError {
                error: join("Internal server error: ", e.as_str()),
                title: update.title,
                content: update.content,
                id: update.id,
            },
        ),
    }
}

/// Checks a deletion, given the answers of the lookups of the signed-in
/// user's name and of the article's author: only the author may delete.
/// `Ok` is the id of the article to delete.
pub fn delete_article(
    form: &DeleteArticle,
    username_lookup: Result<Option<String>, String>,
    author_lookup: Result<Option<String>, String>,
) -> (r: Result<i64, CreatePageResponse>)
    ensures
        if found_text(username_lookup) == found_text(author_lookup) {
            r == Ok::<i64, CreatePageResponse>(form.id)
        } else {
            r == Err::<i64, CreatePageResponse>(CreatePageResponse::Status(Status::Forbidden))
        },
{
    let username = found(username_lookup);
    let author = found(author_lookup);
    if !same_text(&username, &author) {
        return Err(CreatePageResponse::Status(Status::Forbidden));
    }
    Ok(form.id)
}

/// What a deletion is answered with once the delete has run.
pub fn delete_article_finish(result: Result<(), String>) -> (r: CreatePageResponse)
    ensures
        match result {
            Ok(_) => redirects_home(r),
            Err(_) => r == CreatePageResponse::Status(Status::InternalServerError),
        },
{
    match result {
        Ok(_) => CreatePageResponse::Redirect(owned("/")),
        Err(_) => CreatePageResponse::Status(Status::InternalServerError),
    }
}

} // verus!
