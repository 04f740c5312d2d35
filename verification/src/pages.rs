//! The site's pages: the front page, the editor for an existing article, a
//! user's profile and the account settings.
use vstd::prelude::*;
use crate::articles_edit::{found_flag, may_edit};
use crate::http::Status;
use crate::lookup::{found, found_text, opt_view, same_text};
use crate::text::{preview, preview_of};
use crate::user::{cookie_user_id, current_user_id};

verus! {

/// An article as a listing shows it.
#[derive(Debug, PartialEq, Eq)]
pub struct Article {
    pub id: i64,
    pub title: String,
    pub content: String,
}

/// An article's id, title and content.
pub open spec fn entry(a: Article) -> (i64, Seq<char>, Seq<char>) {
    (a.id, a.title@, a.content@)
}

/// Whether `listed` shows `rows` in order, each with its content cut to its
/// preview.
pub open spec fn previews(rows: Seq<Article>, listed: Seq<Article>) -> bool {
    &&& listed.len() == rows.len()
    &&& forall|i: int|
        0 <= i < rows.len() ==> #[trigger] entry(listed[i]) == (
            rows[i].id,
            rows[i].title@,
            preview_of(rows[i].content@),
        )
}

/// The rows of a listing, each with its content cut to its preview.
pub fn listing(rows: &Vec<Article>) -> (r: Vec<Article>)
    ensures
        previews(rows@, r@),
{
    let mut out: Vec<Article> = Vec::new();
    let n = rows.len();
    let mut i: usize = 0;
    while i < n
        invariant
            n == rows@.len(),
            0 <= i <= n,
            previews(rows@.take(i as int), out@),
        decreases n - i,
    {
        let row = &rows[i];
        let title = row.title.clone();
        let content = preview(row.content.as_str());
        out.push(Article { id: row.id, title, content });
        proof {
            let t = rows@.take(i + 1);
            assert forall|k: int| 0 <= k < t.len() implies #[trigger] entry(out@[k]) == (
                t[k].id,
                t[k].title@,
                preview_of(t[k].content@),
            ) by {
                if k < i {
                    assert(t[k] == rows@.take(i as int)[k]);
                }
            }
        }
        i = i + 1;
    }
    assert(rows@.take(n as int) =~= rows@);
    out
}

/// The front page.
#[derive(Debug, PartialEq, Eq)]
pub struct IndexPage {
    pub rows: Vec<Article>,
    pub login: bool,
    pub username: Option<String>,
}

/// The front page: every article, newest first as the rows come, each with
/// its preview; whether a `user_id` cookie is present; the signed-in user's
/// name.
pub fn index(rows: &Vec<Article>, login: bool, username: Option<String>) -> (r: IndexPage)
    ensures
        previews(rows@, r.rows@),
        r.login == login,
        opt_view(r.username) == opt_view(username),
{
    IndexPage { rows: listing(rows), login, username }
}

/// The editor for an existing article.
#[derive(Debug, PartialEq, Eq)]
pub struct EditorView {
    pub id: i64,
    pub title: String,
    pub content: String,
    pub is_author: bool,
    pub editable: i32,
    pub visibility: String,
    pub share_link: Option<String>,
}

/// A user's profile.
#[derive(Debug, PartialEq, Eq)]
pub struct ProfileView {
    pub rows: Vec<Article>,
    pub login: bool,
    pub username: String,
    pub created_at: String,
    pub is_my_profile: bool,
    pub current_username: Option<String>,
}

/// The account settings.
#[derive(Debug, PartialEq, Eq)]
pub struct AccountView {
    pub username: String,
    pub created_at: String,
}

#[derive(Debug, PartialEq, Eq)]
pub enum UserPage {
    Editor(EditorView),
    Profile(ProfileView),
    AccountSettings(AccountView),
}

/// What the page handlers answer with.
#[derive(Debug, PartialEq, Eq)]
pub enum UserResponse {
    Template(UserPage),
    Status(Status),
}

/// What the editor may offer to the signed-in user for an article.
#[derive(Debug, Clone, Copy, PartialEq, Eq)]
pub struct EditAccess {
    pub is_author: bool,
    pub editable: i32,
}

/// First step of opening the editor on an article, given the answers of the
/// lookups of the signed-in user's name, the article's author and its
/// `editable_for_all` flag: who is not its author may open it only when it
/// is editable by everyone.
pub fn edit(
    username_lookup: Result<Option<String>, String>,
    author_lookup: Result<Option<String>, String>,
    editable_lookup: Result<Option<i32>, String>,
) -> (r: Result<EditAccess, UserResponse>)
    ensures
        ({
            let username = found_text(username_lookup);
            let author = found_text(author_lookup);
            let db_editable = found_flag(editable_lookup);
            if may_edit(username, author, db_editable) {
                r == Ok::<EditAccess, UserResponse>(
                    EditAccess { is_author: username == author, editable: db_editable },
                )
            } else {
                r == Err::<EditAccess, UserResponse>(UserResponse::Status(Status::Forbidden))
            }
        }),
{
    let username = found(username_lookup);
    let author = found(author_lookup);
    let db_editable: i32 = match editable_lookup {
        Ok(Some(v)) => v,
        _ => 0,
    };
    let same_user = same_text(&username, &author);
    if !same_user && db_editable != 1 {
        return Err(UserResponse::Status(Status::Forbidden));
    }
    Ok(EditAccess { is_author: same_user, editable: db_editable })
}

/// An article row as the editor reads it.
#[derive(Debug, PartialEq, Eq)]
pub struct EditRow {
    pub id: i64,
    pub title: String,
    pub content: String,
    pub visibility: String,
    pub share_link: Option<String>,
}

/// Last step of opening the editor: the article's row has been read.
pub fn edit_view(access: EditAccess, row: EditRow) -> (r: UserResponse)
    ensures
        r matches UserResponse::Template(UserPage::Editor(v)) && v.id == row.id && v.title@
            == row.title@ && v.content@ == row.content@ && v.is_author == access.is_author
            && v.editable == access.editable && v.visibility@ == row.visibility@ && opt_view(
            v.share_link,
        ) == opt_view(row.share_link),
{
    UserResponse::Template(
        UserPage::Editor(
            EditorView {
                id: row.id,
                title: row.title,
                content: row.content,
                is_author: access.is_author,
                editable: access.editable,
                visibility: row.visibility,
                share_link: row.share_link,
            },
        ),
    )
}

/// A user row as the profile reads it.
#[derive(Debug, PartialEq, Eq)]
pub struct UserRow {
    pub created_at: String,
    pub id: i64,
}

/// First step of a profile: the user's row has been looked up by name.
pub fn user(lookup: Result<Option<UserRow>, String>) -> (r: Result<UserRow, UserResponse>)
    ensures
        match lookup {
            Ok(Some(row)) => r == Ok::<UserRow, UserResponse>(row),
            Ok(None) => r == Err::<UserRow, UserResponse>(UserResponse::Status(Status::NotFound)),
            Err(_) => r == Err::<UserRow, UserResponse>(
                UserResponse::Status(Status::InternalServerError),
            ),
        },
{
    match lookup {
        Ok(Some(row)) => Ok(row),
        Ok(None) => Err(UserResponse::Status(Status::NotFound)),
        Err(_) => Err(UserResponse::Status(Status::InternalServerError)),
    }
}

/// Last step of a profile, given the user's name and row, their articles,
/// the request's `user_id` cookie and the signed-in user's name. The visitor
/// counts as signed in when the cookie reads as a number, and the profile is
/// theirs when that number is the user's id.
pub fn user_page(
    username: String,
    row: UserRow,
    articles: &Vec<Article>,
    cookie: Option<&str>,
    current_username: Option<String>,
) -> (r: UserResponse)
    ensures
        r matches UserResponse::Template(UserPage::Profile(p)) && previews(articles@, p.rows@)
            && p.login == (cookie_user_id(
            match cookie {
                Some(v) => Some(v@),
                None => None,
            },
        ) is Some) && p.username@ == username@ && p.created_at@ == row.created_at@
            && p.is_my_profile == (cookie_user_id(
            match cookie {
                Some(v) => Some(v@),
                None => None,
            },
        ) == Some(row.id)) && opt_view(p.current_username) == opt_view(current_username),
{
    let current = current_user_id(cookie);
    let login = current.is_some();
    let is_my_profile = match current {
        Some(id) => id == row.id,
        None => false,
    };
    UserResponse::Template(
        UserPage::Profile(
            ProfileView {
                rows: listing(articles),
                login,
                username,
                created_at: row.created_at,
                is_my_profile,
                current_username,
            },
        ),
    )
}

/// A user row as the account settings read it.
#[derive(Debug, PartialEq, Eq)]
pub struct AccountRow {
    pub created_at: String,
    pub username: String,
}

/// The account settings, given the lookup of the signed-in user's row.
pub fn account_settings(lookup: Result<Option<AccountRow>, String>) -> (r: UserResponse)
    ensures
        match lookup {
            Ok(Some(row)) => r matches UserResponse::Template(UserPage::AccountSettings(v))
                && v.username@ == row.username@ && v.created_at@ == row.created_at@,
            Ok(None) => r == UserResponse::Status(Status::NotFound),
            Err(_) => r == UserResponse::Status(Status::InternalServerError),
        },
{
    match lookup {
        Ok(Some(row)) => UserResponse::Template(
            UserPage::AccountSettings(
                AccountView { username: row.username, created_at: row.created_at },
            ),
        ),
        Ok(None) => UserResponse::Status(Status::NotFound),
        Err(_) => UserResponse::Status(Status::InternalServerError),
    }
}

} // verus!
