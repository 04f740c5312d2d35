//! Showing one article, with its comments, to whoever asks for it.
use vstd::prelude::*;
use crate::http::Status;
use crate::lookup::{opt_view, same_text};
use crate::text::{owned, str_eq};

verus! {

/// A comment as the article page lists it.
#[derive(Debug, PartialEq, Eq)]
pub struct Comment {
    pub author: String,
    pub content: String,
    pub created_at: String,
}

/// An article row as the article page reads it.
#[derive(Debug, PartialEq, Eq)]
pub struct Article {
    pub title: String,
    pub content: String,
    pub score: i32,
    pub author: String,
    pub editable_for_all: i32,
    pub visibility: String,
}

/// What the article page shows.
#[derive(Debug, PartialEq, Eq)]
pub struct ArticlePage {
    pub title: String,
    pub content: String,
    pub score: i32,
    pub login: bool,
    pub author: String,
    pub username: Option<String>,
    pub is_author: bool,
    pub id: u32,
    pub comments: Vec<Comment>,
    pub is_editable: bool,
}

/// First step of showing an article: its row has been looked up. `Ok` is the
/// row; a missing row is not found and a failed lookup an internal error.
pub fn article(id: u32, lookup: Result<Option<Article>, String>) -> (r: Result<Article, Status>)
    ensures
        match lookup {
            Ok(Some(a)) => r == Ok::<Article, Status>(a),
            Ok(None) => r == Err::<Article, Status>(Status::NotFound),
            Err(_) => r == Err::<Article, Status>(Status::InternalServerError),
        },
{
    match lookup {
        Ok(Some(a)) => Ok(a),
        Ok(None) => Err(Status::NotFound),
        Err(_) => Err(Status::InternalServerError),
    }
}

/// Whether the signed-in user (by name, absent when not signed in) wrote the
/// article.
pub open spec fn is_author_of(username: Option<Seq<char>>, article: Article) -> bool {
    username == Some(article.author@)
}

/// Whether the article may be shown to that user: a private article only to
/// its author, any other article to everyone.
pub open spec fn may_view(username: Option<Seq<char>>, article: Article) -> bool {
    article.visibility@ != "private"@ || is_author_of(username, article)
}

/// Last step of showing an article: given its row, its comments, whether a
/// `user_id` cookie is present and the signed-in user's name, the page, or
/// `403 Forbidden` for a private article of someone else.
pub fn article_page(
    id: u32,
    article: Article,
    comments: Vec<Comment>,
    login: bool,
    username: Option<String>,
) -> (r: Result<ArticlePage, Status>)
    ensures
        !may_view(opt_view(username), article) ==> r == Err::<ArticlePage, Status>(
            Status::Forbidden,
        ),
        may_view(opt_view(username), article) ==> (r matches Ok(page) && {
            let is_author = is_author_of(opt_view(username), article);
            &&& page.title@ == article.title@
            &&& page.content@ == article.content@
            &&& page.score == article.score
            &&& page.login == login
            &&& page.author@ == article.author@
            &&& opt_view(page.username) == opt_view(username)
            &&& page.is_author == is_author
            &&& page.id == id
            &&& page.comments@ == comments@
            &&& page.is_editable == (article.editable_for_all == 1 || is_author)
        }),
        r is Err ==> r == Err::<ArticlePage, Status>(Status::Forbidden) && article.visibility@
            == "private"@ && opt_view(username) != Some(article.author@),
        r matches Ok(page) ==> page.is_author == (opt_view(username) == Some(article.author@))
            && page.is_editable == (article.editable_for_all == 1 || opt_view(username) == Some(
            article.author@,
        )),
{
    let author = Some(owned(article.author.as_str()));
    let is_author = same_text(&username, &author);
    if str_eq(article.visibility.as_str(), "private") && !is_author {
        return Err(Status::Forbidden);
    }
    let is_editable = article.editable_for_all == 1 || is_author;
    Ok(
        ArticlePage {
            title: article.title,
            content: article.content,
            score: article.score,
            login,
            author: article.author,
            username,
            is_author,
            id,
            comments,
            is_editable,
        },
    )
}

/// Law: a private article is shown to its author only; anyone else (signed
/// in or not) is answered `403 Forbidden`.
pub proof fn private_articles_stay_private(username: Option<Seq<char>>, article: Article)
    requires
        article.visibility@ == "private"@,
    ensures
        may_view(username, article) <==> username == Some(article.author@),
{
}

/// Law: whatever the article's visibility, the page counts the signed-in
/// user as its author exactly when their name is the article's author; the
/// author may always open their own article, someone signed out is never
/// the author, and a non-private article is open to everyone.
pub proof fn author_is_recognised(username: Option<Seq<char>>, article: Article)
    ensures
        is_author_of(username, article) <==> username == Some(article.author@),
        is_author_of(Some(article.author@), article),
        may_view(Some(article.author@), article),
        !is_author_of(None, article),
        article.visibility@ != "private"@ ==> may_view(username, article),
        article.visibility@ == "private"@ && username != Some(article.author@) ==> !may_view(
            username,
            article,
        ),
{
}

} // verus!
