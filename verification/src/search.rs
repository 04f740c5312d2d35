//! Search, by words in an article's title or content and by tag.
//!
//! The database answers with the articles whose (lowercased) title, content
//! or tags match the pattern, newest first; which of them a visitor is shown
//! is decided here.
use vstd::prelude::*;
use crate::lookup::opt_view;
use crate::text::{join, lowercase, preview, preview_of, str_eq, to_lowercase};

verus! {

/// An article as the search results show it.
#[derive(Debug, PartialEq, Eq)]
pub struct Article {
    pub id: i64,
    pub title: String,
    pub content: String,
}

/// An article row that matched the search pattern.
#[derive(Debug, PartialEq, Eq)]
pub struct SearchRow {
    pub id: i64,
    pub title: String,
    pub content: String,
    pub visibility: Option<String>,
    pub author: Option<String>,
}

/// The pattern matched against the lowercased title, content or tags:
/// the lowercased query between two `%` wildcards.
pub open spec fn pattern_of(query: Seq<char>) -> Seq<char> {
    seq!['%'] + lowercase(query) + seq!['%']
}

pub fn search_term(query: &str) -> (r: String)
    ensures
        r@ == pattern_of(query@),
        r@.len() == lowercase(query@).len() + 2 && r@[0] == '%' && r@[r@.len() - 1] == '%'
            && r@.subrange(1, r@.len() - 1) == lowercase(query@),
{
    let lower = to_lowercase(query);
    let mut r = join("%", lower.as_str());
    r.push('%');
    proof {
        reveal_strlit("%");
    }
    assert(r@ =~= pattern_of(query@));
    assert(r@.subrange(1, r@.len() - 1) =~= lowercase(query@));
    r
}

/// The name matched against the authors of private and link-only articles:
/// the signed-in user's name, or the empty text when nobody is signed in.
pub open spec fn viewer_of(username: Option<Seq<char>>) -> Seq<char> {
    match username {
        Some(u) => u,
        None => Seq::empty(),
    }
}

pub fn current_user(username: &Option<String>) -> (r: String)
    ensures
        r@ == viewer_of(opt_view(*username)),
{
    match username {
        Some(u) => u.clone(),
        None => String::new(),
    }
}

/// Whether a matching row is shown to `viewer`: public articles to everyone,
/// private and link-only articles to their author.
pub open spec fn listed(row: SearchRow, viewer: Seq<char>) -> bool {
    ||| opt_view(row.visibility) == Some("public"@)
    ||| (opt_view(row.visibility) == Some("private"@) || opt_view(row.visibility) == Some(
        "link"@,
    )) && opt_view(row.author) == Some(viewer)
}

fn is_listed(row: &SearchRow, viewer: &str) -> (b: bool)
    ensures
        b == listed(*row, viewer@),
{
    match &row.visibility {
        Some(v) => {
            if str_eq(v.as_str(), "public") {
                true
            } else if str_eq(v.as_str(), "private") || str_eq(v.as_str(), "link") {
                match &row.author {
                    Some(a) => str_eq(a.as_str(), viewer),
                    None => false,
                }
            } else {
                false
            }
        },
        None => false,
    }
}

/// An article's id, title and content.
pub open spec fn entry(a: Article) -> (i64, Seq<char>, Seq<char>) {
    (a.id, a.title@, a.content@)
}

/// The results `viewer` is shown of `rows`: the rows listed for them, in
/// order, each with its preview.
pub open spec fn results(rows: Seq<SearchRow>, viewer: Seq<char>) -> Seq<
    (i64, Seq<char>, Seq<char>),
>
    decreases rows.len(),
{
    if rows.len() == 0 {
        Seq::empty()
    } else {
        let rest = results(rows.drop_last(), viewer);
        let row = rows.last();
        if listed(row, viewer) {
            rest.push((row.id, row.title@, preview_of(row.content@)))
        } else {
            rest
        }
    }
}

pub open spec fn entries(v: Seq<Article>) -> Seq<(i64, Seq<char>, Seq<char>)> {
    v.map_values(|a: Article| entry(a))
}

/// The results shown to `viewer` among the matching rows.
pub fn visible_results(rows: &Vec<SearchRow>, viewer: &str) -> (r: Vec<Article>)
    ensures
        entries(r@) == results(rows@, viewer@),
{
    let mut out: Vec<Article> = Vec::new();
    let n = rows.len();
    let mut i: usize = 0;
    while i < n
        invariant
            n == rows@.len(),
            0 <= i <= n,
            entries(out@) == results(rows@.take(i as int), viewer@),
        decreases n - i,
    {
        let row = &rows[i];
        let ghost before = out@;
        assert(rows@.take(i + 1).drop_last() =~= rows@.take(i as int));
        assert(rows@.take(i + 1).last() == rows@[i as int]);
        if is_listed(row, viewer) {
            out.push(
                Article { id: row.id, title: row.title.clone(), content: preview(row.content.as_str()) },
            );
            assert(entries(out@) =~= entries(before).push(
                (row.id, row.title@, preview_of(row.content@)),
            ));
        }
        i = i + 1;
    }
    assert(rows@.take(n as int) =~= rows@);
    out
}

/// Law: search shows nobody another user's private or link-only articles:
/// every result comes from a matching row that is public or written by the
/// viewer.
pub proof fn results_are_visible(rows: Seq<SearchRow>, viewer: Seq<char>, k: int)
    requires
        0 <= k < results(rows, viewer).len(),
    ensures
        exists|j: int|
            0 <= j < rows.len() && listed(#[trigger] rows[j], viewer) && results(rows, viewer)[k]
                == (rows[j].id, rows[j].title@, preview_of(rows[j].content@)),
    decreases rows.len(),
{
    let rest = results(rows.drop_last(), viewer);
    if k < rest.len() {
        results_are_visible(rows.drop_last(), viewer, k);
        let j = choose|j: int|
            0 <= j < rows.drop_last().len() && listed(#[trigger] rows.drop_last()[j], viewer)
                && rest[k] == (
                rows.drop_last()[j].id,
                rows.drop_last()[j].title@,
                preview_of(rows.drop_last()[j].content@),
            );
        assert(rows[j] == rows.drop_last()[j]);
    } else {
        assert(listed(rows[rows.len() - 1], viewer));
    }
}

/// Law: a row is listed for a viewer only when it is public or its author
/// is, as a whole text, the viewer's name; every public row is listed; a
/// private or link-only row is listed exactly for its author; a row of any
/// other or no visibility is never listed.
pub proof fn listed_means_public_or_own(row: SearchRow, viewer: Seq<char>)
    ensures
        listed(row, viewer) ==> opt_view(row.visibility) == Some("public"@) || opt_view(
            row.author,
        ) == Some(viewer),
        opt_view(row.visibility) == Some("public"@) ==> listed(row, viewer),
        (opt_view(row.visibility) == Some("private"@) || opt_view(row.visibility) == Some(
            "link"@,
        )) ==> (listed(row, viewer) <==> opt_view(row.author) == Some(viewer)),
        opt_view(row.visibility) != Some("public"@) && opt_view(row.visibility) != Some(
            "private"@,
        ) && opt_view(row.visibility) != Some("link"@) ==> !listed(row, viewer),
{
    reveal_strlit("public");
    reveal_strlit("private");
    reveal_strlit("link");
    assert("public"@ != "private"@) by {
        assert("public"@.len() != "private"@.len());
    }
    assert("public"@ != "link"@) by {
        assert("public"@.len() != "link"@.len());
    }
}

/// The search page.
#[derive(Debug, PartialEq, Eq)]
pub struct SearchPage {
    pub rows: Vec<Article>,
    pub query: String,
    pub login: bool,
    pub username: Option<String>,
}

/// The search results page, given the query, the rows that matched its
/// pattern, whether a `user_id` cookie is present and the signed-in user's
/// name.
pub fn search(query: String, rows: &Vec<SearchRow>, login: bool, username: Option<String>) -> (r:
    SearchPage)
    ensures
        entries(r.rows@) == results(rows@, viewer_of(opt_view(username))),
        r.query@ == query@,
        r.login == login,
        opt_view(r.username) == opt_view(username),
{
    let viewer = current_user(&username);
    let found = visible_results(rows, viewer.as_str());
    SearchPage { rows: found, query, login, username }
}

/// The tag page.
#[derive(Debug, PartialEq, Eq)]
pub struct TagPage {
    pub rows: Vec<Article>,
    pub tag: String,
    pub login: bool,
    pub username: Option<String>,
}

/// The tag page, given the tag, the rows that matched its pattern, whether a
/// `user_id` cookie is present and the signed-in user's name.
pub fn search_by_tag(tag: String, rows: &Vec<SearchRow>, login: bool, username: Option<String>) -> (r:
    TagPage)
    ensures
        entries(r.rows@) == results(rows@, viewer_of(opt_view(username))),
        r.tag@ == tag@,
        r.login == login,
        opt_view(r.username) == opt_view(username),
{
    let viewer = current_user(&username);
    let found = visible_results(rows, viewer.as_str());
    TagPage { rows: found, tag, login, username }
}

} // verus!
