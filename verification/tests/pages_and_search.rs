use freemd::http::Status;
use freemd::pages::{
    account_settings, edit, edit_view, index, listing, user, user_page, AccountRow, AccountView,
    Article, EditAccess, EditRow, EditorView, UserPage, UserResponse, UserRow,
};
use freemd::pages_edit::{self, create_page_finish, NewPage, NewPageForm, PageInsert};
use freemd::search::{self, current_user, search_by_tag, search_term, SearchRow};

fn art(id: i64, content: &str) -> Article {
    Article { id, title: format!("t{}", id), content: content.to_string() }
}

#[test]
fn listing_previews_each_row() {
    let rows = vec![art(1, "short"), art(2, &"z".repeat(120))];
    let out = listing(&rows);
    assert_eq!(out, vec![art(1, "short"), art(2, &format!("{}...", "z".repeat(100)))]);
}

#[test]
fn index_page() {
    let page = index(&vec![art(3, "x")], true, Some("bob".to_string()));
    assert_eq!(page.rows, vec![art(3, "x")]);
    assert!(page.login);
    assert_eq!(page.username, Some("bob".to_string()));
}

fn name(s: &str) -> Result<Option<String>, String> {
    Ok(Some(s.to_string()))
}

#[test]
fn editor_access() {
    assert_eq!(edit(name("bob"), name("alice"), Ok(Some(0))), Err(UserResponse::Status(Status::Forbidden)));
    assert_eq!(edit(name("bob"), name("alice"), Ok(Some(1))), Ok(EditAccess { is_author: false, editable: 1 }));
    assert_eq!(edit(name("alice"), name("alice"), Ok(None)), Ok(EditAccess { is_author: true, editable: 0 }));
}

#[test]
fn editor_view() {
    let row = EditRow {
        id: 5,
        title: "T".to_string(),
        content: "C".to_string(),
        visibility: "link".to_string(),
        share_link: Some("abc".to_string()),
    };
    assert_eq!(
        edit_view(EditAccess { is_author: true, editable: 1 }, row),
        UserResponse::Template(UserPage::Editor(EditorView {
            id: 5,
            title: "T".to_string(),
            content: "C".to_string(),
            is_author: true,
            editable: 1,
            visibility: "link".to_string(),
            share_link: Some("abc".to_string()),
        }))
    );
}

#[test]
fn profile_lookup_and_page() {
    assert_eq!(user(Ok(None)), Err(UserResponse::Status(Status::NotFound)));
    assert_eq!(user(Err("x".to_string())), Err(UserResponse::Status(Status::InternalServerError)));
    let row = UserRow { created_at: "2024-05-01".to_string(), id: 7 };
    match user_page("bob".to_string(), row, &vec![art(1, "a")], Some("7"), Some("bob".to_string())) {
        UserResponse::Template(UserPage::Profile(p)) => {
            assert!(p.login);
            assert!(p.is_my_profile);
            assert_eq!(p.username, "bob");
            assert_eq!(p.rows, vec![art(1, "a")]);
        }
        other => panic!("unexpected {:?}", other),
    }
    let row = UserRow { created_at: "2024-05-01".to_string(), id: 7 };
    match user_page("bob".to_string(), row, &vec![], Some("8"), None) {
        UserResponse::Template(UserPage::Profile(p)) => {
            assert!(p.login);
            assert!(!p.is_my_profile);
        }
        other => panic!("unexpected {:?}", other),
    }
    let row = UserRow { created_at: "2024-05-01".to_string(), id: 7 };
    match user_page("bob".to_string(), row, &vec![], Some("junk"), None) {
        UserResponse::Template(UserPage::Profile(p)) => {
            assert!(!p.login);
            assert!(!p.is_my_profile);
        }
        other => panic!("unexpected {:?}", other),
    }
}

#[test]
fn account_settings_page() {
    assert_eq!(account_settings(Ok(None)), UserResponse::Status(Status::NotFound));
    assert_eq!(account_settings(Err("x".to_string())), UserResponse::Status(Status::InternalServerError));
    assert_eq!(
        account_settings(Ok(Some(AccountRow { created_at: "d".to_string(), username: "bob".to_string() }))),
        UserResponse::Template(UserPage::AccountSettings(AccountView {
            username: "bob".to_string(),
            created_at: "d".to_string()
        }))
    );
}

#[test]
fn simple_page_form() {
    let f = NewPage { title: " ".to_string(), content: "c".to_string() };
    assert_eq!(
        pages_edit::create_page(&f),
        Err(pages_edit::CreatePageResponse::Template(NewPageForm { error: "Not all fields are filled in".to_string() }))
    );
    let f = NewPage { title: "t".repeat(101), content: "c".to_string() };
    assert_eq!(
        pages_edit::create_page(&f),
        Err(pages_edit::CreatePageResponse::Template(NewPageForm {
            error: "Too many text! Limits: 100 chars max for title and 10000 for content".to_string()
        }))
    );
    let f = NewPage { title: " t ".to_string(), content: "c".repeat(10000) };
    assert_eq!(
        pages_edit::create_page(&f),
        Ok(PageInsert { title: "t".to_string(), content: "c".repeat(10000) })
    );
    assert_eq!(create_page_finish(Ok(())), pages_edit::CreatePageResponse::Redirect("/".to_string()));
    assert_eq!(
        create_page_finish(Err("e".to_string())),
        pages_edit::CreatePageResponse::Template(NewPageForm { error: "Internal server error: e".to_string() })
    );
}

#[test]
fn search_pattern_is_lowercased() {
    assert_eq!(search_term("HeLLo"), "%hello%");
    assert_eq!(search_term(""), "%%");
    assert_eq!(search_term("ÄB"), "%äb%");
}

#[test]
fn viewer_name() {
    assert_eq!(current_user(&Some("bob".to_string())), "bob");
    assert_eq!(current_user(&None), "");
}

fn row(id: i64, visibility: Option<&str>, author: Option<&str>) -> SearchRow {
    SearchRow {
        id,
        title: format!("t{}", id),
        content: "c".to_string(),
        visibility: visibility.map(|s| s.to_string()),
        author: author.map(|s| s.to_string()),
    }
}

fn ids(rows: &[search::Article]) -> Vec<i64> {
    rows.iter().map(|a| a.id).collect()
}

#[test]
fn search_shows_public_and_own_articles() {
    let rows = vec![
        row(1, Some("public"), Some("alice")),
        row(2, Some("private"), Some("alice")),
        row(3, Some("link"), Some("bob")),
        row(4, Some("private"), Some("bob")),
        row(5, None, Some("bob")),
        row(6, Some("other"), Some("bob")),
    ];
    let page = search::search("q".to_string(), &rows, true, Some("bob".to_string()));
    assert_eq!(ids(&page.rows), vec![1, 3, 4]);
    assert_eq!(page.query, "q");
    let page = search::search("q".to_string(), &rows, false, None);
    assert_eq!(ids(&page.rows), vec![1]);
    let page = search_by_tag("rust".to_string(), &rows, true, Some("alice".to_string()));
    assert_eq!(ids(&page.rows), vec![1, 2]);
    assert_eq!(page.tag, "rust");
}

#[test]
fn search_results_are_previewed() {
    let mut r = row(1, Some("public"), None);
    r.content = "y".repeat(200);
    let page = search::search("y".to_string(), &vec![r], false, None);
    assert_eq!(page.rows[0].content, format!("{}...", "y".repeat(100)));
}
