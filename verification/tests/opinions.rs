use freemd::articles_opinion::{
    comment, comment_finish, comment_with_author, vote, vote_finish, vote_recorded, vote_score,
    vote_status, ApiResponse, Comment, CommentDraft, CommentInsert, Vote, VoteInsert,
};
use freemd::http::Status;
use freemd::user::AuthenticatedUser;

fn api(status: &str, message: &str) -> ApiResponse {
    ApiResponse { status: status.to_string(), message: message.to_string() }
}

#[test]
fn vote_reads_the_option() {
    let user = AuthenticatedUser { id: 2 };
    let up = Vote { option: "up".to_string(), id: 10 };
    let down = Vote { option: "down".to_string(), id: 10 };
    let other = Vote { option: "sideways".to_string(), id: 10 };
    assert_eq!(vote(&up, &user), Ok(VoteInsert { user_id: 2, article_id: 10, value: 1 }));
    assert_eq!(vote(&down, &user), Ok(VoteInsert { user_id: 2, article_id: 10, value: -1 }));
    assert_eq!(vote(&other, &user), Err(Status::BadRequest));
    assert_eq!(vote(&Vote { option: "UP".to_string(), id: 1 }, &user), Err(Status::BadRequest));
}

#[test]
fn vote_steps() {
    let row = VoteInsert { user_id: 2, article_id: 10, value: -1 };
    assert_eq!(vote_recorded(Ok(())), Ok(()));
    assert_eq!(vote_recorded(Err("UNIQUE".to_string())), Err(Status::BadRequest));
    assert_eq!(vote_score(&row, Ok(5)), Ok(4));
    assert_eq!(vote_score(&row, Err("no row".to_string())), Err(Status::NotFound));
    assert_eq!(vote_finish(4, Ok(())), Ok(4));
    assert_eq!(vote_finish(4, Err("x".to_string())), Err(Status::InternalServerError));
}

#[test]
fn vote_status_texts() {
    assert_eq!(vote_status(Ok(Some(1))), "up");
    assert_eq!(vote_status(Ok(Some(-1))), "down");
    assert_eq!(vote_status(Ok(Some(0))), "none");
    assert_eq!(vote_status(Ok(None)), "none");
    assert_eq!(vote_status(Err("x".to_string())), "error");
}

#[test]
fn vote_status_reports_the_vote_cast() {
    let user = AuthenticatedUser { id: 1 };
    for option in ["up", "down"] {
        let row = vote(&Vote { option: option.to_string(), id: 3 }, &user).unwrap();
        assert_eq!(vote_status(Ok(Some(row.value))), option);
    }
}

#[test]
fn comment_checks() {
    let user = AuthenticatedUser { id: 4 };
    let empty = Comment { article_id: 1, content: "".to_string() };
    assert_eq!(comment(&empty, &user), Err(api("error", "Comment cannot be empty")));
    let long = Comment { article_id: 1, content: "x".repeat(1001) };
    assert_eq!(comment(&long, &user), Err(api("error", "Comment is too long: 1000 chars max")));
    let wide = Comment { article_id: 1, content: "é".repeat(1000) };
    assert_eq!(
        comment(&wide, &user),
        Ok(CommentDraft { article_id: 1, content: "é".repeat(1000), user_id: 4 })
    );
    let spaces = Comment { article_id: 1, content: "  ".to_string() };
    assert!(comment(&spaces, &user).is_ok());
}

#[test]
fn comment_author_and_result() {
    let draft = CommentDraft { article_id: 1, content: "hi".to_string(), user_id: 4 };
    assert_eq!(
        comment_with_author(draft, Ok(Some("bob".to_string()))),
        CommentInsert { author: Some("bob".to_string()), article_id: 1, content: "hi".to_string() }
    );
    let draft = CommentDraft { article_id: 1, content: "hi".to_string(), user_id: 4 };
    assert_eq!(
        comment_with_author(draft, Err("x".to_string())),
        CommentInsert { author: None, article_id: 1, content: "hi".to_string() }
    );
    assert_eq!(comment_finish(Ok(())), api("success", "OK"));
    assert_eq!(comment_finish(Err("x".to_string())), api("error", "Internal server error"));
}
