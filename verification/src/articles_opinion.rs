//! Opinions on articles: votes (one per user and article, each moving the
//! article's score by one) and comments.
use vstd::prelude::*;
use vstd::string::*;
use crate::http::Status;
use crate::lookup::{found, found_text, opt_view};
use crate::text::{owned, str_eq};
use crate::user::AuthenticatedUser;

verus! {

/// The vote form: `option` is `up` or `down`.
#[derive(Debug, PartialEq, Eq)]
pub struct Vote {
    pub option: String,
    pub id: i64,
}

/// The comment form.
#[derive(Debug, PartialEq, Eq)]
pub struct Comment {
    pub article_id: i64,
    pub content: String,
}

/// The JSON answer of the comment endpoint.
#[derive(Debug, PartialEq, Eq)]
pub struct ApiResponse {
    pub status: String,
    pub message: String,
}

/// A vote row to insert.
#[derive(Debug, Clone, Copy, PartialEq, Eq)]
pub struct VoteInsert {
    pub user_id: i64,
    pub article_id: i64,
    pub value: i32,
}

/// The value a vote option stands for: `up` is +1, `down` is -1, anything
/// else is no vote.
pub open spec fn vote_value(option: Seq<char>) -> Option<i32> {
    if option == "up"@ {
        Some(1i32)
    } else if option == "down"@ {
        Some(-1i32)
    } else {
        None
    }
}

/// First step of a vote: reads the option. `Ok` is the vote row to insert;
/// an unknown option is a bad request.
pub fn vote(form: &Vote, user: &AuthenticatedUser) -> (r: Result<VoteInsert, Status>)
    ensures
        match vote_value(form.option@) {
            Some(v) => r == Ok::<VoteInsert, Status>(
                VoteInsert { user_id: user.id, article_id: form.id, value: v },
            ),
            None => r == Err::<VoteInsert, Status>(Status::BadRequest),
        },
        r is Ok <==> (form.option@ == "up"@ || form.option@ == "down"@),
        r matches Ok(row) ==> (row.value == 1 <==> form.option@ == "up"@) && (row.value == -1
            <==> form.option@ == "down"@) && row.user_id == user.id && row.article_id == form.id,
{
    proof {
        reveal_strlit("up");
        reveal_strlit("down");
        assert("up"@ != "down"@) by {
            assert("up"@.len() != "down"@.len());
        }
    }
    let option = form.option.as_str();
    let value: i32 = if str_eq(option, "up") {
        1
    } else if str_eq(option, "down") {
        -1
    } else {
        return Err(Status::BadRequest);
    };
    Ok(VoteInsert { user_id: user.id, article_id: form.id, value })
}

/// Second step of a vote: the insert of the vote row has answered. The
/// table allows one vote per user and article, so a refused insert means the
/// user already voted (or the article does not exist): a bad request.
pub fn vote_recorded(insert: Result<(), String>) -> (r: Result<(), Status>)
    ensures
        match insert {
            Ok(_) => r == Ok::<(), Status>(()),
            Err(_) => r == Err::<(), Status>(Status::BadRequest),
        },
{
    match insert {
        Ok(_) => Ok(()),
        Err(_) => Err(Status::BadRequest),
    }
}

/// Third step of a vote: the article's score has been read. The new score is
/// the old one moved by the vote's value; an article that cannot be read is
/// not found.
pub fn vote_score(row: &VoteInsert, score_lookup: Result<i32, String>) -> (r: Result<i32, Status>)
    requires
        score_lookup matches Ok(s) ==> i32::MIN <= s + row.value <= i32::MAX,
    ensures
        match score_lookup {
            Ok(s) => r == Ok::<i32, Status>((s + row.value) as i32),
            Err(_) => r == Err::<i32, Status>(Status::NotFound),
        },
{
    match score_lookup {
        Ok(score) => Ok(score + row.value),
        Err(_) => Err(Status::NotFound),
    }
}

/// Last step of a vote: the new score has been written. The answer carries
/// the new score; a failed write is an internal error.
pub fn vote_finish(score: i32, update: Result<(), String>) -> (r: Result<i32, Status>)
    ensures
        match update {
            Ok(_) => r == Ok::<i32, Status>(score),
            Err(_) => r == Err::<i32, Status>(Status::InternalServerError),
        },
{
    match update {
        Ok(_) => Ok(score),
        Err(_) => Err(Status::InternalServerError),
    }
}

/// The text reporting a user's vote on an article, from the lookup of their
/// vote row: `up`, `down`, `none` (no row, or a value that is neither), or
/// `error` when the lookup failed.
pub open spec fn status_text(lookup: Result<Option<i32>, String>) -> Seq<char> {
    match lookup {
        Ok(Some(v)) => if v == 1 {
            "up"@
        } else if v == -1 {
            "down"@
        } else {
            "none"@
        },
        Ok(None) => "none"@,
        Err(_) => "error"@,
    }
}

pub fn vote_status(lookup: Result<Option<i32>, String>) -> (r: String)
    ensures
        r@ == status_text(lookup),
{
    let text = match lookup {
        Ok(Some(v)) => if v == 1 {
            "up"
        } else if v == -1 {
            "down"
        } else {
            "none"
        },
        Ok(None) => "none",
        Err(_) => "error",
    };
    owned(text)
}

/// Law: after a vote with a valid option has been stored, the vote status
/// of that user and article reports the same option.
pub proof fn vote_status_reports_vote(option: Seq<char>)
    requires
        vote_value(option) is Some,
    ensures
        status_text(Ok(Some(vote_value(option)->0))) == option,
{
}

/// Law: each stored vote moves the article's score by exactly one, up for
/// `up` and down for `down`.
pub proof fn vote_moves_score_by_one(option: Seq<char>)
    requires
        vote_value(option) is Some,
    ensures
        vote_value(option)->0 == 1 || vote_value(option)->0 == -1,
        option == "up"@ <==> vote_value(option)->0 == 1,
{
    reveal_strlit("up");
    reveal_strlit("down");
}

/// A comment that passed the checks, waiting for its author's name.
#[derive(Debug, PartialEq, Eq)]
pub struct CommentDraft {
    pub article_id: i64,
    pub content: String,
    pub user_id: i64,
}

/// A comment row to insert; the author is absent when the user's name was
/// not found.
#[derive(Debug, PartialEq, Eq)]
pub struct CommentInsert {
    pub author: Option<String>,
    pub article_id: i64,
    pub content: String,
}

pub open spec fn is_api_response(r: ApiResponse, status: Seq<char>, message: Seq<char>) -> bool {
    r.status@ == status && r.message@ == message
}

fn api_response(status: &str, message: &str) -> (r: ApiResponse)
    ensures
        is_api_response(r, status@, message@),
{
    ApiResponse { status: owned(status), message: owned(message) }
}

/// First step of commenting: a comment must be non-empty and at most 1000
/// characters long. `Ok` is the comment whose author's name is looked up
/// next (by `user.id`).
pub fn comment(form: &Comment, user: &AuthenticatedUser) -> (r: Result<CommentDraft, ApiResponse>)
    ensures
        if form.content@.len() == 0 {
            r matches Err(a) && is_api_response(a, "error"@, "Comment cannot be empty"@)
        } else if form.content@.len() > 1000 {
            r matches Err(a) && is_api_response(a, "error"@, "Comment is too long: 1000 chars max"@)
        } else {
            r matches Ok(d) && d.article_id == form.article_id && d.content@ == form.content@
                && d.user_id == user.id
        },        r is Ok <==> 0 < form.content@.len() <= 1000,
{
    let content = form.content.as_str();
    if content.is_empty() {
        return Err(api_response("error", "Comment cannot be empty"));
    }
    if content.unicode_len() > 1000 {
        return Err(api_response("error", "Comment is too long: 1000 chars max"));
    }
    Ok(CommentDraft { article_id: form.article_id, content: owned(content), user_id: user.id })
}

/// Second step of commenting: the author's name has been looked up; a
/// failed lookup leaves the comment without author.
pub fn comment_with_author(draft: CommentDraft, username_lookup: Result<Option<String>, String>) -> (r:
    CommentInsert)
    ensures
        opt_view(r.author) == found_text(username_lookup),
        r.article_id == draft.article_id,
        r.content@ == draft.content@,
{
    CommentInsert {
        author: found(username_lookup),
        article_id: draft.article_id,
        content: draft.content,
    }
}

/// Last step of commenting: the insert has answered.
pub fn comment_finish(insert: Result<(), String>) -> (r: ApiResponse)
    ensures
        match insert {
            Ok(_) => is_api_response(r, "success"@, "OK"@),
            Err(_) => is_api_response(r, "error"@, "Internal server error"@),
        },
{
    match insert {
        Ok(_) => api_response("success", "OK"),
        Err(_) => api_response("error", "Internal server error"),
    }
}

} // verus!
