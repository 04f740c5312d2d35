//! A small article site's request logic: form checks, who may see, edit,
//! delete and vote on what, and what each page shows. Database work, HTTP
//! and templates are done by the caller, which hands each step the answers
//! of its queries.
pub mod http;
pub mod lookup;
pub mod text;
pub mod user;
pub mod auth;
pub mod articles_edit;
pub mod articles_opinion;
pub mod articles_display;
pub mod pages_edit;
pub mod pages;
pub mod search;
pub mod upload;
