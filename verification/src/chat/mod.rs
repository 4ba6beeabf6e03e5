//! The chat pages.
use vstd::prelude::*;

pub mod capabilities;
pub mod effort;
pub mod export;
pub mod flow;
pub mod models;
pub mod render;
pub mod submit;
pub mod title;
pub mod view;

verus! {

/// A conversation.
pub struct Session {
    pub id: String,
    pub user_id: String,
    pub title: Option<String>,
    pub shared: bool,
    pub pinned: bool,
}

} // verus!
