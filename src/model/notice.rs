use vstd::prelude::*;

verus! {

#[derive(Debug)]
pub struct GetNoticePath {
    pub notice_id: i32,
}

/// A notice to post: to the users named, or to everyone when none are.
#[derive(Debug)]
pub struct PostNoticeInput {
    pub title: String,
    pub content: String,
    pub user_ids: Option<Vec<i32>>,
    pub send_new_user: bool,
}

} // verus!
