use vstd::prelude::*;

verus! {

#[derive(Debug)]
pub struct SetNotificationInput {
    pub title: String,
    pub content: String,
    pub global: bool,
    pub user_ids: Vec<i32>,
}

} // verus!
