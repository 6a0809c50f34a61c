use vstd::prelude::*;

verus! {

#[derive(Debug)]
pub struct AppSubscribePath {
    pub app_id: i32,
}

} // verus!
