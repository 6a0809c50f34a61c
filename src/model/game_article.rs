use vstd::prelude::*;

verus! {

/// A page of game-article covers: after `last_id`, at most `amount` of them.
#[derive(Debug)]
pub struct GetGameArticleCoverQuery {
    pub last_id: i32,
    pub amount: i32,
    pub tag_ids: Vec<i32>,
    pub sort_by: GameArticleCoverSort,
}

/// The order a list of covers is asked for.
#[derive(Debug, Clone, Copy, PartialEq, Eq, Structural)]
pub enum GameArticleCoverSort {
    IdAsc,
    IdDesc,
    UpdatedAtAsc,
    UpdatedAtDesc,
    ViewAsc,
    ViewDesc,
    DownloadedASC,
    DownloadedDeSC,
    SubscriptionAsc,
    SubscriptionDesc,
}

impl GameArticleCoverSort {
    /// The SQL ordering the variant stands for.
    pub fn as_sql(&self) -> (r: String)
        ensures
            r@ == (match *self {
                GameArticleCoverSort::IdAsc => "id"@,
                GameArticleCoverSort::IdDesc => "id DESC"@,
                GameArticleCoverSort::UpdatedAtAsc => "updated_at"@,
                GameArticleCoverSort::UpdatedAtDesc => "updated_at DESC"@,
                GameArticleCoverSort::ViewAsc => "view"@,
                GameArticleCoverSort::ViewDesc => "view DESC"@,
                GameArticleCoverSort::DownloadedASC => "downloaded"@,
                GameArticleCoverSort::DownloadedDeSC => "downloaded DESC"@,
                GameArticleCoverSort::SubscriptionAsc => "subscription"@,
                GameArticleCoverSort::SubscriptionDesc => "subscription DESC"@,
            }),
    {
        match self {
            GameArticleCoverSort::IdAsc => String::from_str("id"),
            GameArticleCoverSort::IdDesc => String::from_str("id DESC"),
            GameArticleCoverSort::UpdatedAtAsc => String::from_str("updated_at"),
            GameArticleCoverSort::UpdatedAtDesc => String::from_str("updated_at DESC"),
            GameArticleCoverSort::ViewAsc => String::from_str("view"),
            GameArticleCoverSort::ViewDesc => String::from_str("view DESC"),
            GameArticleCoverSort::DownloadedASC => String::from_str("downloaded"),
            GameArticleCoverSort::DownloadedDeSC => String::from_str("downloaded DESC"),
            GameArticleCoverSort::SubscriptionAsc => String::from_str("subscription"),
            GameArticleCoverSort::SubscriptionDesc => String::from_str("subscription DESC"),
        }
    }
}

#[derive(Debug)]
pub struct GetGameArticlePath {
    pub id: i32,
}

} // verus!
