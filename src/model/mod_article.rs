use vstd::prelude::*;

verus! {

/// A page of mod-article covers: after `last_id`, at most `amount` of them.
#[derive(Debug)]
pub struct GetModArticleCoverQuery {
    pub last_id: i32,
    pub amount: i32,
    pub tag_ids: Vec<i32>,
    pub game_article_id: Option<i32>,
    pub sort_by: ModArticleCoverSort,
}

/// The order a list of covers is asked for.
#[derive(Debug, Clone, Copy, PartialEq, Eq, Structural)]
pub enum ModArticleCoverSort {
    IdAsc,
    IdDesc,
    UpdatedAtAsc,
    UpdatedAtDesc,
    ViewAsc,
    ViewDesc,
    DownloadedASC,
    DownloadedDeSC,
    SubscriptionAsc,
    SubscriptionDesc,
}

impl ModArticleCoverSort {
    /// The SQL ordering the variant stands for.
    pub fn as_sql(&self) -> (r: String)
        ensures
            r@ == (match *self {
                ModArticleCoverSort::IdAsc => "id"@,
                ModArticleCoverSort::IdDesc => "id DESC"@,
                ModArticleCoverSort::UpdatedAtAsc => "updated_at"@,
                ModArticleCoverSort::UpdatedAtDesc => "updated_at DESC"@,
                ModArticleCoverSort::ViewAsc => "view"@,
                ModArticleCoverSort::ViewDesc => "view DESC"@,
                ModArticleCoverSort::DownloadedASC => "downloaded"@,
                ModArticleCoverSort::DownloadedDeSC => "downloaded DESC"@,
                ModArticleCoverSort::SubscriptionAsc => "subscription"@,
                ModArticleCoverSort::SubscriptionDesc => "subscription DESC"@,
            }),
    {
        match self {
            ModArticleCoverSort::IdAsc => String::from_str("id"),
            ModArticleCoverSort::IdDesc => String::from_str("id DESC"),
            ModArticleCoverSort::UpdatedAtAsc => String::from_str("updated_at"),
            ModArticleCoverSort::UpdatedAtDesc => String::from_str("updated_at DESC"),
            ModArticleCoverSort::ViewAsc => String::from_str("view"),
            ModArticleCoverSort::ViewDesc => String::from_str("view DESC"),
            ModArticleCoverSort::DownloadedASC => String::from_str("downloaded"),
            ModArticleCoverSort::DownloadedDeSC => String::from_str("downloaded DESC"),
            ModArticleCoverSort::SubscriptionAsc => String::from_str("subscription"),
            ModArticleCoverSort::SubscriptionDesc => String::from_str("subscription DESC"),
        }
    }
}

#[derive(Debug)]
pub struct GetModArticlePath {
    pub id: i32,
}

} // verus!
