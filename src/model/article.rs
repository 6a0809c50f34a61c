use vstd::prelude::*;

use crate::model::app::AppType;

verus! {

/// A page of article covers: after `last_index`, at most `limit` of them.
#[derive(Debug)]
pub struct GetArticleCoverQuery {
    pub last_index: i32,
    pub limit: i32,
    pub app_type: AppType,
    pub depend_app_id: Option<i32>,
    pub sort_by: ArticleCoverSort,
    pub tag_ids: Vec<i32>,
}

/// The order a list of covers is asked for.
#[derive(Debug, Clone, Copy, PartialEq, Eq, Structural)]
pub enum ArticleCoverSort {
    IdAsc,
    IdDesc,
    UpdatedAtAsc,
    UpdatedAtDesc,
    ViewAsc,
    ViewDesc,
    DownloadedASC,
    DownloadedDeSC,
    SubscriptionAsc,
    SubscriptionDesc,
}

impl ArticleCoverSort {
    /// The SQL ordering the variant stands for.
    pub fn as_sql(&self) -> (r: String)
        ensures
            r@ == (match *self {
                ArticleCoverSort::IdAsc => "id"@,
                ArticleCoverSort::IdDesc => "id DESC"@,
                ArticleCoverSort::UpdatedAtAsc => "updated_at"@,
                ArticleCoverSort::UpdatedAtDesc => "updated_at DESC"@,
                ArticleCoverSort::ViewAsc => "view"@,
                ArticleCoverSort::ViewDesc => "view DESC"@,
                ArticleCoverSort::DownloadedASC => "downloaded"@,
                ArticleCoverSort::DownloadedDeSC => "downloaded DESC"@,
                ArticleCoverSort::SubscriptionAsc => "subscription"@,
                ArticleCoverSort::SubscriptionDesc => "subscription DESC"@,
            }),
    {
        match self {
            ArticleCoverSort::IdAsc => String::from_str("id"),
            ArticleCoverSort::IdDesc => String::from_str("id DESC"),
            ArticleCoverSort::UpdatedAtAsc => String::from_str("updated_at"),
            ArticleCoverSort::UpdatedAtDesc => String::from_str("updated_at DESC"),
            ArticleCoverSort::ViewAsc => String::from_str("view"),
            ArticleCoverSort::ViewDesc => String::from_str("view DESC"),
            ArticleCoverSort::DownloadedASC => String::from_str("downloaded"),
            ArticleCoverSort::DownloadedDeSC => String::from_str("downloaded DESC"),
            ArticleCoverSort::SubscriptionAsc => String::from_str("subscription"),
            ArticleCoverSort::SubscriptionDesc => String::from_str("subscription DESC"),
        }
    }
}

#[derive(Debug)]
pub struct GetArticlePath {
    pub article_id: i32,
}

} // verus!
