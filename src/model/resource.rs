use vstd::prelude::*;

use crate::group::ProviderGroup;

verus! {

#[derive(Debug)]
pub struct GetBriefResourcesPath {
    pub app_id: i32,
}

/// A page of resources: after `last_index`, at most `limit` of them.
#[derive(Debug)]
pub struct GetBriefResourcesQuery {
    pub last_index: i32,
    pub limit: i32,
}

#[derive(Debug)]
pub struct GetBriefResourcesOutputItem {
    pub resource_id: i32,
    pub name: String,
    pub version: String,
    pub allowed_exp: i32,
}

#[derive(Debug)]
pub struct GetResourcePath {
    pub resource_id: i32,
}

/// A download link asked for one resource on one tier.
#[derive(Debug)]
pub struct GetResourceUrlPath {
    pub resource_id: i32,
    pub provider_group: ProviderGroup,
}

/// A download link handed out, with the trade it cost and the coins left
/// for a signed-in user.
#[derive(Debug)]
pub struct GetResourceUrlOutput {
    pub download_url: String,
    pub trade_id: Option<i32>,
    pub remain_coin: Option<i32>,
    pub downloaded: i32,
}

} // verus!
