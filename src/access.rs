use vstd::prelude::*;

verus! {

/// What the requester of a download link has and may do.
#[derive(Debug, Clone, Copy, PartialEq, Eq, Structural)]
pub struct Downloader {
    pub exp: i32,
    pub coin: i32,
    /// Downloads cost this requester nothing.
    pub free_download: bool,
    /// Level limits do not apply to this requester.
    pub ignore_exp: bool,
}

/// Why a download link is refused before any provider is asked.
#[derive(Debug, Clone, Copy, PartialEq, Eq, Structural)]
pub enum AccessError {
    /// The resource has no provider on the asked tier.
    NoProvider,
    /// The level the resource asks for.
    LackExp(i32),
    /// The coins the download costs.
    LackCoin(i32),
}

/// What a download of a resource needing level `allowed_exp` and costing
/// `cost` charges: a signed-in requester (`Some`) pays the cost unless it
/// downloads free, and is refused below the level unless limits do not
/// apply to it, or when it cannot pay; a guest (`None`) is refused any
/// level limit or cost.
pub open spec fn charge(
    has_provider: bool,
    allowed_exp: i32,
    cost: i32,
    requester: Option<Downloader>,
) -> Result<i32, AccessError> {
    if !has_provider {
        Err(AccessError::NoProvider)
    } else {
        match requester {
            Some(d) => if !d.ignore_exp && d.exp < allowed_exp {
                Err(AccessError::LackExp(allowed_exp))
            } else if !d.free_download && d.coin < cost {
                Err(AccessError::LackCoin(cost))
            } else if d.free_download {
                Ok(0)
            } else {
                Ok(cost)
            },
            None => if allowed_exp != 0 {
                Err(AccessError::LackExp(allowed_exp))
            } else if cost != 0 {
                Err(AccessError::LackCoin(cost))
            } else {
                Ok(0)
            },
        }
    }
}

/// Decides whether a download link may be handed out, and for how many
/// coins.
pub fn download_charge(
    has_provider: bool,
    allowed_exp: i32,
    cost: i32,
    requester: Option<Downloader>,
) -> (r: Result<i32, AccessError>)
    ensures
        r == charge(has_provider, allowed_exp, cost, requester),
{
    if !has_provider {
        return Err(AccessError::NoProvider);
    }
    match requester {
        Some(d) => {
            if !d.ignore_exp && d.exp < allowed_exp {
                Err(AccessError::LackExp(allowed_exp))
            } else if !d.free_download && d.coin < cost {
                Err(AccessError::LackCoin(cost))
            } else if d.free_download {
                Ok(0)
            } else {
                Ok(cost)
            }
        },
        None => {
            if allowed_exp != 0 {
                Err(AccessError::LackExp(allowed_exp))
            } else if cost != 0 {
                Err(AccessError::LackCoin(cost))
            } else {
                Ok(0)
            }
        },
    }
}

} // verus!
