use vstd::prelude::*;

verus! {

/// What an app entry is.
#[derive(Debug, Clone, Copy, PartialEq, Eq, Structural)]
pub enum AppType {
    Game,
    Mod,
    Other,
}

pub open spec fn app_type_code(t: AppType) -> i16 {
    match t {
        AppType::Game => 1,
        AppType::Mod => 2,
        AppType::Other => 3,
    }
}

impl AppType {
    /// The type's code in the database.
    pub fn to_int2(&self) -> (r: i16)
        ensures
            r == app_type_code(*self),
    {
        match self {
            AppType::Game => 1,
            AppType::Mod => 2,
            AppType::Other => 3,
        }
    }

    /// The type with database code `v`; an unknown code reads as `Other`.
    pub fn from_int2(v: i16) -> (r: Self)
        ensures
            r == (if v == 1 {
                AppType::Game
            } else if v == 2 {
                AppType::Mod
            } else {
                AppType::Other
            }),
    {
        match v {
            1 => AppType::Game,
            2 => AppType::Mod,
            _ => AppType::Other,
        }
    }
}

/// Reading back the code of a type gives the type.
pub proof fn lemma_app_type_round_trip(t: AppType)
    ensures
        (if app_type_code(t) == 1 {
            AppType::Game
        } else if app_type_code(t) == 2 {
            AppType::Mod
        } else {
            AppType::Other
        }) == t,
{
}

#[derive(Debug)]
pub struct GetAppPath {
    pub app_id: i32,
}

} // verus!
