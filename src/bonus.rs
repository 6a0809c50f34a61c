use vstd::prelude::*;

verus! {

/// Coins of a check-in once a streak is past a month.
pub const BONUS_COIN_CAP: i32 = 40;

/// Experience of every check-in.
pub const BONUS_EXP: i32 = 10;

/// A user's latest check-in: its day of the month, in the service's time
/// zone, and the streak it made.
#[derive(Debug, Clone, Copy, PartialEq, Eq, Structural)]
pub struct LastCheckIn {
    pub day: u32,
    pub count: i32,
}

/// What one check-in gives.
#[derive(Debug, Clone, Copy, PartialEq, Eq, Structural)]
pub struct DailyBonus {
    pub count: i32,
    pub added_coin: i32,
    pub added_exp: i32,
}

/// A check-in on a day that already had one.
#[derive(Debug, Clone, Copy, PartialEq, Eq, Structural)]
pub struct AlreadyCheckedIn;

/// The streak a check-in today makes: one more than the last when that was
/// yesterday, else a fresh start.
pub open spec fn streak(last: Option<LastCheckIn>, yesterday: u32) -> i32 {
    match last {
        Some(l) => if l.day == yesterday {
            if l.count < i32::MAX {
                (l.count + 1) as i32
            } else {
                i32::MAX
            }
        } else {
            1
        },
        None => 1,
    }
}

pub open spec fn bonus_coin(count: i32) -> i32 {
    if count > 30 {
        BONUS_COIN_CAP
    } else {
        (9 + count) as i32
    }
}

/// Decides a check-in on day `today` (and `yesterday` the day before, both
/// days of the month): refused when the last one was today, else a streak,
/// nine coins plus the streak up to a month (forty past it) and ten
/// experience.
pub fn daily_bonus(last: Option<LastCheckIn>, today: u32, yesterday: u32) -> (r: Result<
    DailyBonus,
    AlreadyCheckedIn,
>)
    ensures
        (r is Err) <==> (last is Some && last->0.day == today),
        r is Ok ==> r->Ok_0 == (DailyBonus {
            count: streak(last, yesterday),
            added_coin: bonus_coin(streak(last, yesterday)),
            added_exp: BONUS_EXP,
        }),
{
    let count: i32 = match last {
        Some(l) => {
            if l.day == today {
                return Err(AlreadyCheckedIn);
            }
            if l.day == yesterday {
                if l.count < i32::MAX {
                    l.count + 1
                } else {
                    i32::MAX
                }
            } else {
                1
            }
        },
        None => 1,
    };
    let added_coin = if count > 30 {
        BONUS_COIN_CAP
    } else {
        9 + count
    };
    Ok(DailyBonus { count, added_coin, added_exp: BONUS_EXP })
}

} // verus!
