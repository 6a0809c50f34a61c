use igame::access::{download_charge, AccessError, Downloader};
use igame::bonus::{daily_bonus, AlreadyCheckedIn, DailyBonus, LastCheckIn};
use igame::error::{ExtraField, ResponseError};
use igame::hash::{compare_password, hash_password, salted_hash};
use igame::model::app::AppType;
use igame::model::article::ArticleCoverSort;
use igame::model::email::VerifyEmailType;
use igame::model::game_article::GameArticleCoverSort;
use igame::model::mod_article::ModArticleCoverSort;
use igame::model::permission;
use igame::model::role::{Permission, RoleID};
use igame::model::tag::TagType;
use igame::select::ResolveError;
use igame::util::{bearer_token, generate_verify_code, AccessTokenClaims, RefreshTokenClaims};

#[test]
fn salted_hash_is_salt_then_blake3() {
    let salt = vec![7u8; 32];
    let stored = salted_hash("hunter2", &salt);
    assert_eq!(stored.len(), 64);
    assert_eq!(&stored[..32], &salt[..]);
    let mut input = salt.clone();
    input.extend_from_slice(b"hunter2");
    assert_eq!(&stored[32..], blake3::hash(&input).as_bytes());
    assert_ne!(&stored[32..], &input[..32]);
}

#[test]
fn password_round_trip() {
    let stored = hash_password("correct horse");
    assert_eq!(stored.len(), 64);
    assert!(compare_password("correct horse", &stored).unwrap());
    assert!(!compare_password("wrong horse", &stored).unwrap());
    let other = hash_password("correct horse");
    assert_ne!(stored[..32], other[..32]);
}

#[test]
fn compare_password_rejects_bad_length() {
    let e = compare_password("x", &vec![0u8; 63]).unwrap_err();
    assert_eq!(e.err_code, 0);
    assert_eq!(e.status_code, 500);
    assert!(compare_password("x", &vec![0u8; 65]).is_err());
}

#[test]
fn verify_code_is_four_digits() {
    for _ in 0..50 {
        let code = generate_verify_code();
        assert_eq!(code.len(), 4);
        assert!(code.chars().all(|c| c.is_ascii_digit()));
    }
}

#[test]
fn bearer_token_strips_scheme() {
    assert_eq!(bearer_token("Bearer abc.def"), Some("abc.def"));
    assert_eq!(bearer_token("Bearer "), Some(""));
    assert_eq!(bearer_token("Bearer"), None);
    assert_eq!(bearer_token(""), None);
}

#[test]
fn claims_expire_after_lifetime() {
    let a = AccessTokenClaims::new_at(5, 1_000, 3_600);
    assert_eq!((a.user_id, a.iat, a.exp), (5, 1_000, 4_600));
    let r = RefreshTokenClaims::new_at(6, "ab12", 10, u64::MAX);
    assert_eq!(r.password, "ab12");
    assert_eq!(r.exp, u64::MAX);
    let now = AccessTokenClaims::new(1, 60);
    assert_eq!(now.exp, now.iat + 60);
    let later = RefreshTokenClaims::new(1, "p", 120);
    assert_eq!(later.exp, later.iat + 120);
}

#[test]
fn error_constructors_carry_codes_and_statuses() {
    let e = ResponseError::input_err("m", "i");
    assert_eq!((e.err_code, e.status_code, e.err_type.as_str()), (1, 400, "输入不正确"));
    assert_eq!(e.err_message, "m");
    assert_eq!(e.internal_message, "i");
    assert_eq!(ResponseError::permission_err("m", "i").status_code, 403);
    assert_eq!(ResponseError::access_token_err("m", "i").err_code, 3);
    assert_eq!(ResponseError::refresh_token_err("m", "i").status_code, 401);
    let coin = ResponseError::lack_coin_err("m", 30, "i");
    assert_eq!(coin.extra_field, Some(ExtraField { need_exp: None, need_coin: Some(30) }));
    let exp = ResponseError::lack_exp_err("m", 4, "i");
    assert_eq!(exp.err_code, 6);
    assert_eq!(exp.extra_field, Some(ExtraField { need_exp: Some(4), need_coin: None }));
    let nf = ResponseError::resource_not_found_err("m", "i");
    assert!(nf.is_resource_not_found_err());
    assert!(!ResponseError::already_done_err("m", "i").is_resource_not_found_err());
    assert_eq!(ResponseError::resource_provider_unavailable_err("m", "i").err_code, 9);
    assert_eq!(ResponseError::unexpected_err("m", "i").status_code, 500);
}

#[test]
fn resolve_errors_map_to_responses() {
    let nf = ResponseError::from_resolve_error(&ResolveError::ResourceNotFound);
    assert_eq!((nf.err_code, nf.status_code), (7, 400));
    let ex = ResponseError::from_resolve_error(&ResolveError::AllCandidatesExhausted(None));
    assert_eq!((ex.err_code, ex.status_code), (9, 500));
}

#[test]
fn app_type_codes() {
    assert_eq!(AppType::Mod.to_int2(), 2);
    assert_eq!(AppType::from_int2(1), AppType::Game);
    assert_eq!(AppType::from_int2(3), AppType::Other);
    assert_eq!(AppType::from_int2(-4), AppType::Other);
    for t in [AppType::Game, AppType::Mod, AppType::Other] {
        assert_eq!(AppType::from_int2(t.to_int2()), t);
    }
}

#[test]
fn small_enum_codes() {
    assert_eq!(TagType::Game.to_int2(), 1);
    assert_eq!(TagType::Mod.to_int2(), 2);
    assert_eq!(RoleID::Vip.to_i32(), 3);
    assert_eq!(permission::RoleID::User.to_i32(), 2);
    assert_eq!(Permission::FreeDownload.name(), "free_download");
    assert_eq!(permission::Permission::CreateNotification.name(), "create_notification");
    assert_eq!(ArticleCoverSort::ViewDesc.as_sql(), "view DESC");
    assert_eq!(GameArticleCoverSort::IdAsc.as_sql(), "id");
    assert_eq!(ModArticleCoverSort::DownloadedDeSC.as_sql(), "downloaded DESC");
}

#[test]
fn verify_mail_carries_code() {
    let t = VerifyEmailType::UserRegister;
    assert_eq!(t.to_int2(), 1);
    assert_eq!(t.to_subject(), "注册验证邮件");
    let html = t.to_html("4821");
    assert_eq!(html.matches("4821").count(), 2);
    assert!(html.contains("验证码：4821</div>"));
    assert!(html.contains("<span>4821</span>"));
    assert!(html.contains("*{font-family:sans-serif!important}"));
    let reset = VerifyEmailType::PasswordReset;
    assert_eq!(reset.to_int2(), 2);
    assert_eq!(reset.to_subject(), "重置密码验证邮件");
    assert!(reset.to_html("0007").contains("重置「IGame」账号密码, 验证码：0007"));
}

#[test]
fn download_charge_for_users_and_guests() {
    let user = Downloader { exp: 5, coin: 10, free_download: false, ignore_exp: false };
    assert_eq!(download_charge(false, 0, 0, Some(user)), Err(AccessError::NoProvider));
    assert_eq!(download_charge(true, 6, 1, Some(user)), Err(AccessError::LackExp(6)));
    assert_eq!(download_charge(true, 5, 11, Some(user)), Err(AccessError::LackCoin(11)));
    assert_eq!(download_charge(true, 5, 10, Some(user)), Ok(10));
    let vip = Downloader { exp: 0, coin: 0, free_download: true, ignore_exp: true };
    assert_eq!(download_charge(true, 9, 50, Some(vip)), Ok(0));
    assert_eq!(download_charge(true, 1, 0, None), Err(AccessError::LackExp(1)));
    assert_eq!(download_charge(true, 0, 3, None), Err(AccessError::LackCoin(3)));
    assert_eq!(download_charge(true, 0, 0, None), Ok(0));
}

#[test]
fn daily_bonus_streaks() {
    let first = daily_bonus(None, 5, 4).unwrap();
    assert_eq!(first, DailyBonus { count: 1, added_coin: 10, added_exp: 10 });
    let next = daily_bonus(Some(LastCheckIn { day: 4, count: 3 }), 5, 4).unwrap();
    assert_eq!((next.count, next.added_coin), (4, 13));
    let broken = daily_bonus(Some(LastCheckIn { day: 2, count: 9 }), 5, 4).unwrap();
    assert_eq!(broken.count, 1);
    let long = daily_bonus(Some(LastCheckIn { day: 30, count: 30 }), 1, 31).unwrap();
    assert_eq!(long.count, 1);
    let capped = daily_bonus(Some(LastCheckIn { day: 4, count: 30 }), 5, 4).unwrap();
    assert_eq!((capped.count, capped.added_coin), (31, 40));
    assert_eq!(daily_bonus(Some(LastCheckIn { day: 5, count: 2 }), 5, 4), Err(AlreadyCheckedIn));
}
