use vstd::prelude::*;

use crate::model::role::RoleID;

verus! {

#[derive(Debug)]
pub struct PostUserInput {
    pub email: String,
    pub nick_name: String,
    pub password: String,
    pub role: RoleID,
}

#[derive(Debug)]
pub struct PostUserOutput {
    pub user_id: i32,
}

#[derive(Debug)]
pub struct PostUserResetPasswordInput {
    pub email: String,
    pub verify_code: String,
    pub new_password: String,
}

#[derive(Debug)]
pub struct PostUserResetPasswordOutput {
    pub user_id: i32,
    pub access_token: String,
    pub refresh_token: String,
}

#[derive(Debug)]
pub struct PostUserLoginInput {
    pub email: String,
    pub password: String,
}

#[derive(Debug)]
pub struct PostUserLoginOutput {
    pub user_id: i32,
    pub access_token: String,
    pub refresh_token: String,
}

#[derive(Debug)]
pub struct PostUserRegisterInput {
    pub email: String,
    pub password: String,
    pub nick_name: String,
    pub verify_code: String,
}

#[derive(Debug)]
pub struct PostUserRegisterOutput {
    pub user_id: i32,
    pub access_token: String,
    pub refresh_token: String,
}

#[derive(Debug)]
pub struct PostNewTokenInput {
    pub refresh_token: String,
}

#[derive(Debug)]
pub struct PostNewTokenOutput {
    pub user_id: i32,
    pub access_token: String,
    pub refresh_token: String,
}

#[derive(Debug)]
pub struct GetUserPath {
    pub user_id: i32,
}

#[derive(Debug)]
pub struct PostUserDailyBonusOutput {
    pub daily_bonus_id: i32,
    pub count: i32,
    pub added_coin: i32,
    pub added_exp: i32,
    pub total_coin: i32,
    pub total_exp: i32,
}

} // verus!
