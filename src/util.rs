use rand::Rng;
use vstd::prelude::*;

use crate::clock::now_millis;

verus! {

/// Characters in a verification code.
pub const VERIFY_CODE_LEN: usize = 4;

/// Bytes of the `Bearer ` scheme in front of a token.
pub const BEARER_PREFIX_LEN: usize = 7;

/// Relies on `rand::thread_rng` and `Rng::gen_range(0..n)`: a uniformly
/// drawn index below `n`.
#[verifier::external_body]
fn random_below(n: usize) -> (r: usize)
    requires
        n > 0,
    ensures
        r < n,
{
    rand::thread_rng().gen_range(0..n)
}

pub open spec fn is_digit(c: char) -> bool {
    '0' <= c <= '9'
}

/// A fresh four-digit verification code.
pub fn generate_verify_code() -> (r: String)
    ensures
        r@.len() == VERIFY_CODE_LEN,
        forall|i: int| 0 <= i < r@.len() ==> is_digit(#[trigger] r@[i]),
{
    let charset = "0123456789";
    proof {
        reveal_strlit("0123456789");
        assert(charset@ =~= seq!['0', '1', '2', '3', '4', '5', '6', '7', '8', '9']);
        assert(charset.is_ascii());
    }
    let mut code = String::new();
    let mut k: usize = 0;
    while k < VERIFY_CODE_LEN
        invariant
            k <= VERIFY_CODE_LEN,
            charset@ == seq!['0', '1', '2', '3', '4', '5', '6', '7', '8', '9'],
            charset.is_ascii(),
            code@.len() == k,
            forall|i: int| 0 <= i < code@.len() ==> is_digit(#[trigger] code@[i]),
        decreases VERIFY_CODE_LEN - k,
    {
        let idx = random_below(10);
        let digit = charset.substring_ascii(idx, idx + 1);
        assert(is_digit(digit@[0]));
        let ghost before = code@;
        code = code.concat(digit);
        assert forall|i: int| 0 <= i < code@.len() implies is_digit(#[trigger] code@[i]) by {
            if i < before.len() {
                assert(code@[i] == before[i]);
            } else {
                assert(code@[i] == digit@[0]);
            }
        }
        k += 1;
    }
    code
}

/// The token of an `Authorization` header value: whatever follows its
/// first seven characters, the `Bearer ` scheme; nothing for a shorter
/// value.
pub fn bearer_token(header_value: &str) -> (r: Option<&str>)
    requires
        header_value.is_ascii(),
    ensures
        header_value@.len() < BEARER_PREFIX_LEN ==> r is None,
        header_value@.len() >= BEARER_PREFIX_LEN ==> r is Some && r->0@ == header_value@.subrange(
            BEARER_PREFIX_LEN as int,
            header_value@.len() as int,
        ),
{
    let n = header_value.unicode_len();
    if n < BEARER_PREFIX_LEN {
        None
    } else {
        Some(header_value.substring_ascii(BEARER_PREFIX_LEN, n))
    }
}

/// The claims of an access token: who it is for, when it was issued and
/// when it expires, in seconds since the Unix epoch.
#[derive(Debug)]
pub struct AccessTokenClaims {
    pub user_id: i32,
    pub iat: u64,
    pub exp: u64,
}

/// The claims of a refresh token; it also carries the user's stored
/// password hash, so that a password change voids it.
#[derive(Debug)]
pub struct RefreshTokenClaims {
    pub user_id: i32,
    pub password: String,
    pub iat: u64,
    pub exp: u64,
}

pub open spec fn expiry(now: u64, lifetime: u64) -> u64 {
    if now + lifetime <= u64::MAX {
        (now + lifetime) as u64
    } else {
        u64::MAX
    }
}

impl AccessTokenClaims {
    /// Claims issued at `now` that expire `lifetime` seconds later.
    pub fn new_at(user_id: i32, now: u64, lifetime: u64) -> (r: Self)
        ensures
            r.user_id == user_id,
            r.iat == now,
            r.exp == expiry(now, lifetime),
    {
        AccessTokenClaims { user_id, iat: now, exp: now.saturating_add(lifetime) }
    }

    /// Claims issued now that expire `lifetime` seconds later.
    pub fn new(user_id: i32, lifetime: u64) -> (r: Self)
        ensures
            r.user_id == user_id,
            r.exp == expiry(r.iat, lifetime),
    {
        let now = now_millis() / 1000;
        Self::new_at(user_id, now, lifetime)
    }
}

impl RefreshTokenClaims {
    /// Claims for `password` issued at `now` that expire `lifetime` seconds
    /// later.
    pub fn new_at(user_id: i32, password: &str, now: u64, lifetime: u64) -> (r: Self)
        ensures
            r.user_id == user_id,
            r.password@ == password@,
            r.iat == now,
            r.exp == expiry(now, lifetime),
    {
        RefreshTokenClaims {
            user_id,
            password: password.to_owned(),
            iat: now,
            exp: now.saturating_add(lifetime),
        }
    }

    /// Claims for `password` issued now that expire `lifetime` seconds
    /// later.
    pub fn new(user_id: i32, password: &str, lifetime: u64) -> (r: Self)
        ensures
            r.user_id == user_id,
            r.password@ == password@,
            r.exp == expiry(r.iat, lifetime),
    {
        let now = now_millis() / 1000;
        Self::new_at(user_id, password, now, lifetime)
    }
}

} // verus!
