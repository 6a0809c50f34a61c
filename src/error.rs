use vstd::prelude::*;

use crate::provider::ProviderFailure;
use crate::select::ResolveError;

verus! {

pub const STATUS_BAD_REQUEST: u16 = 400;

pub const STATUS_UNAUTHORIZED: u16 = 401;

pub const STATUS_FORBIDDEN: u16 = 403;

pub const STATUS_INTERNAL_SERVER_ERROR: u16 = 500;

/// The error code that marks a missing resource.
pub const RESOURCE_NOT_FOUND_CODE: u16 = 7;

/// What a client is told about a failed request: a stable code, a kind, a
/// message, what it would have needed, and (kept from the client) a
/// diagnostic and the HTTP status.
#[derive(Debug)]
pub struct ResponseError {
    pub err_code: u16,
    pub err_type: String,
    pub err_message: String,
    pub extra_field: Option<ExtraField>,
    pub internal_message: String,
    pub status_code: u16,
}

/// The experience or coins a refused request would have needed.
#[derive(Debug, Clone, Copy, PartialEq, Eq, Structural)]
pub struct ExtraField {
    pub need_exp: Option<i32>,
    pub need_coin: Option<i32>,
}

/// The diagnostic of an exhausted request, by the last failure seen.
pub open spec fn exhausted_detail(last: Option<ProviderFailure>) -> Seq<char> {
    match last {
        None => "所有提供者均处于暂停中"@,
        Some(ProviderFailure::Transport) => "提供者请求发送失败"@,
        Some(ProviderFailure::UpstreamRejected(_)) => "提供者响应状态码不正确"@,
        Some(ProviderFailure::Decode) => "提供者响应反序列化失败"@,
        Some(ProviderFailure::UnknownProvider) => "提供者不存在"@,
    }
}

fn exhausted_detail_text(last: &Option<ProviderFailure>) -> (r: &'static str)
    ensures
        r@ == exhausted_detail(*last),
{
    match last {
        None => "所有提供者均处于暂停中",
        Some(ProviderFailure::Transport) => "提供者请求发送失败",
        Some(ProviderFailure::UpstreamRejected(_)) => "提供者响应状态码不正确",
        Some(ProviderFailure::Decode) => "提供者响应反序列化失败",
        Some(ProviderFailure::UnknownProvider) => "提供者不存在",
    }
}

impl ResponseError {
    pub open spec fn describes(
        &self,
        code: u16,
        kind: Seq<char>,
        message: Seq<char>,
        extra: Option<ExtraField>,
        internal: Seq<char>,
        status: u16,
    ) -> bool {
        &&& self.err_code == code
        &&& self.err_type@ == kind
        &&& self.err_message@ == message
        &&& self.extra_field == extra
        &&& self.internal_message@ == internal
        &&& self.status_code == status
    }

    fn build(
        code: u16,
        kind: &str,
        err_message: &str,
        extra: Option<ExtraField>,
        internal_message: &str,
        status: u16,
    ) -> (r: Self)
        ensures
            r.describes(code, kind@, err_message@, extra, internal_message@, status),
    {
        ResponseError {
            err_code: code,
            err_type: kind.to_owned(),
            err_message: err_message.to_owned(),
            extra_field: extra,
            internal_message: internal_message.to_owned(),
            status_code: status,
        }
    }

    /// Wrong input.
    pub fn input_err(err_message: &str, internal_message: &str) -> (r: Self)
        ensures
            r.describes(
                1,
                "输入不正确"@,
                err_message@,
                (None),
                internal_message@,
                STATUS_BAD_REQUEST,
            ),
    {
        Self::build(1, "输入不正确", err_message, None, internal_message, STATUS_BAD_REQUEST)
    }

    /// The caller lacks the permission.
    pub fn permission_err(err_message: &str, internal_message: &str) -> (r: Self)
        ensures
            r.describes(
                2,
                "没有对应权限"@,
                err_message@,
                (None),
                internal_message@,
                STATUS_FORBIDDEN,
            ),
    {
        Self::build(2, "没有对应权限", err_message, None, internal_message, STATUS_FORBIDDEN)
    }

    /// The access token is missing, invalid or expired.
    pub fn access_token_err(err_message: &str, internal_message: &str) -> (r: Self)
        ensures
            r.describes(
                3,
                "获取用户访问凭证失败"@,
                err_message@,
                (None),
                internal_message@,
                STATUS_UNAUTHORIZED,
            ),
    {
        Self::build(3, "获取用户访问凭证失败", err_message, None, internal_message, STATUS_UNAUTHORIZED)
    }

    /// The refresh token is invalid or expired.
    pub fn refresh_token_err(err_message: &str, internal_message: &str) -> (r: Self)
        ensures
            r.describes(
                4,
                "获取用户刷新凭证失败"@,
                err_message@,
                (None),
                internal_message@,
                STATUS_UNAUTHORIZED,
            ),
    {
        Self::build(4, "获取用户刷新凭证失败", err_message, None, internal_message, STATUS_UNAUTHORIZED)
    }

    /// The user has too few coins; carries what is needed.
    pub fn lack_coin_err(err_message: &str, need_coin: i32, internal_message: &str) -> (r: Self)
        ensures
            r.describes(
                5,
                "无限币不足"@,
                err_message@,
                (Some(ExtraField { need_exp: None, need_coin: Some(need_coin) })),
                internal_message@,
                STATUS_FORBIDDEN,
            ),
    {
        Self::build(5, "无限币不足", err_message, Some(ExtraField { need_exp: None, need_coin: Some(need_coin) }), internal_message, STATUS_FORBIDDEN)
    }

    /// The user's level is too low; carries what is needed.
    pub fn lack_exp_err(err_message: &str, need_exp: i32, internal_message: &str) -> (r: Self)
        ensures
            r.describes(
                6,
                "用户等级不足"@,
                err_message@,
                (Some(ExtraField { need_exp: Some(need_exp), need_coin: None })),
                internal_message@,
                STATUS_FORBIDDEN,
            ),
    {
        Self::build(6, "用户等级不足", err_message, Some(ExtraField { need_exp: Some(need_exp), need_coin: None }), internal_message, STATUS_FORBIDDEN)
    }

    /// The resource does not exist.
    pub fn resource_not_found_err(err_message: &str, internal_message: &str) -> (r: Self)
        ensures
            r.describes(
                RESOURCE_NOT_FOUND_CODE,
                "没有找到相应资源"@,
                err_message@,
                (None),
                internal_message@,
                STATUS_BAD_REQUEST,
            ),
    {
        Self::build(RESOURCE_NOT_FOUND_CODE, "没有找到相应资源", err_message, None, internal_message, STATUS_BAD_REQUEST)
    }

    /// The operation was done before.
    pub fn already_done_err(err_message: &str, internal_message: &str) -> (r: Self)
        ensures
            r.describes(
                8,
                "该操作已经执行过了"@,
                err_message@,
                (None),
                internal_message@,
                STATUS_BAD_REQUEST,
            ),
    {
        Self::build(8, "该操作已经执行过了", err_message, None, internal_message, STATUS_BAD_REQUEST)
    }

    /// No storage provider could serve.
    pub fn resource_provider_unavailable_err(err_message: &str, internal_message: &str) -> (r: Self)
        ensures
            r.describes(
                9,
                "后台文件服务器不可用"@,
                err_message@,
                (None),
                internal_message@,
                STATUS_INTERNAL_SERVER_ERROR,
            ),
    {
        Self::build(9, "后台文件服务器不可用", err_message, None, internal_message, STATUS_INTERNAL_SERVER_ERROR)
    }

    /// Anything else.
    pub fn unexpected_err(err_message: &str, internal_message: &str) -> (r: Self)
        ensures
            r.describes(
                0,
                "未预期的错误"@,
                err_message@,
                (None),
                internal_message@,
                STATUS_INTERNAL_SERVER_ERROR,
            ),
    {
        Self::build(0, "未预期的错误", err_message, None, internal_message, STATUS_INTERNAL_SERVER_ERROR)
    }

    pub fn is_resource_not_found_err(&self) -> (r: bool)
        ensures
            r == (self.err_code == RESOURCE_NOT_FOUND_CODE),
    {
        self.err_code == RESOURCE_NOT_FOUND_CODE
    }

    /// What a client is told when no link could be had; the diagnostic
    /// names the last failure of a provider, if one was asked.
    pub fn from_resolve_error(e: &ResolveError) -> (r: Self)
        ensures
            r.internal_message@ == (match *e {
                ResolveError::ResourceNotFound => "错误状态码400"@,
                ResolveError::AllCandidatesExhausted(last) => exhausted_detail(last),
            }),
            r.err_code == (match *e {
                ResolveError::ResourceNotFound => RESOURCE_NOT_FOUND_CODE,
                ResolveError::AllCandidatesExhausted(_) => 9u16,
            }),
            r.status_code == (match *e {
                ResolveError::ResourceNotFound => STATUS_BAD_REQUEST,
                ResolveError::AllCandidatesExhausted(_) => STATUS_INTERNAL_SERVER_ERROR,
            }),
            r.extra_field == None::<ExtraField>,
    {
        match e {
            ResolveError::ResourceNotFound => Self::resource_not_found_err("资源不存在", "错误状态码400"),
            ResolveError::AllCandidatesExhausted(last) => Self::resource_provider_unavailable_err(
                "服务暂不可用，获取下载链接失败，请稍后重试",
                exhausted_detail_text(last),
            ),
        }
    }
}

} // verus!
