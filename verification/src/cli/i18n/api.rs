//! Messages about API failures.
use vstd::prelude::*;
use crate::cli::i18n::{pick, t, Lang};

verus! {

/// `Server error`
pub fn server_error(lang: Lang) -> (r: &'static str)
    ensures
        r@ == pick(lang, "Server error"@, "服务器错误"@),
{
    t(lang, "Server error", "服务器错误")
}

/// `Unauthorized`
pub fn unauthorized(lang: Lang) -> (r: &'static str)
    ensures
        r@ == pick(lang, "Unauthorized"@, "未授权"@),
{
    t(lang, "Unauthorized", "未授权")
}

/// `Invalid response`
pub fn invalid_response(lang: Lang) -> (r: &'static str)
    ensures
        r@ == pick(lang, "Invalid response"@, "无效响应"@),
{
    t(lang, "Invalid response", "无效响应")
}

/// `API key expired, please login again`
pub fn expired(lang: Lang) -> (r: &'static str)
    ensures
        r@ == pick(lang, "API key expired, please login again"@, "API Key 已过期，请重新登录"@),
{
    t(lang, "API key expired, please login again", "API Key 已过期，请重新登录")
}

} // verus!
