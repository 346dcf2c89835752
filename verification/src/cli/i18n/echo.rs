//! Labels of the echo service.
use vstd::prelude::*;
use crate::cli::i18n::{pick, t, Lang};

verus! {

/// `Echo service started`
pub fn started(lang: Lang) -> (r: &'static str)
    ensures
        r@ == pick(lang, "Echo service started"@, "Echo 服务已启动"@),
{
    t(lang, "Echo service started", "Echo 服务已启动")
}

/// `Method`
pub fn method(lang: Lang) -> (r: &'static str)
    ensures
        r@ == pick(lang, "Method"@, "方法"@),
{
    t(lang, "Method", "方法")
}

/// `URL`
pub fn url(lang: Lang) -> (r: &'static str)
    ensures
        r@ == pick(lang, "URL"@, "URL"@),
{
    t(lang, "URL", "URL")
}

/// `Host`
pub fn host(lang: Lang) -> (r: &'static str)
    ensures
        r@ == pick(lang, "Host"@, "Host"@),
{
    t(lang, "Host", "Host")
}

/// `Remote Addr`
pub fn remote_addr(lang: Lang) -> (r: &'static str)
    ensures
        r@ == pick(lang, "Remote Addr"@, "远程地址"@),
{
    t(lang, "Remote Addr", "远程地址")
}

/// `Proto`
pub fn proto(lang: Lang) -> (r: &'static str)
    ensures
        r@ == pick(lang, "Proto"@, "协议"@),
{
    t(lang, "Proto", "协议")
}

/// `Headers`
pub fn headers(lang: Lang) -> (r: &'static str)
    ensures
        r@ == pick(lang, "Headers"@, "请求头"@),
{
    t(lang, "Headers", "请求头")
}

} // verus!
