//! Messages about ports.
use vstd::prelude::*;
use crate::cli::i18n::{pick, t, Lang};

verus! {

/// `Port`
pub fn port(lang: Lang) -> (r: &'static str)
    ensures
        r@ == pick(lang, "Port"@, "端口"@),
{
    t(lang, "Port", "端口")
}

/// `Protocol`
pub fn protocol(lang: Lang) -> (r: &'static str)
    ensures
        r@ == pick(lang, "Protocol"@, "协议"@),
{
    t(lang, "Protocol", "协议")
}

/// `Allow Anonymous`
pub fn allow_anonymous(lang: Lang) -> (r: &'static str)
    ensures
        r@ == pick(lang, "Allow Anonymous"@, "允许匿名"@),
{
    t(lang, "Allow Anonymous", "允许匿名")
}

/// `Port created successfully`
pub fn created(lang: Lang) -> (r: &'static str)
    ensures
        r@ == pick(lang, "Port created successfully"@, "端口创建成功"@),
{
    t(lang, "Port created successfully", "端口创建成功")
}

/// `Port updated successfully`
pub fn updated(lang: Lang) -> (r: &'static str)
    ensures
        r@ == pick(lang, "Port updated successfully"@, "端口更新成功"@),
{
    t(lang, "Port updated successfully", "端口更新成功")
}

/// `No ports bound to this tunnel.`
pub fn empty(lang: Lang) -> (r: &'static str)
    ensures
        r@ == pick(lang, "No ports bound to this tunnel."@, "该隧道没有绑定端口"@),
{
    t(lang, "No ports bound to this tunnel.", "该隧道没有绑定端口")
}

/// `port must be between 1 and 65535`
pub fn invalid(lang: Lang) -> (r: &'static str)
    ensures
        r@ == pick(lang, "port must be between 1 and 65535"@, "端口必须为 1 到 65535 之间"@),
{
    t(lang, "port must be between 1 and 65535", "端口必须为 1 到 65535 之间")
}

/// `Invalid protocol (http, https, auto)`
pub fn protocol_invalid(lang: Lang) -> (r: &'static str)
    ensures
        r@ == pick(lang, "Invalid protocol (http, https, auto)"@, "协议无效 (http, https, auto)"@),
{
    t(lang, "Invalid protocol (http, https, auto)", "协议无效 (http, https, auto)")
}

} // verus!
