//! Labels of the quota report.
use vstd::prelude::*;
use crate::cli::i18n::{pick, t, Lang};

verus! {

/// `Quota Reset At`
pub fn reset_at(lang: Lang) -> (r: &'static str)
    ensures
        r@ == pick(lang, "Quota Reset At"@, "配额重置时间"@),
{
    t(lang, "Quota Reset At", "配额重置时间")
}

/// `Quota Bytes`
pub fn quota(lang: Lang) -> (r: &'static str)
    ensures
        r@ == pick(lang, "Quota Bytes"@, "流量配额"@),
{
    t(lang, "Quota Bytes", "流量配额")
}

/// `Current`
pub fn current(lang: Lang) -> (r: &'static str)
    ensures
        r@ == pick(lang, "Current"@, "当前用量"@),
{
    t(lang, "Current", "当前用量")
}

/// `Active Tunnels`
pub fn active(lang: Lang) -> (r: &'static str)
    ensures
        r@ == pick(lang, "Active Tunnels"@, "活跃隧道数"@),
{
    t(lang, "Active Tunnels", "活跃隧道数")
}

/// `Max Tunnels`
pub fn max_tunnels(lang: Lang) -> (r: &'static str)
    ensures
        r@ == pick(lang, "Max Tunnels"@, "隧道数上限"@),
{
    t(lang, "Max Tunnels", "隧道数上限")
}

/// `Max Ports Per Tunnel`
pub fn max_ports(lang: Lang) -> (r: &'static str)
    ensures
        r@ == pick(lang, "Max Ports Per Tunnel"@, "单隧道端口数上限"@),
{
    t(lang, "Max Ports Per Tunnel", "单隧道端口数上限")
}

/// `Max Hosts Per Tunnel`
pub fn max_hosts(lang: Lang) -> (r: &'static str)
    ensures
        r@ == pick(lang, "Max Hosts Per Tunnel"@, "单隧道 Host 数上限"@),
{
    t(lang, "Max Hosts Per Tunnel", "单隧道 Host 数上限")
}

/// `Max Tunnel Bandwidth`
pub fn bandwidth(lang: Lang) -> (r: &'static str)
    ensures
        r@ == pick(lang, "Max Tunnel Bandwidth"@, "隧道带宽上限"@),
{
    t(lang, "Max Tunnel Bandwidth", "隧道带宽上限")
}

/// `Max HTTP Requests Per Minute Per Port`
pub fn http_rate(lang: Lang) -> (r: &'static str)
    ensures
        r@ == pick(lang, "Max HTTP Requests Per Minute Per Port"@, "单端口 HTTP 请求频率上限"@),
{
    t(lang, "Max HTTP Requests Per Minute Per Port", "单端口 HTTP 请求频率上限")
}

/// `Max Connections Per Port`
pub fn connections(lang: Lang) -> (r: &'static str)
    ensures
        r@ == pick(lang, "Max Connections Per Port"@, "单端口连接数上限"@),
{
    t(lang, "Max Connections Per Port", "单端口连接数上限")
}

} // verus!
