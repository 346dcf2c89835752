//! Messages about tunnels.
use vstd::prelude::*;
use crate::cli::i18n::{pick, t, Lang};

verus! {

/// `Tunnel ID`
pub fn id(lang: Lang) -> (r: &'static str)
    ensures
        r@ == pick(lang, "Tunnel ID"@, "隧道ID"@),
{
    t(lang, "Tunnel ID", "隧道ID")
}

/// `Name`
pub fn name(lang: Lang) -> (r: &'static str)
    ensures
        r@ == pick(lang, "Name"@, "名称"@),
{
    t(lang, "Name", "名称")
}

/// `Description`
pub fn description(lang: Lang) -> (r: &'static str)
    ensures
        r@ == pick(lang, "Description"@, "描述"@),
{
    t(lang, "Description", "描述")
}

/// `Tunnel Expiration`
pub fn expiration(lang: Lang) -> (r: &'static str)
    ensures
        r@ == pick(lang, "Tunnel Expiration"@, "隧道过期时间"@),
{
    t(lang, "Tunnel Expiration", "隧道过期时间")
}

/// `Port Count`
pub fn port_count(lang: Lang) -> (r: &'static str)
    ensures
        r@ == pick(lang, "Port Count"@, "端口数"@),
{
    t(lang, "Port Count", "端口数")
}

/// `Client Connection Count`
pub fn client_connections(lang: Lang) -> (r: &'static str)
    ensures
        r@ == pick(lang, "Client Connection Count"@, "Client 连接数"@),
{
    t(lang, "Client Connection Count", "Client 连接数")
}

/// `Host Connection Count`
pub fn host_connections(lang: Lang) -> (r: &'static str)
    ensures
        r@ == pick(lang, "Host Connection Count"@, "Host 连接数"@),
{
    t(lang, "Host Connection Count", "Host 连接数")
}

/// `Total Upload Bytes`
pub fn upload(lang: Lang) -> (r: &'static str)
    ensures
        r@ == pick(lang, "Total Upload Bytes"@, "总上传字节"@),
{
    t(lang, "Total Upload Bytes", "总上传字节")
}

/// `Total Download Bytes`
pub fn download(lang: Lang) -> (r: &'static str)
    ensures
        r@ == pick(lang, "Total Download Bytes"@, "总下载字节"@),
{
    t(lang, "Total Download Bytes", "总下载字节")
}

/// `No tunnels found.`
pub fn empty(lang: Lang) -> (r: &'static str)
    ensures
        r@ == pick(lang, "No tunnels found."@, "没有隧道"@),
{
    t(lang, "No tunnels found.", "没有隧道")
}

/// `Tunnel updated successfully`
pub fn updated(lang: Lang) -> (r: &'static str)
    ensures
        r@ == pick(lang, "Tunnel updated successfully"@, "隧道更新成功"@),
{
    t(lang, "Tunnel updated successfully", "隧道更新成功")
}

/// `Tunnel deleted successfully`
pub fn deleted(lang: Lang) -> (r: &'static str)
    ensures
        r@ == pick(lang, "Tunnel deleted successfully"@, "隧道删除成功"@),
{
    t(lang, "Tunnel deleted successfully", "隧道删除成功")
}

/// `All tunnels deleted`
pub fn deleted_all(lang: Lang) -> (r: &'static str)
    ensures
        r@ == pick(lang, "All tunnels deleted"@, "所有隧道已删除"@),
{
    t(lang, "All tunnels deleted", "所有隧道已删除")
}

/// `Default tunnel set to`
pub fn default_set(lang: Lang) -> (r: &'static str)
    ensures
        r@ == pick(lang, "Default tunnel set to"@, "默认隧道已设置为"@),
{
    t(lang, "Default tunnel set to", "默认隧道已设置为")
}

/// `Default tunnel unset`
pub fn default_unset(lang: Lang) -> (r: &'static str)
    ensures
        r@ == pick(lang, "Default tunnel unset"@, "默认隧道已清除"@),
{
    t(lang, "Default tunnel unset", "默认隧道已清除")
}

/// `Default tunnel cleared as the tunnel was deleted`
pub fn default_cleared(lang: Lang) -> (r: &'static str)
    ensures
        r@ == pick(lang, "Default tunnel cleared as the tunnel was deleted"@, "默认隧道已随隧道删除而清除"@),
{
    t(lang, "Default tunnel cleared as the tunnel was deleted", "默认隧道已随隧道删除而清除")
}

/// `Scope`
pub fn scope(lang: Lang) -> (r: &'static str)
    ensures
        r@ == pick(lang, "Scope"@, "范围"@),
{
    t(lang, "Scope", "范围")
}

/// `Token`
pub fn token(lang: Lang) -> (r: &'static str)
    ensures
        r@ == pick(lang, "Token"@, "令牌"@),
{
    t(lang, "Token", "令牌")
}

/// `Invalid tunnel name: only Chinese characters, digits, letters, hyphens allowed (hyphens cannot be at the beginning or end), length 1-64`
pub fn invalid_name(lang: Lang) -> (r: &'static str)
    ensures
        r@ == pick(lang, "Invalid tunnel name: only Chinese characters, digits, letters, hyphens allowed (hyphens cannot be at the beginning or end), length 1-64"@, "隧道名称格式无效: 仅中文、字母、数字、连字符(连字符不能在首尾)，长度1-64"@),
{
    t(lang, "Invalid tunnel name: only Chinese characters, digits, letters, hyphens allowed (hyphens cannot be at the beginning or end), length 1-64", "隧道名称格式无效: 仅中文、字母、数字、连字符(连字符不能在首尾)，长度1-64")
}

/// `Invalid tunnel description: only Chinese characters, digits, letters, length 0-64`
pub fn invalid_desc(lang: Lang) -> (r: &'static str)
    ensures
        r@ == pick(lang, "Invalid tunnel description: only Chinese characters, digits, letters, length 0-64"@, "隧道描述无效: 仅中文、字母、数字，长度0-64"@),
{
    t(lang, "Invalid tunnel description: only Chinese characters, digits, letters, length 0-64", "隧道描述无效: 仅中文、字母、数字，长度0-64")
}

/// `Invalid expiration (1-720 hours)`
pub fn invalid_exp(lang: Lang) -> (r: &'static str)
    ensures
        r@ == pick(lang, "Invalid expiration (1-720 hours)"@, "过期时间无效 (1-720小时)"@),
{
    t(lang, "Invalid expiration (1-720 hours)", "过期时间无效 (1-720小时)")
}

} // verus!
