//! Messages of login and logout.
use vstd::prelude::*;
use crate::cli::i18n::{pick, t, Lang};

verus! {

/// `Login successful`
pub fn login_success(lang: Lang) -> (r: &'static str)
    ensures
        r@ == pick(lang, "Login successful"@, "登录成功"@),
{
    t(lang, "Login successful", "登录成功")
}

/// `Logout successful`
pub fn logout_success(lang: Lang) -> (r: &'static str)
    ensures
        r@ == pick(lang, "Logout successful"@, "注销成功"@),
{
    t(lang, "Logout successful", "注销成功")
}

/// `Not logged in`
pub fn not_logged_in(lang: Lang) -> (r: &'static str)
    ensures
        r@ == pick(lang, "Not logged in"@, "未登录"@),
{
    t(lang, "Not logged in", "未登录")
}

/// `Logged in (Huawei Cloud IAM)`
pub fn logged_in(lang: Lang) -> (r: &'static str)
    ensures
        r@ == pick(lang, "Logged in (Huawei Cloud IAM)"@, "已登录 (华为云 IAM)"@),
{
    t(lang, "Logged in (Huawei Cloud IAM)", "已登录 (华为云 IAM)")
}

/// `User Name`
pub fn user_name(lang: Lang) -> (r: &'static str)
    ensures
        r@ == pick(lang, "User Name"@, "用户名"@),
{
    t(lang, "User Name", "用户名")
}

/// `Opening browser...`
pub fn open_browser(lang: Lang) -> (r: &'static str)
    ensures
        r@ == pick(lang, "Opening browser..."@, "正在打开浏览器..."@),
{
    t(lang, "Opening browser...", "正在打开浏览器...")
}

/// `Browser opened, please complete login in browser`
pub fn browser_opened(lang: Lang) -> (r: &'static str)
    ensures
        r@ == pick(lang, "Browser opened, please complete login in browser"@, "浏览器已打开，请在浏览器中完成登录"@),
{
    t(lang, "Browser opened, please complete login in browser", "浏览器已打开，请在浏览器中完成登录")
}

} // verus!
