//! Core of a mobile-data/voice quota monitor: snapshot data model,
//! sentinel-aware quantity resolution, snapshot diffing, template
//! substitution and the notification threshold policy.
pub mod data;
pub mod diff;
pub mod notify;
pub mod online;
pub mod numfmt;
pub mod query;
pub mod strutil;
pub mod template;
pub mod timefmt;

use vstd::prelude::*;

verus! {

/// Largest magnitude (in hundredths of a unit) any quota quantity may take.
/// Keeps every sum and difference of a handful of quantities well inside `i64`.
pub const MAX_QUANTITY: i64 = 1_000_000_000_000;

/// The built-in snapshot-only template.
pub open spec fn default_format_text() -> Seq<char> {
    "[时间] [套餐名称]%0a流量: 已用[流量总用量]/共[流量总量], 余[流量总余量]%0a通话: 已用[通话总用量]/共[通话总量], 余[通话总余量]"@
}

/// The built-in snapshot-only template.
pub fn default_format() -> (s: &'static str)
    ensures
        s@ == default_format_text(),
{
    "[时间] [套餐名称]%0a流量: 已用[流量总用量]/共[流量总量], 余[流量总余量]%0a通话: 已用[通话总用量]/共[通话总量], 余[通话总余量]"
}

/// The built-in delta template.
pub open spec fn default_format_with_last_text() -> Seq<char> {
    "[区间时长] 用流量[区间流量总用量](免[区间流量免费用量], 收[区间流量收费用量])%0a流量余[流量总余量], 通话余[通话总余量]"@
}

/// The built-in delta template.
pub fn default_format_with_last() -> (s: &'static str)
    ensures
        s@ == default_format_with_last_text(),
{
    "[区间时长] 用流量[区间流量总用量](免[区间流量免费用量], 收[区间流量收费用量])%0a流量余[流量总余量], 通话余[通话总余量]"
}

} // verus!
