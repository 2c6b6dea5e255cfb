//! The quota snapshot value type and the rendering of its quantities:
//! sentinel-aware resolution of totals and remainders, and the two
//! template-driven message renderers (snapshot-only and delta).
//!
//! Flow quantities are held in hundredths of a gigabyte, voice quantities
//! in whole minutes; both render with exactly two fractional digits.
use crate::numfmt::{centi_str, dec_str, digit_char, int_str, format_centi, i64_dec, lemma_dec_str_first};
use crate::template::{render, render_text, table_ok, has_empty, has_dup, pats_of, reps_of, lemma_binding_concat, TemplateError};
use crate::timefmt::{duration_str, format_datetime, format_duration, SnapshotTime};
use crate::MAX_QUANTITY;
use vstd::prelude::*;

verus! {

/// The display text standing for an allowance with no enforceable cap.
pub open spec fn sentinel_str() -> Seq<char> {
    "无限"@
}

/// A flow magnitude: two-decimal gigabytes, as in `7.00G`.
pub open spec fn flow_qty_str(v: int) -> Seq<char> {
    centi_str(v) + "G"@
}

/// A voice magnitude: minutes with two (always zero) decimals, as in
/// `30.00分钟`.
pub open spec fn voice_qty_str(v: int) -> Seq<char> {
    int_str(v) + ".00分钟"@
}

/// A magnitude with the unit suffix of its family.
pub open spec fn qty_str(v: int, flow: bool) -> Seq<char> {
    if flow {
        flow_qty_str(v)
    } else {
        voice_qty_str(v)
    }
}

/// An allowance family shows usage against a zero declared total: the
/// account consumes it without any enforceable cap.
pub open spec fn exhausted(total: int, used: int) -> bool {
    total == 0 && used > 0
}

/// The resolved overall total of the two families (capped `lt`/`lu`,
/// uncapped `nt`/`nu`).
pub open spec fn resolved_total(lt: int, nt: int, lu: int, nu: int, flow: bool) -> Seq<char> {
    if exhausted(lt, lu) && exhausted(nt, nu) {
        sentinel_str()
    } else if exhausted(lt, lu) {
        qty_str(nt, flow)
    } else if exhausted(nt, nu) {
        qty_str(lt, flow)
    } else {
        qty_str(lt + nt, flow)
    }
}

/// The resolved total of the uncapped family alone.
pub open spec fn resolved_non_limit_total(lt: int, nt: int, lu: int, nu: int, flow: bool) -> Seq<
    char,
> {
    if exhausted(nt, nu) {
        sentinel_str()
    } else {
        qty_str(nt, flow)
    }
}

/// The resolved total of the capped family alone.
pub open spec fn resolved_limit_total(lt: int, nt: int, lu: int, nu: int, flow: bool) -> Seq<
    char,
> {
    if exhausted(lt, lu) {
        sentinel_str()
    } else {
        qty_str(lt, flow)
    }
}

/// The resolved overall remaining quantity.  A negative remainder is
/// rendered as-is; only deltas are ever clamped, never absolute values.
pub open spec fn resolved_remaining(lt: int, nt: int, lu: int, nu: int, flow: bool) -> Seq<char> {
    if exhausted(lt, lu) && exhausted(nt, nu) {
        sentinel_str()
    } else if exhausted(lt, lu) {
        qty_str(nt - nu, flow)
    } else if exhausted(nt, nu) {
        qty_str(lt - lu, flow)
    } else {
        qty_str(lt + nt - lu - nu, flow)
    }
}

/// The resolved remaining quantity of the uncapped family alone.
pub open spec fn resolved_non_limit_remaining(
    lt: int,
    nt: int,
    lu: int,
    nu: int,
    flow: bool,
) -> Seq<char> {
    if exhausted(nt, nu) {
        sentinel_str()
    } else {
        qty_str(nt - nu, flow)
    }
}

/// The resolved remaining quantity of the capped family alone.
pub open spec fn resolved_limit_remaining(lt: int, nt: int, lu: int, nu: int, flow: bool) -> Seq<
    char,
> {
    if exhausted(lt, lu) {
        sentinel_str()
    } else {
        qty_str(lt - lu, flow)
    }
}

/// The delta of an accumulating quantity between two snapshots, floored at
/// zero so that clock skew or counter resets never show negative usage.
pub open spec fn clamped_delta(cur: int, reference: int) -> int {
    if cur >= reference {
        cur - reference
    } else {
        0
    }
}

/// A rendered magnitude is never the unlimited sentinel: it opens with a
/// digit or a minus sign, the sentinel does not.
pub proof fn lemma_qty_not_sentinel(v: int, flow: bool)
    ensures
        qty_str(v, flow) != sentinel_str(),
{
    reveal_strlit("无限");
    assert(sentinel_str()[0] == '无');
    if v < 0 {
        assert(qty_str(v, flow)[0] == '-');
    } else {
        let head: nat = if flow {
            (v / 100) as nat
        } else {
            v as nat
        };
        lemma_dec_str_first(head);
        let d = choose|d: int| 0 <= d < 10 && dec_str(head)[0] == digit_char(d);
        assert(qty_str(v, flow)[0] == digit_char(d));
        assert(digit_char(d) != '无');
    }
}

/// With both families' declared totals positive, no resolved quantity is
/// ever the unlimited sentinel, whatever was used.
pub proof fn lemma_no_sentinel_when_totals_positive(
    lt: int,
    nt: int,
    lu: int,
    nu: int,
    flow: bool,
)
    requires
        lt > 0,
        nt > 0,
    ensures
        resolved_total(lt, nt, lu, nu, flow) != sentinel_str(),
        resolved_non_limit_total(lt, nt, lu, nu, flow) != sentinel_str(),
        resolved_limit_total(lt, nt, lu, nu, flow) != sentinel_str(),
        resolved_remaining(lt, nt, lu, nu, flow) != sentinel_str(),
        resolved_non_limit_remaining(lt, nt, lu, nu, flow) != sentinel_str(),
        resolved_limit_remaining(lt, nt, lu, nu, flow) != sentinel_str(),
{
    lemma_qty_not_sentinel(lt + nt, flow);
    lemma_qty_not_sentinel(nt, flow);
    lemma_qty_not_sentinel(lt, flow);
    lemma_qty_not_sentinel(lt + nt - lu - nu, flow);
    lemma_qty_not_sentinel(nt - nu, flow);
    lemma_qty_not_sentinel(lt - lu, flow);
}

/// With both families exhausted (zero declared totals, positive usage),
/// every resolved quantity is the unlimited sentinel.
pub proof fn lemma_all_sentinel_when_both_exhausted(
    lt: int,
    nt: int,
    lu: int,
    nu: int,
    flow: bool,
)
    requires
        lt == 0,
        lu > 0,
        nt == 0,
        nu > 0,
    ensures
        resolved_total(lt, nt, lu, nu, flow) == sentinel_str(),
        resolved_non_limit_total(lt, nt, lu, nu, flow) == sentinel_str(),
        resolved_limit_total(lt, nt, lu, nu, flow) == sentinel_str(),
        resolved_remaining(lt, nt, lu, nu, flow) == sentinel_str(),
        resolved_non_limit_remaining(lt, nt, lu, nu, flow) == sentinel_str(),
        resolved_limit_remaining(lt, nt, lu, nu, flow) == sentinel_str(),
{
}

fn unlimited() -> (s: String)
    ensures
        s@ == sentinel_str(),
{
    "无限".to_owned()
}

/// A flow magnitude with its unit suffix.
pub fn flow_qty(v: i64) -> (s: String)
    requires
        v > i64::MIN,
    ensures
        s@ == flow_qty_str(v as int),
{
    let mut s = format_centi(v);
    s.append("G");
    s
}

/// A voice magnitude with its unit suffix.
pub fn voice_qty(v: i64) -> (s: String)
    requires
        v > i64::MIN,
    ensures
        s@ == voice_qty_str(v as int),
{
    let mut s = i64_dec(v);
    s.append(".00分钟");
    s
}

/// Resolves the six displayed flow quantities from the capped
/// (`limit_total`/`limit_used`) and uncapped (`non_limit_total`/
/// `non_limited_used`) flow sub-allowances, all in hundredths of a
/// gigabyte: (total, uncapped total, capped total, total remaining,
/// uncapped remaining, capped remaining).  A family with usage against a
/// zero declared total collapses to the unlimited sentinel.
pub fn parse_infinate_flow(
    limit_total: i64,
    non_limit_total: i64,
    limit_used: i64,
    non_limited_used: i64,
) -> (r: (String, String, String, String, String, String))
    requires
        0 <= limit_total <= MAX_QUANTITY,
        0 <= non_limit_total <= MAX_QUANTITY,
        0 <= limit_used <= MAX_QUANTITY,
        0 <= non_limited_used <= MAX_QUANTITY,
    ensures
        r.0@ == resolved_total(
            limit_total as int,
            non_limit_total as int,
            limit_used as int,
            non_limited_used as int,
            true,
        ),
        r.1@ == resolved_non_limit_total(
            limit_total as int,
            non_limit_total as int,
            limit_used as int,
            non_limited_used as int,
            true,
        ),
        r.2@ == resolved_limit_total(
            limit_total as int,
            non_limit_total as int,
            limit_used as int,
            non_limited_used as int,
            true,
        ),
        r.3@ == resolved_remaining(
            limit_total as int,
            non_limit_total as int,
            limit_used as int,
            non_limited_used as int,
            true,
        ),
        r.4@ == resolved_non_limit_remaining(
            limit_total as int,
            non_limit_total as int,
            limit_used as int,
            non_limited_used as int,
            true,
        ),
        r.5@ == resolved_limit_remaining(
            limit_total as int,
            non_limit_total as int,
            limit_used as int,
            non_limited_used as int,
            true,
        ),
{
    if limit_total == 0 && limit_used > 0 {
        if non_limit_total == 0 && non_limited_used > 0 {
            (unlimited(), unlimited(), unlimited(), unlimited(), unlimited(), unlimited())
        } else {
            (
                flow_qty(non_limit_total),
                flow_qty(non_limit_total),
                unlimited(),
                flow_qty(non_limit_total - non_limited_used),
                flow_qty(non_limit_total - non_limited_used),
                unlimited(),
            )
        }
    } else {
        if non_limit_total == 0 && non_limited_used > 0 {
            (
                flow_qty(limit_total),
                unlimited(),
                flow_qty(limit_total),
                flow_qty(limit_total - limit_used),
                unlimited(),
                flow_qty(limit_total - limit_used),
            )
        } else {
            (
                flow_qty(limit_total + non_limit_total),
                flow_qty(non_limit_total),
                flow_qty(limit_total),
                flow_qty(limit_total + non_limit_total - non_limited_used - limit_used),
                flow_qty(non_limit_total - non_limited_used),
                flow_qty(limit_total - limit_used),
            )
        }
    }
}

/// Resolves the six displayed voice quantities, in whole minutes; same
/// contract as the flow resolver with the minutes unit.
pub fn parse_infinate_voice(
    limit_total: i64,
    non_limit_total: i64,
    limit_used: i64,
    non_limited_used: i64,
) -> (r: (String, String, String, String, String, String))
    requires
        0 <= limit_total <= MAX_QUANTITY,
        0 <= non_limit_total <= MAX_QUANTITY,
        0 <= limit_used <= MAX_QUANTITY,
        0 <= non_limited_used <= MAX_QUANTITY,
    ensures
        r.0@ == resolved_total(
            limit_total as int,
            non_limit_total as int,
            limit_used as int,
            non_limited_used as int,
            false,
        ),
        r.1@ == resolved_non_limit_total(
            limit_total as int,
            non_limit_total as int,
            limit_used as int,
            non_limited_used as int,
            false,
        ),
        r.2@ == resolved_limit_total(
            limit_total as int,
            non_limit_total as int,
            limit_used as int,
            non_limited_used as int,
            false,
        ),
        r.3@ == resolved_remaining(
            limit_total as int,
            non_limit_total as int,
            limit_used as int,
            non_limited_used as int,
            false,
        ),
        r.4@ == resolved_non_limit_remaining(
            limit_total as int,
            non_limit_total as int,
            limit_used as int,
            non_limited_used as int,
            false,
        ),
        r.5@ == resolved_limit_remaining(
            limit_total as int,
            non_limit_total as int,
            limit_used as int,
            non_limited_used as int,
            false,
        ),
{
    if limit_total == 0 && limit_used > 0 {
        if non_limit_total == 0 && non_limited_used > 0 {
            (unlimited(), unlimited(), unlimited(), unlimited(), unlimited(), unlimited())
        } else {
            (
                voice_qty(non_limit_total),
                voice_qty(non_limit_total),
                unlimited(),
                voice_qty(non_limit_total - non_limited_used),
                voice_qty(non_limit_total - non_limited_used),
                unlimited(),
            )
        }
    } else {
        if non_limit_total == 0 && non_limited_used > 0 {
            (
                voice_qty(limit_total),
                unlimited(),
                voice_qty(limit_total),
                voice_qty(limit_total - limit_used),
                unlimited(),
                voice_qty(limit_total - limit_used),
            )
        } else {
            (
                voice_qty(limit_total + non_limit_total),
                voice_qty(non_limit_total),
                voice_qty(limit_total),
                voice_qty(limit_total + non_limit_total - non_limited_used - limit_used),
                voice_qty(non_limit_total - non_limited_used),
                voice_qty(limit_total - limit_used),
            )
        }
    }
}

/// One timestamped reading of every quota quantity of an account.  Flow
/// fields are hundredths of a gigabyte, voice fields whole minutes.  Built
/// once per poll and never mutated; diffing takes two snapshots by
/// reference.
#[derive(Clone, Debug, Default, PartialEq)]
pub struct ChinaUnicomData {
    pub package_name: String,
    pub time: SnapshotTime,
    pub sum_flow_used: i64,
    pub limit_flow_used: i64,
    pub non_limit_flow_used: i64,
    pub free_flow_used: i64,
    pub non_free_flow_used: i64,
    pub sum_flow: i64,
    pub limit_flow: i64,
    pub non_limit_flow: i64,
    pub sum_voice_used: i64,
    pub limit_voice_used: i64,
    pub non_limit_voice_used: i64,
    pub sum_voice: i64,
    pub limit_voice: i64,
    pub non_limit_voice: i64,
}

impl ChinaUnicomData {
    /// Every quantity non-negative and bounded, and the capture instant
    /// well-formed: what any snapshot read from the account satisfies.
    pub open spec fn wf(self) -> bool {
        &&& 0 <= self.sum_flow_used <= MAX_QUANTITY
        &&& 0 <= self.limit_flow_used <= MAX_QUANTITY
        &&& 0 <= self.non_limit_flow_used <= MAX_QUANTITY
        &&& 0 <= self.free_flow_used <= MAX_QUANTITY
        &&& 0 <= self.non_free_flow_used <= MAX_QUANTITY
        &&& 0 <= self.sum_flow <= MAX_QUANTITY
        &&& 0 <= self.limit_flow <= MAX_QUANTITY
        &&& 0 <= self.non_limit_flow <= MAX_QUANTITY
        &&& 0 <= self.sum_voice_used <= MAX_QUANTITY
        &&& 0 <= self.limit_voice_used <= MAX_QUANTITY
        &&& 0 <= self.non_limit_voice_used <= MAX_QUANTITY
        &&& 0 <= self.sum_voice <= MAX_QUANTITY
        &&& 0 <= self.limit_voice <= MAX_QUANTITY
        &&& 0 <= self.non_limit_voice <= MAX_QUANTITY
        &&& self.time.wf()
    }

    /// The replacement text of each snapshot-only placeholder, in table
    /// order.
    pub open spec fn snapshot_reps(self) -> Seq<Seq<char>> {
        let lf = self.limit_flow as int;
        let nf = self.non_limit_flow as int;
        let lfu = self.limit_flow_used as int;
        let nfu = self.non_limit_flow_used as int;
        let lv = self.limit_voice as int;
        let nv = self.non_limit_voice as int;
        let lvu = self.limit_voice_used as int;
        let nvu = self.non_limit_voice_used as int;
        seq![
            self.time.rendered(),
            resolved_total(lf, nf, lfu, nfu, true),
            resolved_limit_total(lf, nf, lfu, nfu, true),
            resolved_non_limit_total(lf, nf, lfu, nfu, true),
            flow_qty_str(self.sum_flow_used as int),
            flow_qty_str(self.free_flow_used as int),
            flow_qty_str(self.non_free_flow_used as int),
            flow_qty_str(self.limit_flow_used as int),
            flow_qty_str(self.non_limit_flow_used as int),
            voice_qty_str(self.sum_voice_used as int),
            voice_qty_str(self.limit_voice_used as int),
            voice_qty_str(self.non_limit_voice_used as int),
            resolved_total(lv, nv, lvu, nvu, false),
            resolved_limit_total(lv, nv, lvu, nvu, false),
            resolved_non_limit_total(lv, nv, lvu, nvu, false),
            resolved_remaining(lf, nf, lfu, nfu, true),
            resolved_limit_remaining(lf, nf, lfu, nfu, true),
            resolved_non_limit_remaining(lf, nf, lfu, nfu, true),
            resolved_remaining(lv, nv, lvu, nvu, false),
            resolved_limit_remaining(lv, nv, lvu, nvu, false),
            resolved_non_limit_remaining(lv, nv, lvu, nvu, false),
            self.package_name@,
        ]
    }

    /// The replacement text of each delta placeholder against a reference
    /// snapshot, in table order.
    pub open spec fn delta_reps(self, last: ChinaUnicomData) -> Seq<Seq<char>> {
        seq![
            duration_str(self.time.unix_seconds - last.time.unix_seconds),
            flow_qty_str(clamped_delta(self.sum_flow_used as int, last.sum_flow_used as int)),
            flow_qty_str(clamped_delta(self.free_flow_used as int, last.free_flow_used as int)),
            flow_qty_str(
                clamped_delta(self.non_free_flow_used as int, last.non_free_flow_used as int),
            ),
            voice_qty_str(clamped_delta(self.sum_voice_used as int, last.sum_voice_used as int)),
            voice_qty_str(
                clamped_delta(self.limit_voice_used as int, last.limit_voice_used as int),
            ),
            voice_qty_str(
                clamped_delta(self.non_limit_voice_used as int, last.non_limit_voice_used as int),
            ),
        ]
    }

    /// The replacement texts of a delta rendering: the delta replacements
    /// ahead of the whole snapshot-only list.
    pub open spec fn with_last_reps(self, last: ChinaUnicomData) -> Seq<Seq<char>> {
        self.delta_reps(last) + self.snapshot_reps()
    }
}

/// The placeholder vocabulary of a snapshot-only rendering, in table order.
pub open spec fn snapshot_pats() -> Seq<Seq<char>> {
    seq![
        "[时间]"@,
        "[流量总量]"@,
        "[流量定向总量]"@,
        "[流量通用总量]"@,
        "[流量总用量]"@,
        "[流量免费用量]"@,
        "[流量收费用量]"@,
        "[流量定向用量]"@,
        "[流量通用用量]"@,
        "[通话总用量]"@,
        "[通话定向用量]"@,
        "[通话通用用量]"@,
        "[通话总量]"@,
        "[通话定向总量]"@,
        "[通话通用总量]"@,
        "[流量总余量]"@,
        "[流量定向余量]"@,
        "[流量通用余量]"@,
        "[通话总余量]"@,
        "[通话定向余量]"@,
        "[通话通用余量]"@,
        "[套餐名称]"@,
    ]
}

/// The delta placeholders, in table order.
pub open spec fn delta_pats() -> Seq<Seq<char>> {
    seq![
        "[区间时长]"@,
        "[区间流量总用量]"@,
        "[区间流量免费用量]"@,
        "[区间流量收费用量]"@,
        "[区间通话总用量]"@,
        "[区间通话定向用量]"@,
        "[区间通话通用用量]"@,
    ]
}

/// The placeholder vocabulary of a delta rendering: the delta placeholders
/// ahead of the whole snapshot-only vocabulary.
pub open spec fn with_last_pats() -> Seq<Seq<char>> {
    delta_pats() + snapshot_pats()
}


/// The fixed snapshot-only vocabulary is well-formed: every placeholder
/// non-empty, no two alike; rendering with it never fails.
#[verifier::rlimit(100)]
pub proof fn lemma_snapshot_table_ok()
    ensures
        table_ok(snapshot_pats()),
{
    reveal_strlit("[时间]");
    reveal_strlit("[流量总量]");
    reveal_strlit("[流量定向总量]");
    reveal_strlit("[流量通用总量]");
    reveal_strlit("[流量总用量]");
    reveal_strlit("[流量免费用量]");
    reveal_strlit("[流量收费用量]");
    reveal_strlit("[流量定向用量]");
    reveal_strlit("[流量通用用量]");
    reveal_strlit("[通话总用量]");
    reveal_strlit("[通话定向用量]");
    reveal_strlit("[通话通用用量]");
    reveal_strlit("[通话总量]");
    reveal_strlit("[通话定向总量]");
    reveal_strlit("[通话通用总量]");
    reveal_strlit("[流量总余量]");
    reveal_strlit("[流量定向余量]");
    reveal_strlit("[流量通用余量]");
    reveal_strlit("[通话总余量]");
    reveal_strlit("[通话定向余量]");
    reveal_strlit("[通话通用余量]");
    reveal_strlit("[套餐名称]");
    let p = snapshot_pats();
    assert(!has_empty(p));
    assert(("[时间]"@).len() == 4);
    assert(("[流量总量]"@).len() == 6);
    assert(("[流量定向总量]"@).len() == 8);
    assert(("[流量通用总量]"@).len() == 8);
    assert(("[流量总用量]"@).len() == 7);
    assert(("[流量免费用量]"@).len() == 8);
    assert(("[流量收费用量]"@).len() == 8);
    assert(("[流量定向用量]"@).len() == 8);
    assert(("[流量通用用量]"@).len() == 8);
    assert(("[通话总用量]"@).len() == 7);
    assert(("[通话定向用量]"@).len() == 8);
    assert(("[通话通用用量]"@).len() == 8);
    assert(("[通话总量]"@).len() == 6);
    assert(("[通话定向总量]"@).len() == 8);
    assert(("[通话通用总量]"@).len() == 8);
    assert(("[流量总余量]"@).len() == 7);
    assert(("[流量定向余量]"@).len() == 8);
    assert(("[流量通用余量]"@).len() == 8);
    assert(("[通话总余量]"@).len() == 7);
    assert(("[通话定向余量]"@).len() == 8);
    assert(("[通话通用余量]"@).len() == 8);
    assert(("[套餐名称]"@).len() == 6);
    assert(("[流量总量]"@)[1] == '流');
    assert(("[通话总量]"@)[1] == '通');
    assert(("[套餐名称]"@)[1] == '套');
    assert(("[流量定向总量]"@)[3] == '定');
    assert(("[流量通用总量]"@)[3] == '通');
    assert(("[流量免费用量]"@)[3] == '免');
    assert(("[流量收费用量]"@)[3] == '收');
    assert(("[流量定向总量]"@)[5] == '总');
    assert(("[流量定向用量]"@)[5] == '用');
    assert(("[流量通用用量]"@)[3] == '通');
    assert(("[流量定向总量]"@)[1] == '流');
    assert(("[通话定向用量]"@)[1] == '通');
    assert(("[通话通用用量]"@)[1] == '通');
    assert(("[通话定向总量]"@)[1] == '通');
    assert(("[通话通用总量]"@)[1] == '通');
    assert(("[流量定向余量]"@)[5] == '余');
    assert(("[流量通用余量]"@)[3] == '通');
    assert(("[通话定向余量]"@)[1] == '通');
    assert(("[通话通用余量]"@)[1] == '通');
    assert(("[流量定向用量]"@)[3] == '定');
    assert(("[流量通用总量]"@)[5] == '总');
    assert(("[流量通用用量]"@)[5] == '用');
    assert(("[流量通用总量]"@)[1] == '流');
    assert(("[流量定向余量]"@)[3] == '定');
    assert(("[流量通用余量]"@)[5] == '余');
    assert(("[流量总用量]"@)[1] == '流');
    assert(("[通话总用量]"@)[1] == '通');
    assert(("[流量总用量]"@)[4] == '用');
    assert(("[流量总余量]"@)[4] == '余');
    assert(("[通话总余量]"@)[1] == '通');
    assert(("[流量免费用量]"@)[1] == '流');
    assert(("[流量收费用量]"@)[1] == '流');
    assert(("[流量定向用量]"@)[1] == '流');
    assert(("[流量通用用量]"@)[1] == '流');
    assert(("[流量总余量]"@)[1] == '流');
    assert(("[通话总用量]"@)[4] == '用');
    assert(("[通话总余量]"@)[4] == '余');
    assert(("[通话定向用量]"@)[3] == '定');
    assert(("[通话通用用量]"@)[3] == '通');
    assert(("[通话定向用量]"@)[5] == '用');
    assert(("[通话定向总量]"@)[5] == '总');
    assert(("[通话通用总量]"@)[3] == '通');
    assert(("[流量定向余量]"@)[1] == '流');
    assert(("[流量通用余量]"@)[1] == '流');
    assert(("[通话定向余量]"@)[5] == '余');
    assert(("[通话通用余量]"@)[3] == '通');
    assert(("[通话定向总量]"@)[3] == '定');
    assert(("[通话通用用量]"@)[5] == '用');
    assert(("[通话通用总量]"@)[5] == '总');
    assert(("[通话定向余量]"@)[3] == '定');
    assert(("[通话通用余量]"@)[5] == '余');
    assert("[时间]"@ != "[流量总量]"@ && "[时间]"@ != "[流量定向总量]"@ && "[时间]"@ != "[流量通用总量]"@ && "[时间]"@ != "[流量总用量]"@ && "[时间]"@ != "[流量免费用量]"@ && "[时间]"@ != "[流量收费用量]"@ && "[时间]"@ != "[流量定向用量]"@ && "[时间]"@ != "[流量通用用量]"@ && "[时间]"@ != "[通话总用量]"@ && "[时间]"@ != "[通话定向用量]"@ && "[时间]"@ != "[通话通用用量]"@ && "[时间]"@ != "[通话总量]"@ && "[时间]"@ != "[通话定向总量]"@ && "[时间]"@ != "[通话通用总量]"@ && "[时间]"@ != "[流量总余量]"@ && "[时间]"@ != "[流量定向余量]"@ && "[时间]"@ != "[流量通用余量]"@ && "[时间]"@ != "[通话总余量]"@ && "[时间]"@ != "[通话定向余量]"@ && "[时间]"@ != "[通话通用余量]"@ && "[时间]"@ != "[套餐名称]"@);
    assert("[流量总量]"@ != "[流量定向总量]"@ && "[流量总量]"@ != "[流量通用总量]"@ && "[流量总量]"@ != "[流量总用量]"@ && "[流量总量]"@ != "[流量免费用量]"@ && "[流量总量]"@ != "[流量收费用量]"@ && "[流量总量]"@ != "[流量定向用量]"@ && "[流量总量]"@ != "[流量通用用量]"@ && "[流量总量]"@ != "[通话总用量]"@ && "[流量总量]"@ != "[通话定向用量]"@ && "[流量总量]"@ != "[通话通用用量]"@ && "[流量总量]"@ != "[通话总量]"@ && "[流量总量]"@ != "[通话定向总量]"@ && "[流量总量]"@ != "[通话通用总量]"@ && "[流量总量]"@ != "[流量总余量]"@ && "[流量总量]"@ != "[流量定向余量]"@ && "[流量总量]"@ != "[流量通用余量]"@ && "[流量总量]"@ != "[通话总余量]"@ && "[流量总量]"@ != "[通话定向余量]"@ && "[流量总量]"@ != "[通话通用余量]"@ && "[流量总量]"@ != "[套餐名称]"@);
    assert("[流量定向总量]"@ != "[流量通用总量]"@ && "[流量定向总量]"@ != "[流量总用量]"@ && "[流量定向总量]"@ != "[流量免费用量]"@ && "[流量定向总量]"@ != "[流量收费用量]"@ && "[流量定向总量]"@ != "[流量定向用量]"@ && "[流量定向总量]"@ != "[流量通用用量]"@ && "[流量定向总量]"@ != "[通话总用量]"@ && "[流量定向总量]"@ != "[通话定向用量]"@ && "[流量定向总量]"@ != "[通话通用用量]"@ && "[流量定向总量]"@ != "[通话总量]"@ && "[流量定向总量]"@ != "[通话定向总量]"@ && "[流量定向总量]"@ != "[通话通用总量]"@ && "[流量定向总量]"@ != "[流量总余量]"@ && "[流量定向总量]"@ != "[流量定向余量]"@ && "[流量定向总量]"@ != "[流量通用余量]"@ && "[流量定向总量]"@ != "[通话总余量]"@ && "[流量定向总量]"@ != "[通话定向余量]"@ && "[流量定向总量]"@ != "[通话通用余量]"@ && "[流量定向总量]"@ != "[套餐名称]"@);
    assert("[流量通用总量]"@ != "[流量总用量]"@ && "[流量通用总量]"@ != "[流量免费用量]"@ && "[流量通用总量]"@ != "[流量收费用量]"@ && "[流量通用总量]"@ != "[流量定向用量]"@ && "[流量通用总量]"@ != "[流量通用用量]"@ && "[流量通用总量]"@ != "[通话总用量]"@ && "[流量通用总量]"@ != "[通话定向用量]"@ && "[流量通用总量]"@ != "[通话通用用量]"@ && "[流量通用总量]"@ != "[通话总量]"@ && "[流量通用总量]"@ != "[通话定向总量]"@ && "[流量通用总量]"@ != "[通话通用总量]"@ && "[流量通用总量]"@ != "[流量总余量]"@ && "[流量通用总量]"@ != "[流量定向余量]"@ && "[流量通用总量]"@ != "[流量通用余量]"@ && "[流量通用总量]"@ != "[通话总余量]"@ && "[流量通用总量]"@ != "[通话定向余量]"@ && "[流量通用总量]"@ != "[通话通用余量]"@ && "[流量通用总量]"@ != "[套餐名称]"@);
    assert("[流量总用量]"@ != "[流量免费用量]"@ && "[流量总用量]"@ != "[流量收费用量]"@ && "[流量总用量]"@ != "[流量定向用量]"@ && "[流量总用量]"@ != "[流量通用用量]"@ && "[流量总用量]"@ != "[通话总用量]"@ && "[流量总用量]"@ != "[通话定向用量]"@ && "[流量总用量]"@ != "[通话通用用量]"@ && "[流量总用量]"@ != "[通话总量]"@ && "[流量总用量]"@ != "[通话定向总量]"@ && "[流量总用量]"@ != "[通话通用总量]"@ && "[流量总用量]"@ != "[流量总余量]"@ && "[流量总用量]"@ != "[流量定向余量]"@ && "[流量总用量]"@ != "[流量通用余量]"@ && "[流量总用量]"@ != "[通话总余量]"@ && "[流量总用量]"@ != "[通话定向余量]"@ && "[流量总用量]"@ != "[通话通用余量]"@ && "[流量总用量]"@ != "[套餐名称]"@);
    assert("[流量免费用量]"@ != "[流量收费用量]"@ && "[流量免费用量]"@ != "[流量定向用量]"@ && "[流量免费用量]"@ != "[流量通用用量]"@ && "[流量免费用量]"@ != "[通话总用量]"@ && "[流量免费用量]"@ != "[通话定向用量]"@ && "[流量免费用量]"@ != "[通话通用用量]"@ && "[流量免费用量]"@ != "[通话总量]"@ && "[流量免费用量]"@ != "[通话定向总量]"@ && "[流量免费用量]"@ != "[通话通用总量]"@ && "[流量免费用量]"@ != "[流量总余量]"@ && "[流量免费用量]"@ != "[流量定向余量]"@ && "[流量免费用量]"@ != "[流量通用余量]"@ && "[流量免费用量]"@ != "[通话总余量]"@ && "[流量免费用量]"@ != "[通话定向余量]"@ && "[流量免费用量]"@ != "[通话通用余量]"@ && "[流量免费用量]"@ != "[套餐名称]"@);
    assert("[流量收费用量]"@ != "[流量定向用量]"@ && "[流量收费用量]"@ != "[流量通用用量]"@ && "[流量收费用量]"@ != "[通话总用量]"@ && "[流量收费用量]"@ != "[通话定向用量]"@ && "[流量收费用量]"@ != "[通话通用用量]"@ && "[流量收费用量]"@ != "[通话总量]"@ && "[流量收费用量]"@ != "[通话定向总量]"@ && "[流量收费用量]"@ != "[通话通用总量]"@ && "[流量收费用量]"@ != "[流量总余量]"@ && "[流量收费用量]"@ != "[流量定向余量]"@ && "[流量收费用量]"@ != "[流量通用余量]"@ && "[流量收费用量]"@ != "[通话总余量]"@ && "[流量收费用量]"@ != "[通话定向余量]"@ && "[流量收费用量]"@ != "[通话通用余量]"@ && "[流量收费用量]"@ != "[套餐名称]"@);
    assert("[流量定向用量]"@ != "[流量通用用量]"@ && "[流量定向用量]"@ != "[通话总用量]"@ && "[流量定向用量]"@ != "[通话定向用量]"@ && "[流量定向用量]"@ != "[通话通用用量]"@ && "[流量定向用量]"@ != "[通话总量]"@ && "[流量定向用量]"@ != "[通话定向总量]"@ && "[流量定向用量]"@ != "[通话通用总量]"@ && "[流量定向用量]"@ != "[流量总余量]"@ && "[流量定向用量]"@ != "[流量定向余量]"@ && "[流量定向用量]"@ != "[流量通用余量]"@ && "[流量定向用量]"@ != "[通话总余量]"@ && "[流量定向用量]"@ != "[通话定向余量]"@ && "[流量定向用量]"@ != "[通话通用余量]"@ && "[流量定向用量]"@ != "[套餐名称]"@);
    assert("[流量通用用量]"@ != "[通话总用量]"@ && "[流量通用用量]"@ != "[通话定向用量]"@ && "[流量通用用量]"@ != "[通话通用用量]"@ && "[流量通用用量]"@ != "[通话总量]"@ && "[流量通用用量]"@ != "[通话定向总量]"@ && "[流量通用用量]"@ != "[通话通用总量]"@ && "[流量通用用量]"@ != "[流量总余量]"@ && "[流量通用用量]"@ != "[流量定向余量]"@ && "[流量通用用量]"@ != "[流量通用余量]"@ && "[流量通用用量]"@ != "[通话总余量]"@ && "[流量通用用量]"@ != "[通话定向余量]"@ && "[流量通用用量]"@ != "[通话通用余量]"@ && "[流量通用用量]"@ != "[套餐名称]"@);
    assert("[通话总用量]"@ != "[通话定向用量]"@ && "[通话总用量]"@ != "[通话通用用量]"@ && "[通话总用量]"@ != "[通话总量]"@ && "[通话总用量]"@ != "[通话定向总量]"@ && "[通话总用量]"@ != "[通话通用总量]"@ && "[通话总用量]"@ != "[流量总余量]"@ && "[通话总用量]"@ != "[流量定向余量]"@ && "[通话总用量]"@ != "[流量通用余量]"@ && "[通话总用量]"@ != "[通话总余量]"@ && "[通话总用量]"@ != "[通话定向余量]"@ && "[通话总用量]"@ != "[通话通用余量]"@ && "[通话总用量]"@ != "[套餐名称]"@);
    assert("[通话定向用量]"@ != "[通话通用用量]"@ && "[通话定向用量]"@ != "[通话总量]"@ && "[通话定向用量]"@ != "[通话定向总量]"@ && "[通话定向用量]"@ != "[通话通用总量]"@ && "[通话定向用量]"@ != "[流量总余量]"@ && "[通话定向用量]"@ != "[流量定向余量]"@ && "[通话定向用量]"@ != "[流量通用余量]"@ && "[通话定向用量]"@ != "[通话总余量]"@ && "[通话定向用量]"@ != "[通话定向余量]"@ && "[通话定向用量]"@ != "[通话通用余量]"@ && "[通话定向用量]"@ != "[套餐名称]"@);
    assert("[通话通用用量]"@ != "[通话总量]"@ && "[通话通用用量]"@ != "[通话定向总量]"@ && "[通话通用用量]"@ != "[通话通用总量]"@ && "[通话通用用量]"@ != "[流量总余量]"@ && "[通话通用用量]"@ != "[流量定向余量]"@ && "[通话通用用量]"@ != "[流量通用余量]"@ && "[通话通用用量]"@ != "[通话总余量]"@ && "[通话通用用量]"@ != "[通话定向余量]"@ && "[通话通用用量]"@ != "[通话通用余量]"@ && "[通话通用用量]"@ != "[套餐名称]"@);
    assert("[通话总量]"@ != "[通话定向总量]"@ && "[通话总量]"@ != "[通话通用总量]"@ && "[通话总量]"@ != "[流量总余量]"@ && "[通话总量]"@ != "[流量定向余量]"@ && "[通话总量]"@ != "[流量通用余量]"@ && "[通话总量]"@ != "[通话总余量]"@ && "[通话总量]"@ != "[通话定向余量]"@ && "[通话总量]"@ != "[通话通用余量]"@ && "[通话总量]"@ != "[套餐名称]"@);
    assert("[通话定向总量]"@ != "[通话通用总量]"@ && "[通话定向总量]"@ != "[流量总余量]"@ && "[通话定向总量]"@ != "[流量定向余量]"@ && "[通话定向总量]"@ != "[流量通用余量]"@ && "[通话定向总量]"@ != "[通话总余量]"@ && "[通话定向总量]"@ != "[通话定向余量]"@ && "[通话定向总量]"@ != "[通话通用余量]"@ && "[通话定向总量]"@ != "[套餐名称]"@);
    assert("[通话通用总量]"@ != "[流量总余量]"@ && "[通话通用总量]"@ != "[流量定向余量]"@ && "[通话通用总量]"@ != "[流量通用余量]"@ && "[通话通用总量]"@ != "[通话总余量]"@ && "[通话通用总量]"@ != "[通话定向余量]"@ && "[通话通用总量]"@ != "[通话通用余量]"@ && "[通话通用总量]"@ != "[套餐名称]"@);
    assert("[流量总余量]"@ != "[流量定向余量]"@ && "[流量总余量]"@ != "[流量通用余量]"@ && "[流量总余量]"@ != "[通话总余量]"@ && "[流量总余量]"@ != "[通话定向余量]"@ && "[流量总余量]"@ != "[通话通用余量]"@ && "[流量总余量]"@ != "[套餐名称]"@);
    assert("[流量定向余量]"@ != "[流量通用余量]"@ && "[流量定向余量]"@ != "[通话总余量]"@ && "[流量定向余量]"@ != "[通话定向余量]"@ && "[流量定向余量]"@ != "[通话通用余量]"@ && "[流量定向余量]"@ != "[套餐名称]"@);
    assert("[流量通用余量]"@ != "[通话总余量]"@ && "[流量通用余量]"@ != "[通话定向余量]"@ && "[流量通用余量]"@ != "[通话通用余量]"@ && "[流量通用余量]"@ != "[套餐名称]"@);
    assert("[通话总余量]"@ != "[通话定向余量]"@ && "[通话总余量]"@ != "[通话通用余量]"@ && "[通话总余量]"@ != "[套餐名称]"@);
    assert("[通话定向余量]"@ != "[通话通用余量]"@ && "[通话定向余量]"@ != "[套餐名称]"@);
    assert("[通话通用余量]"@ != "[套餐名称]"@);
    assert(!has_dup(p));
}

/// The fixed delta vocabulary is well-formed too.
#[verifier::rlimit(100)]
pub proof fn lemma_with_last_table_ok()
    ensures
        table_ok(with_last_pats()),
{
    reveal_strlit("[区间时长]");
    reveal_strlit("[区间流量总用量]");
    reveal_strlit("[区间流量免费用量]");
    reveal_strlit("[区间流量收费用量]");
    reveal_strlit("[区间通话总用量]");
    reveal_strlit("[区间通话定向用量]");
    reveal_strlit("[区间通话通用用量]");
    reveal_strlit("[时间]");
    reveal_strlit("[流量总量]");
    reveal_strlit("[流量定向总量]");
    reveal_strlit("[流量通用总量]");
    reveal_strlit("[流量总用量]");
    reveal_strlit("[流量免费用量]");
    reveal_strlit("[流量收费用量]");
    reveal_strlit("[流量定向用量]");
    reveal_strlit("[流量通用用量]");
    reveal_strlit("[通话总用量]");
    reveal_strlit("[通话定向用量]");
    reveal_strlit("[通话通用用量]");
    reveal_strlit("[通话总量]");
    reveal_strlit("[通话定向总量]");
    reveal_strlit("[通话通用总量]");
    reveal_strlit("[流量总余量]");
    reveal_strlit("[流量定向余量]");
    reveal_strlit("[流量通用余量]");
    reveal_strlit("[通话总余量]");
    reveal_strlit("[通话定向余量]");
    reveal_strlit("[通话通用余量]");
    reveal_strlit("[套餐名称]");
    let p = with_last_pats();
    assert(!has_empty(p));
    assert(("[区间时长]"@).len() == 6);
    assert(("[区间流量总用量]"@).len() == 9);
    assert(("[区间流量免费用量]"@).len() == 10);
    assert(("[区间流量收费用量]"@).len() == 10);
    assert(("[区间通话总用量]"@).len() == 9);
    assert(("[区间通话定向用量]"@).len() == 10);
    assert(("[区间通话通用用量]"@).len() == 10);
    assert(("[时间]"@).len() == 4);
    assert(("[流量总量]"@).len() == 6);
    assert(("[流量定向总量]"@).len() == 8);
    assert(("[流量通用总量]"@).len() == 8);
    assert(("[流量总用量]"@).len() == 7);
    assert(("[流量免费用量]"@).len() == 8);
    assert(("[流量收费用量]"@).len() == 8);
    assert(("[流量定向用量]"@).len() == 8);
    assert(("[流量通用用量]"@).len() == 8);
    assert(("[通话总用量]"@).len() == 7);
    assert(("[通话定向用量]"@).len() == 8);
    assert(("[通话通用用量]"@).len() == 8);
    assert(("[通话总量]"@).len() == 6);
    assert(("[通话定向总量]"@).len() == 8);
    assert(("[通话通用总量]"@).len() == 8);
    assert(("[流量总余量]"@).len() == 7);
    assert(("[流量定向余量]"@).len() == 8);
    assert(("[流量通用余量]"@).len() == 8);
    assert(("[通话总余量]"@).len() == 7);
    assert(("[通话定向余量]"@).len() == 8);
    assert(("[通话通用余量]"@).len() == 8);
    assert(("[套餐名称]"@).len() == 6);
    assert(("[区间时长]"@)[1] == '区');
    assert(("[流量总量]"@)[1] == '流');
    assert(("[通话总量]"@)[1] == '通');
    assert(("[套餐名称]"@)[1] == '套');
    assert(("[区间流量总用量]"@)[3] == '流');
    assert(("[区间通话总用量]"@)[3] == '通');
    assert(("[区间流量免费用量]"@)[5] == '免');
    assert(("[区间流量收费用量]"@)[5] == '收');
    assert(("[区间流量免费用量]"@)[3] == '流');
    assert(("[区间通话定向用量]"@)[3] == '通');
    assert(("[区间通话通用用量]"@)[3] == '通');
    assert(("[区间流量收费用量]"@)[3] == '流');
    assert(("[区间通话定向用量]"@)[5] == '定');
    assert(("[区间通话通用用量]"@)[5] == '通');
    assert(("[流量定向总量]"@)[3] == '定');
    assert(("[流量通用总量]"@)[3] == '通');
    assert(("[流量免费用量]"@)[3] == '免');
    assert(("[流量收费用量]"@)[3] == '收');
    assert(("[流量定向总量]"@)[5] == '总');
    assert(("[流量定向用量]"@)[5] == '用');
    assert(("[流量通用用量]"@)[3] == '通');
    assert(("[流量定向总量]"@)[1] == '流');
    assert(("[通话定向用量]"@)[1] == '通');
    assert(("[通话通用用量]"@)[1] == '通');
    assert(("[通话定向总量]"@)[1] == '通');
    assert(("[通话通用总量]"@)[1] == '通');
    assert(("[流量定向余量]"@)[5] == '余');
    assert(("[流量通用余量]"@)[3] == '通');
    assert(("[通话定向余量]"@)[1] == '通');
    assert(("[通话通用余量]"@)[1] == '通');
    assert(("[流量定向用量]"@)[3] == '定');
    assert(("[流量通用总量]"@)[5] == '总');
    assert(("[流量通用用量]"@)[5] == '用');
    assert(("[流量通用总量]"@)[1] == '流');
    assert(("[流量定向余量]"@)[3] == '定');
    assert(("[流量通用余量]"@)[5] == '余');
    assert(("[流量总用量]"@)[1] == '流');
    assert(("[通话总用量]"@)[1] == '通');
    assert(("[流量总用量]"@)[4] == '用');
    assert(("[流量总余量]"@)[4] == '余');
    assert(("[通话总余量]"@)[1] == '通');
    assert(("[流量免费用量]"@)[1] == '流');
    assert(("[流量收费用量]"@)[1] == '流');
    assert(("[流量定向用量]"@)[1] == '流');
    assert(("[流量通用用量]"@)[1] == '流');
    assert(("[流量总余量]"@)[1] == '流');
    assert(("[通话总用量]"@)[4] == '用');
    assert(("[通话总余量]"@)[4] == '余');
    assert(("[通话定向用量]"@)[3] == '定');
    assert(("[通话通用用量]"@)[3] == '通');
    assert(("[通话定向用量]"@)[5] == '用');
    assert(("[通话定向总量]"@)[5] == '总');
    assert(("[通话通用总量]"@)[3] == '通');
    assert(("[流量定向余量]"@)[1] == '流');
    assert(("[流量通用余量]"@)[1] == '流');
    assert(("[通话定向余量]"@)[5] == '余');
    assert(("[通话通用余量]"@)[3] == '通');
    assert(("[通话定向总量]"@)[3] == '定');
    assert(("[通话通用用量]"@)[5] == '用');
    assert(("[通话通用总量]"@)[5] == '总');
    assert(("[通话定向余量]"@)[3] == '定');
    assert(("[通话通用余量]"@)[5] == '余');
    assert("[区间时长]"@ != "[区间流量总用量]"@ && "[区间时长]"@ != "[区间流量免费用量]"@ && "[区间时长]"@ != "[区间流量收费用量]"@ && "[区间时长]"@ != "[区间通话总用量]"@ && "[区间时长]"@ != "[区间通话定向用量]"@ && "[区间时长]"@ != "[区间通话通用用量]"@ && "[区间时长]"@ != "[时间]"@ && "[区间时长]"@ != "[流量总量]"@ && "[区间时长]"@ != "[流量定向总量]"@ && "[区间时长]"@ != "[流量通用总量]"@ && "[区间时长]"@ != "[流量总用量]"@ && "[区间时长]"@ != "[流量免费用量]"@ && "[区间时长]"@ != "[流量收费用量]"@ && "[区间时长]"@ != "[流量定向用量]"@ && "[区间时长]"@ != "[流量通用用量]"@ && "[区间时长]"@ != "[通话总用量]"@ && "[区间时长]"@ != "[通话定向用量]"@ && "[区间时长]"@ != "[通话通用用量]"@ && "[区间时长]"@ != "[通话总量]"@ && "[区间时长]"@ != "[通话定向总量]"@ && "[区间时长]"@ != "[通话通用总量]"@ && "[区间时长]"@ != "[流量总余量]"@ && "[区间时长]"@ != "[流量定向余量]"@ && "[区间时长]"@ != "[流量通用余量]"@ && "[区间时长]"@ != "[通话总余量]"@ && "[区间时长]"@ != "[通话定向余量]"@ && "[区间时长]"@ != "[通话通用余量]"@ && "[区间时长]"@ != "[套餐名称]"@);
    assert("[区间流量总用量]"@ != "[区间流量免费用量]"@ && "[区间流量总用量]"@ != "[区间流量收费用量]"@ && "[区间流量总用量]"@ != "[区间通话总用量]"@ && "[区间流量总用量]"@ != "[区间通话定向用量]"@ && "[区间流量总用量]"@ != "[区间通话通用用量]"@ && "[区间流量总用量]"@ != "[时间]"@ && "[区间流量总用量]"@ != "[流量总量]"@ && "[区间流量总用量]"@ != "[流量定向总量]"@ && "[区间流量总用量]"@ != "[流量通用总量]"@ && "[区间流量总用量]"@ != "[流量总用量]"@ && "[区间流量总用量]"@ != "[流量免费用量]"@ && "[区间流量总用量]"@ != "[流量收费用量]"@ && "[区间流量总用量]"@ != "[流量定向用量]"@ && "[区间流量总用量]"@ != "[流量通用用量]"@ && "[区间流量总用量]"@ != "[通话总用量]"@ && "[区间流量总用量]"@ != "[通话定向用量]"@ && "[区间流量总用量]"@ != "[通话通用用量]"@ && "[区间流量总用量]"@ != "[通话总量]"@ && "[区间流量总用量]"@ != "[通话定向总量]"@ && "[区间流量总用量]"@ != "[通话通用总量]"@ && "[区间流量总用量]"@ != "[流量总余量]"@ && "[区间流量总用量]"@ != "[流量定向余量]"@ && "[区间流量总用量]"@ != "[流量通用余量]"@ && "[区间流量总用量]"@ != "[通话总余量]"@ && "[区间流量总用量]"@ != "[通话定向余量]"@ && "[区间流量总用量]"@ != "[通话通用余量]"@ && "[区间流量总用量]"@ != "[套餐名称]"@);
    assert("[区间流量免费用量]"@ != "[区间流量收费用量]"@ && "[区间流量免费用量]"@ != "[区间通话总用量]"@ && "[区间流量免费用量]"@ != "[区间通话定向用量]"@ && "[区间流量免费用量]"@ != "[区间通话通用用量]"@ && "[区间流量免费用量]"@ != "[时间]"@ && "[区间流量免费用量]"@ != "[流量总量]"@ && "[区间流量免费用量]"@ != "[流量定向总量]"@ && "[区间流量免费用量]"@ != "[流量通用总量]"@ && "[区间流量免费用量]"@ != "[流量总用量]"@ && "[区间流量免费用量]"@ != "[流量免费用量]"@ && "[区间流量免费用量]"@ != "[流量收费用量]"@ && "[区间流量免费用量]"@ != "[流量定向用量]"@ && "[区间流量免费用量]"@ != "[流量通用用量]"@ && "[区间流量免费用量]"@ != "[通话总用量]"@ && "[区间流量免费用量]"@ != "[通话定向用量]"@ && "[区间流量免费用量]"@ != "[通话通用用量]"@ && "[区间流量免费用量]"@ != "[通话总量]"@ && "[区间流量免费用量]"@ != "[通话定向总量]"@ && "[区间流量免费用量]"@ != "[通话通用总量]"@ && "[区间流量免费用量]"@ != "[流量总余量]"@ && "[区间流量免费用量]"@ != "[流量定向余量]"@ && "[区间流量免费用量]"@ != "[流量通用余量]"@ && "[区间流量免费用量]"@ != "[通话总余量]"@ && "[区间流量免费用量]"@ != "[通话定向余量]"@ && "[区间流量免费用量]"@ != "[通话通用余量]"@ && "[区间流量免费用量]"@ != "[套餐名称]"@);
    assert("[区间流量收费用量]"@ != "[区间通话总用量]"@ && "[区间流量收费用量]"@ != "[区间通话定向用量]"@ && "[区间流量收费用量]"@ != "[区间通话通用用量]"@ && "[区间流量收费用量]"@ != "[时间]"@ && "[区间流量收费用量]"@ != "[流量总量]"@ && "[区间流量收费用量]"@ != "[流量定向总量]"@ && "[区间流量收费用量]"@ != "[流量通用总量]"@ && "[区间流量收费用量]"@ != "[流量总用量]"@ && "[区间流量收费用量]"@ != "[流量免费用量]"@ && "[区间流量收费用量]"@ != "[流量收费用量]"@ && "[区间流量收费用量]"@ != "[流量定向用量]"@ && "[区间流量收费用量]"@ != "[流量通用用量]"@ && "[区间流量收费用量]"@ != "[通话总用量]"@ && "[区间流量收费用量]"@ != "[通话定向用量]"@ && "[区间流量收费用量]"@ != "[通话通用用量]"@ && "[区间流量收费用量]"@ != "[通话总量]"@ && "[区间流量收费用量]"@ != "[通话定向总量]"@ && "[区间流量收费用量]"@ != "[通话通用总量]"@ && "[区间流量收费用量]"@ != "[流量总余量]"@ && "[区间流量收费用量]"@ != "[流量定向余量]"@ && "[区间流量收费用量]"@ != "[流量通用余量]"@ && "[区间流量收费用量]"@ != "[通话总余量]"@ && "[区间流量收费用量]"@ != "[通话定向余量]"@ && "[区间流量收费用量]"@ != "[通话通用余量]"@ && "[区间流量收费用量]"@ != "[套餐名称]"@);
    assert("[区间通话总用量]"@ != "[区间通话定向用量]"@ && "[区间通话总用量]"@ != "[区间通话通用用量]"@ && "[区间通话总用量]"@ != "[时间]"@ && "[区间通话总用量]"@ != "[流量总量]"@ && "[区间通话总用量]"@ != "[流量定向总量]"@ && "[区间通话总用量]"@ != "[流量通用总量]"@ && "[区间通话总用量]"@ != "[流量总用量]"@ && "[区间通话总用量]"@ != "[流量免费用量]"@ && "[区间通话总用量]"@ != "[流量收费用量]"@ && "[区间通话总用量]"@ != "[流量定向用量]"@ && "[区间通话总用量]"@ != "[流量通用用量]"@ && "[区间通话总用量]"@ != "[通话总用量]"@ && "[区间通话总用量]"@ != "[通话定向用量]"@ && "[区间通话总用量]"@ != "[通话通用用量]"@ && "[区间通话总用量]"@ != "[通话总量]"@ && "[区间通话总用量]"@ != "[通话定向总量]"@ && "[区间通话总用量]"@ != "[通话通用总量]"@ && "[区间通话总用量]"@ != "[流量总余量]"@ && "[区间通话总用量]"@ != "[流量定向余量]"@ && "[区间通话总用量]"@ != "[流量通用余量]"@ && "[区间通话总用量]"@ != "[通话总余量]"@ && "[区间通话总用量]"@ != "[通话定向余量]"@ && "[区间通话总用量]"@ != "[通话通用余量]"@ && "[区间通话总用量]"@ != "[套餐名称]"@);
    assert("[区间通话定向用量]"@ != "[区间通话通用用量]"@ && "[区间通话定向用量]"@ != "[时间]"@ && "[区间通话定向用量]"@ != "[流量总量]"@ && "[区间通话定向用量]"@ != "[流量定向总量]"@ && "[区间通话定向用量]"@ != "[流量通用总量]"@ && "[区间通话定向用量]"@ != "[流量总用量]"@ && "[区间通话定向用量]"@ != "[流量免费用量]"@ && "[区间通话定向用量]"@ != "[流量收费用量]"@ && "[区间通话定向用量]"@ != "[流量定向用量]"@ && "[区间通话定向用量]"@ != "[流量通用用量]"@ && "[区间通话定向用量]"@ != "[通话总用量]"@ && "[区间通话定向用量]"@ != "[通话定向用量]"@ && "[区间通话定向用量]"@ != "[通话通用用量]"@ && "[区间通话定向用量]"@ != "[通话总量]"@ && "[区间通话定向用量]"@ != "[通话定向总量]"@ && "[区间通话定向用量]"@ != "[通话通用总量]"@ && "[区间通话定向用量]"@ != "[流量总余量]"@ && "[区间通话定向用量]"@ != "[流量定向余量]"@ && "[区间通话定向用量]"@ != "[流量通用余量]"@ && "[区间通话定向用量]"@ != "[通话总余量]"@ && "[区间通话定向用量]"@ != "[通话定向余量]"@ && "[区间通话定向用量]"@ != "[通话通用余量]"@ && "[区间通话定向用量]"@ != "[套餐名称]"@);
    assert("[区间通话通用用量]"@ != "[时间]"@ && "[区间通话通用用量]"@ != "[流量总量]"@ && "[区间通话通用用量]"@ != "[流量定向总量]"@ && "[区间通话通用用量]"@ != "[流量通用总量]"@ && "[区间通话通用用量]"@ != "[流量总用量]"@ && "[区间通话通用用量]"@ != "[流量免费用量]"@ && "[区间通话通用用量]"@ != "[流量收费用量]"@ && "[区间通话通用用量]"@ != "[流量定向用量]"@ && "[区间通话通用用量]"@ != "[流量通用用量]"@ && "[区间通话通用用量]"@ != "[通话总用量]"@ && "[区间通话通用用量]"@ != "[通话定向用量]"@ && "[区间通话通用用量]"@ != "[通话通用用量]"@ && "[区间通话通用用量]"@ != "[通话总量]"@ && "[区间通话通用用量]"@ != "[通话定向总量]"@ && "[区间通话通用用量]"@ != "[通话通用总量]"@ && "[区间通话通用用量]"@ != "[流量总余量]"@ && "[区间通话通用用量]"@ != "[流量定向余量]"@ && "[区间通话通用用量]"@ != "[流量通用余量]"@ && "[区间通话通用用量]"@ != "[通话总余量]"@ && "[区间通话通用用量]"@ != "[通话定向余量]"@ && "[区间通话通用用量]"@ != "[通话通用余量]"@ && "[区间通话通用用量]"@ != "[套餐名称]"@);
    assert("[时间]"@ != "[流量总量]"@ && "[时间]"@ != "[流量定向总量]"@ && "[时间]"@ != "[流量通用总量]"@ && "[时间]"@ != "[流量总用量]"@ && "[时间]"@ != "[流量免费用量]"@ && "[时间]"@ != "[流量收费用量]"@ && "[时间]"@ != "[流量定向用量]"@ && "[时间]"@ != "[流量通用用量]"@ && "[时间]"@ != "[通话总用量]"@ && "[时间]"@ != "[通话定向用量]"@ && "[时间]"@ != "[通话通用用量]"@ && "[时间]"@ != "[通话总量]"@ && "[时间]"@ != "[通话定向总量]"@ && "[时间]"@ != "[通话通用总量]"@ && "[时间]"@ != "[流量总余量]"@ && "[时间]"@ != "[流量定向余量]"@ && "[时间]"@ != "[流量通用余量]"@ && "[时间]"@ != "[通话总余量]"@ && "[时间]"@ != "[通话定向余量]"@ && "[时间]"@ != "[通话通用余量]"@ && "[时间]"@ != "[套餐名称]"@);
    assert("[流量总量]"@ != "[流量定向总量]"@ && "[流量总量]"@ != "[流量通用总量]"@ && "[流量总量]"@ != "[流量总用量]"@ && "[流量总量]"@ != "[流量免费用量]"@ && "[流量总量]"@ != "[流量收费用量]"@ && "[流量总量]"@ != "[流量定向用量]"@ && "[流量总量]"@ != "[流量通用用量]"@ && "[流量总量]"@ != "[通话总用量]"@ && "[流量总量]"@ != "[通话定向用量]"@ && "[流量总量]"@ != "[通话通用用量]"@ && "[流量总量]"@ != "[通话总量]"@ && "[流量总量]"@ != "[通话定向总量]"@ && "[流量总量]"@ != "[通话通用总量]"@ && "[流量总量]"@ != "[流量总余量]"@ && "[流量总量]"@ != "[流量定向余量]"@ && "[流量总量]"@ != "[流量通用余量]"@ && "[流量总量]"@ != "[通话总余量]"@ && "[流量总量]"@ != "[通话定向余量]"@ && "[流量总量]"@ != "[通话通用余量]"@ && "[流量总量]"@ != "[套餐名称]"@);
    assert("[流量定向总量]"@ != "[流量通用总量]"@ && "[流量定向总量]"@ != "[流量总用量]"@ && "[流量定向总量]"@ != "[流量免费用量]"@ && "[流量定向总量]"@ != "[流量收费用量]"@ && "[流量定向总量]"@ != "[流量定向用量]"@ && "[流量定向总量]"@ != "[流量通用用量]"@ && "[流量定向总量]"@ != "[通话总用量]"@ && "[流量定向总量]"@ != "[通话定向用量]"@ && "[流量定向总量]"@ != "[通话通用用量]"@ && "[流量定向总量]"@ != "[通话总量]"@ && "[流量定向总量]"@ != "[通话定向总量]"@ && "[流量定向总量]"@ != "[通话通用总量]"@ && "[流量定向总量]"@ != "[流量总余量]"@ && "[流量定向总量]"@ != "[流量定向余量]"@ && "[流量定向总量]"@ != "[流量通用余量]"@ && "[流量定向总量]"@ != "[通话总余量]"@ && "[流量定向总量]"@ != "[通话定向余量]"@ && "[流量定向总量]"@ != "[通话通用余量]"@ && "[流量定向总量]"@ != "[套餐名称]"@);
    assert("[流量通用总量]"@ != "[流量总用量]"@ && "[流量通用总量]"@ != "[流量免费用量]"@ && "[流量通用总量]"@ != "[流量收费用量]"@ && "[流量通用总量]"@ != "[流量定向用量]"@ && "[流量通用总量]"@ != "[流量通用用量]"@ && "[流量通用总量]"@ != "[通话总用量]"@ && "[流量通用总量]"@ != "[通话定向用量]"@ && "[流量通用总量]"@ != "[通话通用用量]"@ && "[流量通用总量]"@ != "[通话总量]"@ && "[流量通用总量]"@ != "[通话定向总量]"@ && "[流量通用总量]"@ != "[通话通用总量]"@ && "[流量通用总量]"@ != "[流量总余量]"@ && "[流量通用总量]"@ != "[流量定向余量]"@ && "[流量通用总量]"@ != "[流量通用余量]"@ && "[流量通用总量]"@ != "[通话总余量]"@ && "[流量通用总量]"@ != "[通话定向余量]"@ && "[流量通用总量]"@ != "[通话通用余量]"@ && "[流量通用总量]"@ != "[套餐名称]"@);
    assert("[流量总用量]"@ != "[流量免费用量]"@ && "[流量总用量]"@ != "[流量收费用量]"@ && "[流量总用量]"@ != "[流量定向用量]"@ && "[流量总用量]"@ != "[流量通用用量]"@ && "[流量总用量]"@ != "[通话总用量]"@ && "[流量总用量]"@ != "[通话定向用量]"@ && "[流量总用量]"@ != "[通话通用用量]"@ && "[流量总用量]"@ != "[通话总量]"@ && "[流量总用量]"@ != "[通话定向总量]"@ && "[流量总用量]"@ != "[通话通用总量]"@ && "[流量总用量]"@ != "[流量总余量]"@ && "[流量总用量]"@ != "[流量定向余量]"@ && "[流量总用量]"@ != "[流量通用余量]"@ && "[流量总用量]"@ != "[通话总余量]"@ && "[流量总用量]"@ != "[通话定向余量]"@ && "[流量总用量]"@ != "[通话通用余量]"@ && "[流量总用量]"@ != "[套餐名称]"@);
    assert("[流量免费用量]"@ != "[流量收费用量]"@ && "[流量免费用量]"@ != "[流量定向用量]"@ && "[流量免费用量]"@ != "[流量通用用量]"@ && "[流量免费用量]"@ != "[通话总用量]"@ && "[流量免费用量]"@ != "[通话定向用量]"@ && "[流量免费用量]"@ != "[通话通用用量]"@ && "[流量免费用量]"@ != "[通话总量]"@ && "[流量免费用量]"@ != "[通话定向总量]"@ && "[流量免费用量]"@ != "[通话通用总量]"@ && "[流量免费用量]"@ != "[流量总余量]"@ && "[流量免费用量]"@ != "[流量定向余量]"@ && "[流量免费用量]"@ != "[流量通用余量]"@ && "[流量免费用量]"@ != "[通话总余量]"@ && "[流量免费用量]"@ != "[通话定向余量]"@ && "[流量免费用量]"@ != "[通话通用余量]"@ && "[流量免费用量]"@ != "[套餐名称]"@);
    assert("[流量收费用量]"@ != "[流量定向用量]"@ && "[流量收费用量]"@ != "[流量通用用量]"@ && "[流量收费用量]"@ != "[通话总用量]"@ && "[流量收费用量]"@ != "[通话定向用量]"@ && "[流量收费用量]"@ != "[通话通用用量]"@ && "[流量收费用量]"@ != "[通话总量]"@ && "[流量收费用量]"@ != "[通话定向总量]"@ && "[流量收费用量]"@ != "[通话通用总量]"@ && "[流量收费用量]"@ != "[流量总余量]"@ && "[流量收费用量]"@ != "[流量定向余量]"@ && "[流量收费用量]"@ != "[流量通用余量]"@ && "[流量收费用量]"@ != "[通话总余量]"@ && "[流量收费用量]"@ != "[通话定向余量]"@ && "[流量收费用量]"@ != "[通话通用余量]"@ && "[流量收费用量]"@ != "[套餐名称]"@);
    assert("[流量定向用量]"@ != "[流量通用用量]"@ && "[流量定向用量]"@ != "[通话总用量]"@ && "[流量定向用量]"@ != "[通话定向用量]"@ && "[流量定向用量]"@ != "[通话通用用量]"@ && "[流量定向用量]"@ != "[通话总量]"@ && "[流量定向用量]"@ != "[通话定向总量]"@ && "[流量定向用量]"@ != "[通话通用总量]"@ && "[流量定向用量]"@ != "[流量总余量]"@ && "[流量定向用量]"@ != "[流量定向余量]"@ && "[流量定向用量]"@ != "[流量通用余量]"@ && "[流量定向用量]"@ != "[通话总余量]"@ && "[流量定向用量]"@ != "[通话定向余量]"@ && "[流量定向用量]"@ != "[通话通用余量]"@ && "[流量定向用量]"@ != "[套餐名称]"@);
    assert("[流量通用用量]"@ != "[通话总用量]"@ && "[流量通用用量]"@ != "[通话定向用量]"@ && "[流量通用用量]"@ != "[通话通用用量]"@ && "[流量通用用量]"@ != "[通话总量]"@ && "[流量通用用量]"@ != "[通话定向总量]"@ && "[流量通用用量]"@ != "[通话通用总量]"@ && "[流量通用用量]"@ != "[流量总余量]"@ && "[流量通用用量]"@ != "[流量定向余量]"@ && "[流量通用用量]"@ != "[流量通用余量]"@ && "[流量通用用量]"@ != "[通话总余量]"@ && "[流量通用用量]"@ != "[通话定向余量]"@ && "[流量通用用量]"@ != "[通话通用余量]"@ && "[流量通用用量]"@ != "[套餐名称]"@);
    assert("[通话总用量]"@ != "[通话定向用量]"@ && "[通话总用量]"@ != "[通话通用用量]"@ && "[通话总用量]"@ != "[通话总量]"@ && "[通话总用量]"@ != "[通话定向总量]"@ && "[通话总用量]"@ != "[通话通用总量]"@ && "[通话总用量]"@ != "[流量总余量]"@ && "[通话总用量]"@ != "[流量定向余量]"@ && "[通话总用量]"@ != "[流量通用余量]"@ && "[通话总用量]"@ != "[通话总余量]"@ && "[通话总用量]"@ != "[通话定向余量]"@ && "[通话总用量]"@ != "[通话通用余量]"@ && "[通话总用量]"@ != "[套餐名称]"@);
    assert("[通话定向用量]"@ != "[通话通用用量]"@ && "[通话定向用量]"@ != "[通话总量]"@ && "[通话定向用量]"@ != "[通话定向总量]"@ && "[通话定向用量]"@ != "[通话通用总量]"@ && "[通话定向用量]"@ != "[流量总余量]"@ && "[通话定向用量]"@ != "[流量定向余量]"@ && "[通话定向用量]"@ != "[流量通用余量]"@ && "[通话定向用量]"@ != "[通话总余量]"@ && "[通话定向用量]"@ != "[通话定向余量]"@ && "[通话定向用量]"@ != "[通话通用余量]"@ && "[通话定向用量]"@ != "[套餐名称]"@);
    assert("[通话通用用量]"@ != "[通话总量]"@ && "[通话通用用量]"@ != "[通话定向总量]"@ && "[通话通用用量]"@ != "[通话通用总量]"@ && "[通话通用用量]"@ != "[流量总余量]"@ && "[通话通用用量]"@ != "[流量定向余量]"@ && "[通话通用用量]"@ != "[流量通用余量]"@ && "[通话通用用量]"@ != "[通话总余量]"@ && "[通话通用用量]"@ != "[通话定向余量]"@ && "[通话通用用量]"@ != "[通话通用余量]"@ && "[通话通用用量]"@ != "[套餐名称]"@);
    assert("[通话总量]"@ != "[通话定向总量]"@ && "[通话总量]"@ != "[通话通用总量]"@ && "[通话总量]"@ != "[流量总余量]"@ && "[通话总量]"@ != "[流量定向余量]"@ && "[通话总量]"@ != "[流量通用余量]"@ && "[通话总量]"@ != "[通话总余量]"@ && "[通话总量]"@ != "[通话定向余量]"@ && "[通话总量]"@ != "[通话通用余量]"@ && "[通话总量]"@ != "[套餐名称]"@);
    assert("[通话定向总量]"@ != "[通话通用总量]"@ && "[通话定向总量]"@ != "[流量总余量]"@ && "[通话定向总量]"@ != "[流量定向余量]"@ && "[通话定向总量]"@ != "[流量通用余量]"@ && "[通话定向总量]"@ != "[通话总余量]"@ && "[通话定向总量]"@ != "[通话定向余量]"@ && "[通话定向总量]"@ != "[通话通用余量]"@ && "[通话定向总量]"@ != "[套餐名称]"@);
    assert("[通话通用总量]"@ != "[流量总余量]"@ && "[通话通用总量]"@ != "[流量定向余量]"@ && "[通话通用总量]"@ != "[流量通用余量]"@ && "[通话通用总量]"@ != "[通话总余量]"@ && "[通话通用总量]"@ != "[通话定向余量]"@ && "[通话通用总量]"@ != "[通话通用余量]"@ && "[通话通用总量]"@ != "[套餐名称]"@);
    assert("[流量总余量]"@ != "[流量定向余量]"@ && "[流量总余量]"@ != "[流量通用余量]"@ && "[流量总余量]"@ != "[通话总余量]"@ && "[流量总余量]"@ != "[通话定向余量]"@ && "[流量总余量]"@ != "[通话通用余量]"@ && "[流量总余量]"@ != "[套餐名称]"@);
    assert("[流量定向余量]"@ != "[流量通用余量]"@ && "[流量定向余量]"@ != "[通话总余量]"@ && "[流量定向余量]"@ != "[通话定向余量]"@ && "[流量定向余量]"@ != "[通话通用余量]"@ && "[流量定向余量]"@ != "[套餐名称]"@);
    assert("[流量通用余量]"@ != "[通话总余量]"@ && "[流量通用余量]"@ != "[通话定向余量]"@ && "[流量通用余量]"@ != "[通话通用余量]"@ && "[流量通用余量]"@ != "[套餐名称]"@);
    assert("[通话总余量]"@ != "[通话定向余量]"@ && "[通话总余量]"@ != "[通话通用余量]"@ && "[通话总余量]"@ != "[套餐名称]"@);
    assert("[通话定向余量]"@ != "[通话通用余量]"@ && "[通话定向余量]"@ != "[套餐名称]"@);
    assert("[通话通用余量]"@ != "[套餐名称]"@);
    assert(!has_dup(p));
}

impl ChinaUnicomData {
    /// The binding table of a snapshot-only rendering: every absolute
    /// placeholder beside its resolved replacement text.
    #[verifier::rlimit(100)]
    fn snapshot_bindings(&self) -> (b: Vec<(String, String)>)
        requires
            self.wf(),
        ensures
            pats_of(b@) == snapshot_pats(),
            reps_of(b@) == self.snapshot_reps(),
    {
        let voice = parse_infinate_voice(
            self.limit_voice,
            self.non_limit_voice,
            self.limit_voice_used,
            self.non_limit_voice_used,
        );
        let flow = parse_infinate_flow(
            self.limit_flow,
            self.non_limit_flow,
            self.limit_flow_used,
            self.non_limit_flow_used,
        );
        let mut bindings: Vec<(String, String)> = Vec::new();
        bindings.push(("[时间]".to_owned(), format_datetime(&self.time)));
        bindings.push(("[流量总量]".to_owned(), flow.0));
        bindings.push(("[流量定向总量]".to_owned(), flow.2));
        bindings.push(("[流量通用总量]".to_owned(), flow.1));
        bindings.push(("[流量总用量]".to_owned(), flow_qty(self.sum_flow_used)));
        bindings.push(("[流量免费用量]".to_owned(), flow_qty(self.free_flow_used)));
        bindings.push(("[流量收费用量]".to_owned(), flow_qty(self.non_free_flow_used)));
        bindings.push(("[流量定向用量]".to_owned(), flow_qty(self.limit_flow_used)));
        bindings.push(("[流量通用用量]".to_owned(), flow_qty(self.non_limit_flow_used)));
        bindings.push(("[通话总用量]".to_owned(), voice_qty(self.sum_voice_used)));
        bindings.push(("[通话定向用量]".to_owned(), voice_qty(self.limit_voice_used)));
        bindings.push(("[通话通用用量]".to_owned(), voice_qty(self.non_limit_voice_used)));
        bindings.push(("[通话总量]".to_owned(), voice.0));
        bindings.push(("[通话定向总量]".to_owned(), voice.2));
        bindings.push(("[通话通用总量]".to_owned(), voice.1));
        bindings.push(("[流量总余量]".to_owned(), flow.3));
        bindings.push(("[流量定向余量]".to_owned(), flow.5));
        bindings.push(("[流量通用余量]".to_owned(), flow.4));
        bindings.push(("[通话总余量]".to_owned(), voice.3));
        bindings.push(("[通话定向余量]".to_owned(), voice.5));
        bindings.push(("[通话通用余量]".to_owned(), voice.4));
        bindings.push(("[套餐名称]".to_owned(), self.package_name.clone()));
        proof {
            let pb = pats_of(bindings@);
            let rb = reps_of(bindings@);
            assert(pb.len() == 22);
            assert(rb.len() == 22);
            assert(pb[0] == "[时间]"@ && rb[0] == self.snapshot_reps()[0]);
            assert(pb[1] == "[流量总量]"@ && rb[1] == self.snapshot_reps()[1]);
            assert(pb[2] == "[流量定向总量]"@ && rb[2] == self.snapshot_reps()[2]);
            assert(pb[3] == "[流量通用总量]"@ && rb[3] == self.snapshot_reps()[3]);
            assert(pb[4] == "[流量总用量]"@ && rb[4] == self.snapshot_reps()[4]);
            assert(pb[5] == "[流量免费用量]"@ && rb[5] == self.snapshot_reps()[5]);
            assert(pb[6] == "[流量收费用量]"@ && rb[6] == self.snapshot_reps()[6]);
            assert(pb[7] == "[流量定向用量]"@ && rb[7] == self.snapshot_reps()[7]);
            assert(pb[8] == "[流量通用用量]"@ && rb[8] == self.snapshot_reps()[8]);
            assert(pb[9] == "[通话总用量]"@ && rb[9] == self.snapshot_reps()[9]);
            assert(pb[10] == "[通话定向用量]"@ && rb[10] == self.snapshot_reps()[10]);
            assert(pb[11] == "[通话通用用量]"@ && rb[11] == self.snapshot_reps()[11]);
            assert(pb[12] == "[通话总量]"@ && rb[12] == self.snapshot_reps()[12]);
            assert(pb[13] == "[通话定向总量]"@ && rb[13] == self.snapshot_reps()[13]);
            assert(pb[14] == "[通话通用总量]"@ && rb[14] == self.snapshot_reps()[14]);
            assert(pb[15] == "[流量总余量]"@ && rb[15] == self.snapshot_reps()[15]);
            assert(pb[16] == "[流量定向余量]"@ && rb[16] == self.snapshot_reps()[16]);
            assert(pb[17] == "[流量通用余量]"@ && rb[17] == self.snapshot_reps()[17]);
            assert(pb[18] == "[通话总余量]"@ && rb[18] == self.snapshot_reps()[18]);
            assert(pb[19] == "[通话定向余量]"@ && rb[19] == self.snapshot_reps()[19]);
            assert(pb[20] == "[通话通用余量]"@ && rb[20] == self.snapshot_reps()[20]);
            assert(pb[21] == "[套餐名称]"@ && rb[21] == self.snapshot_reps()[21]);
            assert(pb =~= snapshot_pats());
            assert(rb =~= self.snapshot_reps());
        }
        bindings
    }

    /// Renders a snapshot-only message: substitutes every absolute
    /// placeholder of the fixed vocabulary into `fmt`.  Delta placeholders
    /// are not in the table and pass through unexpanded.  Fails exactly
    /// when the placeholder table itself is malformed.
    pub fn format(&self, fmt: &str) -> (r: Result<String, TemplateError>)
        requires
            self.wf(),
        ensures
            r is Ok,
            r matches Ok(s) ==> s@ == render_text(fmt@, snapshot_pats(), self.snapshot_reps()),
    {
        proof {
            lemma_snapshot_table_ok();
        }
        let bindings = self.snapshot_bindings();
        render(fmt, &bindings)
    }

    /// The binding table rows of the delta placeholders alone against the
    /// reference snapshot `last`.
    #[verifier::rlimit(100)]
    fn delta_bindings(&self, last: &Self) -> (b: Vec<(String, String)>)
        requires
            self.wf(),
            last.wf(),
        ensures
            pats_of(b@) == delta_pats(),
            reps_of(b@) == self.delta_reps(*last),
    {
        let elapsed = self.time.unix_seconds - last.time.unix_seconds;
        let duration = format_duration(elapsed);
        let sum_flow_used = if self.sum_flow_used >= last.sum_flow_used {
            self.sum_flow_used - last.sum_flow_used
        } else {
            0
        };
        let free_flow_used = if self.free_flow_used >= last.free_flow_used {
            self.free_flow_used - last.free_flow_used
        } else {
            0
        };
        let non_free_flow_used = if self.non_free_flow_used >= last.non_free_flow_used {
            self.non_free_flow_used - last.non_free_flow_used
        } else {
            0
        };
        let sum_voice_used = if self.sum_voice_used >= last.sum_voice_used {
            self.sum_voice_used - last.sum_voice_used
        } else {
            0
        };
        let limit_voice_used = if self.limit_voice_used >= last.limit_voice_used {
            self.limit_voice_used - last.limit_voice_used
        } else {
            0
        };
        let non_limit_voice_used = if self.non_limit_voice_used >= last.non_limit_voice_used {
            self.non_limit_voice_used - last.non_limit_voice_used
        } else {
            0
        };
        let mut bindings: Vec<(String, String)> = Vec::new();
        bindings.push(("[区间时长]".to_owned(), duration));
        bindings.push(("[区间流量总用量]".to_owned(), flow_qty(sum_flow_used)));
        bindings.push(("[区间流量免费用量]".to_owned(), flow_qty(free_flow_used)));
        bindings.push(("[区间流量收费用量]".to_owned(), flow_qty(non_free_flow_used)));
        bindings.push(("[区间通话总用量]".to_owned(), voice_qty(sum_voice_used)));
        bindings.push(("[区间通话定向用量]".to_owned(), voice_qty(limit_voice_used)));
        bindings.push(("[区间通话通用用量]".to_owned(), voice_qty(non_limit_voice_used)));
        proof {
            let pb = pats_of(bindings@);
            let rb = reps_of(bindings@);
            assert(pb.len() == 7);
            assert(rb.len() == 7);
            assert(pb[0] == "[区间时长]"@ && rb[0] == self.delta_reps(*last)[0]);
            assert(pb[1] == "[区间流量总用量]"@ && rb[1] == self.delta_reps(*last)[1]);
            assert(pb[2] == "[区间流量免费用量]"@ && rb[2] == self.delta_reps(*last)[2]);
            assert(pb[3] == "[区间流量收费用量]"@ && rb[3] == self.delta_reps(*last)[3]);
            assert(pb[4] == "[区间通话总用量]"@ && rb[4] == self.delta_reps(*last)[4]);
            assert(pb[5] == "[区间通话定向用量]"@ && rb[5] == self.delta_reps(*last)[5]);
            assert(pb[6] == "[区间通话通用用量]"@ && rb[6] == self.delta_reps(*last)[6]);
            assert(pb =~= delta_pats());
            assert(rb =~= self.delta_reps(*last));
        }
        bindings
    }

    /// Renders a delta message against the reference snapshot `last`:
    /// substitutes the delta placeholders (clamped usage deltas and the
    /// elapsed duration) together with every absolute placeholder.
    #[verifier::rlimit(100)]
    pub fn format_with_last(&self, fmt: &str, last: &Self) -> (r: Result<String, TemplateError>)
        requires
            self.wf(),
            last.wf(),
        ensures
            r is Ok,
            r matches Ok(s) ==> s@ == render_text(
                fmt@,
                with_last_pats(),
                self.with_last_reps(*last),
            ),
    {
        proof {
            lemma_with_last_table_ok();
        }
        let mut bindings = self.delta_bindings(last);
        let mut tail = self.snapshot_bindings();
        proof {
            lemma_binding_concat(bindings@, tail@);
        }
        bindings.append(&mut tail);
        render(fmt, &bindings)
    }

    /// Renders a snapshot-only message with the built-in template.
    pub fn format_default(&self) -> (r: Result<String, TemplateError>)
        requires
            self.wf(),
        ensures
            r is Ok,
            r matches Ok(s) ==> s@ == render_text(
                crate::default_format_text(),
                snapshot_pats(),
                self.snapshot_reps(),
            ),
    {
        self.format(crate::default_format())
    }

    /// Renders a delta message with the built-in template.
    pub fn format_default_with_last(&self, last: &Self) -> (r: Result<String, TemplateError>)
        requires
            self.wf(),
            last.wf(),
        ensures
            r is Ok,
            r matches Ok(s) ==> s@ == render_text(
                crate::default_format_with_last_text(),
                with_last_pats(),
                self.with_last_reps(*last),
            ),
    {
        self.format_with_last(crate::default_format_with_last(), last)
    }
}

} // verus!
