//! The account response's resource lists, as the provider hands them out:
//! families of sub-allowances whose quantities are decimal text.  The
//! voice family is summed here; parsing each quantity exactly as a machine
//! integer holds it.
use crate::numfmt::{i64_literal_val, is_i64_literal, parse_i64};
use crate::strutil::str_eq;
use vstd::prelude::*;

verus! {

/// The summary block of the account response: the free flow consumed, as
/// the provider's decimal text.
#[derive(Clone, Debug, Default, PartialEq)]
pub struct Summary {
    pub free_flow: String,
}

/// One sub-allowance of a resource family: whether it is capped
/// (`limited` reads `1`), and its total and used quantities as the
/// provider's decimal text.
#[derive(Clone, Debug, Default, PartialEq)]
pub struct ResourceDetail {
    pub limited: String,
    pub total: String,
    pub use_field: String,
}

/// One resource family of the account response, with its sub-allowances.
#[derive(Clone, Debug, Default, PartialEq)]
pub struct Resource {
    pub details: Vec<ResourceDetail>,
    pub type_field: String,
}

/// The account data carries no usable quantity where one was expected: a
/// missing resource family, unparseable quantity text, or a sum no
/// machine integer holds.
#[derive(Clone, Copy, Debug, PartialEq, Eq, Structural)]
pub enum QuotaError {
    MalformedQuantity,
}

/// The sub-allowances of the first voice resource family, if any.
pub open spec fn voice_details_of(rs: Seq<Resource>) -> Option<Seq<ResourceDetail>>
    decreases rs.len(),
{
    if rs.len() == 0 {
        None
    } else if rs[0].type_field@ == "Voice"@ {
        Some(rs[0].details@)
    } else {
        voice_details_of(rs.drop_first())
    }
}

/// Both quantities of a sub-allowance parse as machine integers.
pub open spec fn detail_ok(d: ResourceDetail) -> bool {
    is_i64_literal(d.use_field@) && is_i64_literal(d.total@)
}

/// Every sub-allowance of the list parses.
pub open spec fn all_details_ok(ds: Seq<ResourceDetail>) -> bool {
    forall|i: int| 0 <= i < ds.len() ==> detail_ok(#[trigger] ds[i])
}

/// The six voice sums over a list of sub-allowances, as unbounded
/// integers.
pub struct VoiceSums {
    pub used: int,
    pub total: int,
    pub limit_used: int,
    pub limit_total: int,
    pub non_limit_used: int,
    pub non_limit_total: int,
}

/// The voice sums of the list: used and total overall, and split into the
/// capped (`limited`) and uncapped families.
pub open spec fn voice_sums(ds: Seq<ResourceDetail>) -> VoiceSums
    decreases ds.len(),
{
    if ds.len() == 0 {
        VoiceSums {
            used: 0,
            total: 0,
            limit_used: 0,
            limit_total: 0,
            non_limit_used: 0,
            non_limit_total: 0,
        }
    } else {
        let p = voice_sums(ds.drop_last());
        let d = ds.last();
        let u = i64_literal_val(d.use_field@);
        let t = i64_literal_val(d.total@);
        if d.limited@ == "1"@ {
            VoiceSums {
                used: p.used + u,
                total: p.total + t,
                limit_used: p.limit_used + u,
                limit_total: p.limit_total + t,
                non_limit_used: p.non_limit_used,
                non_limit_total: p.non_limit_total,
            }
        } else {
            VoiceSums {
                used: p.used + u,
                total: p.total + t,
                limit_used: p.limit_used,
                limit_total: p.limit_total,
                non_limit_used: p.non_limit_used + u,
                non_limit_total: p.non_limit_total + t,
            }
        }
    }
}

/// All six sums within the machine integer's range.
pub open spec fn sums_fit(s: VoiceSums) -> bool {
    &&& i64::MIN <= s.used <= i64::MAX
    &&& i64::MIN <= s.total <= i64::MAX
    &&& i64::MIN <= s.limit_used <= i64::MAX
    &&& i64::MIN <= s.limit_total <= i64::MAX
    &&& i64::MIN <= s.non_limit_used <= i64::MAX
    &&& i64::MIN <= s.non_limit_total <= i64::MAX
}

/// The running sums stay within range at every prefix of the list.
pub open spec fn sums_bounded(ds: Seq<ResourceDetail>) -> bool
    decreases ds.len(),
{
    if ds.len() == 0 {
        true
    } else {
        sums_bounded(ds.drop_last()) && sums_fit(voice_sums(ds))
    }
}

/// Bounded running sums stay bounded on every prefix.
pub proof fn lemma_sums_bounded_prefix(ds: Seq<ResourceDetail>, m: int)
    requires
        sums_bounded(ds),
        0 <= m <= ds.len(),
    ensures
        sums_bounded(ds.take(m)),
    decreases ds.len(),
{
    if m < ds.len() {
        assert(ds.take(m) =~= ds.drop_last().take(m));
        lemma_sums_bounded_prefix(ds.drop_last(), m);
    } else {
        assert(ds.take(m) =~= ds);
    }
}

/// Sum of two machine integers, or nothing where the exact sum leaves the
/// machine range.
fn add_i64(a: i64, b: i64) -> (r: Option<i64>)
    ensures
        match r {
            Some(v) => v as int == a + b,
            None => !(i64::MIN <= a + b <= i64::MAX),
        },
{
    if b >= 0 {
        if a <= i64::MAX - b {
            Some(a + b)
        } else {
            None
        }
    } else {
        if a >= i64::MIN - b {
            Some(a + b)
        } else {
            None
        }
    }
}

/// Sums the voice family of the account's resources: finds the first
/// resource of the voice type and returns, over its sub-allowances,
/// (used, total, capped used, capped total, uncapped used, uncapped
/// total) in whole minutes.  Fails exactly when no voice family is
/// present, a quantity does not parse as a machine integer, or a running
/// sum leaves the machine range.
pub fn get_voice_details(resources: &Vec<Resource>) -> (r: Result<
    (i64, i64, i64, i64, i64, i64),
    QuotaError,
>)
    ensures
        voice_details_of(resources@) is None ==> r is Err,
        voice_details_of(resources@) matches Some(ds) ==> {
            &&& (r is Ok <==> all_details_ok(ds) && sums_bounded(ds))
            &&& (r matches Ok(t) ==> {
                let s = voice_sums(ds);
                &&& t.0 == s.used
                &&& t.1 == s.total
                &&& t.2 == s.limit_used
                &&& t.3 == s.limit_total
                &&& t.4 == s.non_limit_used
                &&& t.5 == s.non_limit_total
            })
        },
{
    let n = resources.len();
    let mut idx: usize = 0;
    let mut found = false;
    proof {
        assert(resources@.skip(0) =~= resources@);
    }
    while idx < n && !found
        invariant
            0 <= idx <= n,
            n == resources@.len(),
            voice_details_of(resources@) == voice_details_of(resources@.skip(idx as int)),
            found ==> idx < n && resources@[idx as int].type_field@ == "Voice"@,
            !found ==> forall|l: int|
                0 <= l < idx ==> #[trigger] resources@[l].type_field@ != "Voice"@,
        decreases n - idx + if found {
            0int
        } else {
            1int
        },
    {
        if str_eq(resources[idx].type_field.as_str(), "Voice") {
            found = true;
        } else {
            proof {
                let suf = resources@.skip(idx as int);
                assert(suf[0] == resources@[idx as int]);
                assert(suf.drop_first() =~= resources@.skip(idx as int + 1));
            }
            idx += 1;
        }
    }
    if !found {
        proof {
            assert(resources@.skip(n as int) =~= Seq::<Resource>::empty());
        }
        return Err(QuotaError::MalformedQuantity);
    }
    proof {
        let suf = resources@.skip(idx as int);
        assert(suf[0] == resources@[idx as int]);
    }
    let details = &resources[idx].details;
    let ghost ds = details@;
    proof {
        assert(voice_details_of(resources@) == Some(ds));
    }
    let m = details.len();
    let mut used: i64 = 0;
    let mut total: i64 = 0;
    let mut limit_used: i64 = 0;
    let mut limit_total: i64 = 0;
    let mut non_limit_used: i64 = 0;
    let mut non_limit_total: i64 = 0;
    let mut j: usize = 0;
    while j < m
        invariant
            0 <= j <= m,
            m == ds.len(),
            ds == details@,
            voice_details_of(resources@) == Some(ds),
            all_details_ok(ds.take(j as int)),
            sums_bounded(ds.take(j as int)),
            used == voice_sums(ds.take(j as int)).used,
            total == voice_sums(ds.take(j as int)).total,
            limit_used == voice_sums(ds.take(j as int)).limit_used,
            limit_total == voice_sums(ds.take(j as int)).limit_total,
            non_limit_used == voice_sums(ds.take(j as int)).non_limit_used,
            non_limit_total == voice_sums(ds.take(j as int)).non_limit_total,
        decreases m - j,
    {
        let d = &details[j];
        proof {
            assert(ds.take(j + 1).drop_last() =~= ds.take(j as int));
            assert(ds.take(j + 1).last() == ds[j as int]);
        }
        let u = match parse_i64(d.use_field.as_str()) {
            Some(v) => v,
            None => {
                proof {
                    assert(!detail_ok(ds[j as int]));
                }
                return Err(QuotaError::MalformedQuantity);
            },
        };
        let t = match parse_i64(d.total.as_str()) {
            Some(v) => v,
            None => {
                proof {
                    assert(!detail_ok(ds[j as int]));
                }
                return Err(QuotaError::MalformedQuantity);
            },
        };
        let ghost fits_needed = all_details_ok(ds) && sums_bounded(ds);
        proof {
            if fits_needed {
                lemma_sums_bounded_prefix(ds, j + 1);
            }
        }
        let limited = str_eq(d.limited.as_str(), "1");
        let new_used = match add_i64(used, u) {
            Some(v) => v,
            None => {
                return Err(QuotaError::MalformedQuantity);
            },
        };
        let new_total = match add_i64(total, t) {
            Some(v) => v,
            None => {
                return Err(QuotaError::MalformedQuantity);
            },
        };
        if limited {
            limit_used = match add_i64(limit_used, u) {
                Some(v) => v,
                None => {
                    return Err(QuotaError::MalformedQuantity);
                },
            };
            limit_total = match add_i64(limit_total, t) {
                Some(v) => v,
                None => {
                    return Err(QuotaError::MalformedQuantity);
                },
            };
        } else {
            non_limit_used = match add_i64(non_limit_used, u) {
                Some(v) => v,
                None => {
                    return Err(QuotaError::MalformedQuantity);
                },
            };
            non_limit_total = match add_i64(non_limit_total, t) {
                Some(v) => v,
                None => {
                    return Err(QuotaError::MalformedQuantity);
                },
            };
        }
        used = new_used;
        total = new_total;
        proof {
            assert(all_details_ok(ds.take(j + 1))) by {
                assert(forall|l: int|
                    0 <= l < j ==> #[trigger] ds.take(j + 1)[l] == ds.take(j as int)[l]);
            }
        }
        j += 1;
    }
    proof {
        assert(ds.take(m as int) =~= ds);
    }
    Ok((used, total, limit_used, limit_total, non_limit_used, non_limit_total))
}

} // verus!
