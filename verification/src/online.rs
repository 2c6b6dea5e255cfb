//! The sign-on exchange's data: the refreshed token the service returns,
//! and the extraction of the session cookie pair from `Set-Cookie` header
//! values.
use crate::strutil::str_eq;
use vstd::prelude::*;

verus! {

/// What a completed sign-on yields: the refreshed online token and the
/// assembled session cookie.
#[derive(Debug, Clone)]
pub struct OnlineResp {
    pub online_token: String,
    pub cookie: String,
}

/// The body of the sign-on response: the refreshed online token.
#[derive(Debug, Clone)]
pub struct RawOnlineResp {
    pub token_online: String,
}

/// Position of the first `; ` separator of a header value, `-1` when none.
pub open spec fn first_sep(s: Seq<char>) -> int
    decreases s.len(),
{
    if s.len() < 2 {
        -1
    } else if s[0] == ';' && s[1] == ' ' {
        0
    } else {
        let r = first_sep(s.drop_first());
        if r < 0 {
            -1
        } else {
            r + 1
        }
    }
}

/// The separator position is either absent or a real position with room
/// for the two separator characters.
pub proof fn lemma_first_sep_props(s: Seq<char>)
    ensures
        first_sep(s) == -1 || (0 <= first_sep(s) && first_sep(s) + 2 <= s.len() && s[first_sep(s)]
            == ';' && s[first_sep(s) + 1] == ' '),
    decreases s.len(),
{
    if s.len() >= 2 && !(s[0] == ';' && s[1] == ' ') {
        lemma_first_sep_props(s.drop_first());
    }
}

/// A separator at `k` with none before it is the first separator.
pub proof fn lemma_first_sep_at(s: Seq<char>, k: int)
    requires
        0 <= k,
        k + 1 < s.len(),
        s[k] == ';',
        s[k + 1] == ' ',
        forall|l: int| 0 <= l < k ==> !(#[trigger] s[l] == ';' && s[l + 1] == ' '),
    ensures
        first_sep(s) == k,
    decreases s.len(),
{
    if k > 0 {
        lemma_first_sep_at(s.drop_first(), k - 1);
    }
}

/// With no separator anywhere there is no first separator.
pub proof fn lemma_first_sep_none(s: Seq<char>)
    requires
        forall|l: int| 0 <= l && l + 1 < s.len() ==> !(#[trigger] s[l] == ';' && s[l + 1] == ' '),
    ensures
        first_sep(s) == -1,
    decreases s.len(),
{
    if s.len() >= 2 {
        lemma_first_sep_none(s.drop_first());
    }
}

/// The `; `-separated parts of a header value.
pub open spec fn split_parts(s: Seq<char>) -> Seq<Seq<char>>
    decreases s.len(),
    via split_parts_decreases
{
    if first_sep(s) < 0 {
        seq![s]
    } else {
        seq![s.take(first_sep(s))] + split_parts(s.skip(first_sep(s) + 2))
    }
}

#[via_fn]
proof fn split_parts_decreases(s: Seq<char>) {
    lemma_first_sep_props(s);
}

/// Position of the first `=` of a part, `-1` when none.
pub open spec fn first_eq(s: Seq<char>) -> int
    decreases s.len(),
{
    if s.len() == 0 {
        -1
    } else if s[0] == '=' {
        0
    } else {
        let r = first_eq(s.drop_first());
        if r < 0 {
            -1
        } else {
            r + 1
        }
    }
}

/// An `=` at `k` with none before it is the first `=`.
pub proof fn lemma_first_eq_at(s: Seq<char>, k: int)
    requires
        0 <= k < s.len(),
        s[k] == '=',
        forall|l: int| 0 <= l < k ==> #[trigger] s[l] != '=',
    ensures
        first_eq(s) == k,
    decreases s.len(),
{
    if k > 0 {
        lemma_first_eq_at(s.drop_first(), k - 1);
    }
}

/// With no `=` anywhere there is no first `=`.
pub proof fn lemma_first_eq_none(s: Seq<char>)
    requires
        forall|l: int| 0 <= l < s.len() ==> #[trigger] s[l] != '=',
    ensures
        first_eq(s) == -1,
    decreases s.len(),
{
    if s.len() > 0 {
        lemma_first_eq_none(s.drop_first());
    }
}

/// The part is a key-value pair whose key is the given name.
pub open spec fn part_has_key(part: Seq<char>, key: Seq<char>) -> bool {
    first_eq(part) >= 0 && part.take(first_eq(part)) == key
}

/// The value of a key-value part: what follows its first `=`.
pub open spec fn part_value(part: Seq<char>) -> Seq<char> {
    part.skip(first_eq(part) + 1)
}

/// The token state after reading the parts in order: the value of the
/// last part keyed `ecs_token`, or the state read in.
pub open spec fn token_after(cur: Option<Seq<char>>, parts: Seq<Seq<char>>) -> Option<Seq<char>>
    decreases parts.len(),
{
    if parts.len() == 0 {
        cur
    } else {
        token_after(
            if part_has_key(parts[0], "ecs_token"@) {
                Some(part_value(parts[0]))
            } else {
                cur
            },
            parts.drop_first(),
        )
    }
}

/// The account-cookie state after reading the parts in order: the value of
/// the last part keyed `ecs_acc`, or the state read in.
pub open spec fn acc_after(cur: Option<Seq<char>>, parts: Seq<Seq<char>>) -> Option<Seq<char>>
    decreases parts.len(),
{
    if parts.len() == 0 {
        cur
    } else {
        acc_after(
            if part_has_key(parts[0], "ecs_acc"@) {
                Some(part_value(parts[0]))
            } else {
                cur
            },
            parts.drop_first(),
        )
    }
}

/// The scan state over the header values.
pub struct CookieState {
    pub token: Option<Seq<char>>,
    pub acc: Option<Seq<char>>,
}

/// Reads the header values in order, stopping after the first header that
/// leaves both cookies known.
pub open spec fn scan_headers(st: CookieState, hs: Seq<String>) -> CookieState
    decreases hs.len(),
{
    if hs.len() == 0 {
        st
    } else {
        let parts = split_parts(hs[0]@);
        let st2 = CookieState {
            token: token_after(st.token, parts),
            acc: acc_after(st.acc, parts),
        };
        if st2.token is Some && st2.acc is Some {
            st2
        } else {
            scan_headers(st2, hs.drop_first())
        }
    }
}

/// The assembled session cookie of the header values: both cookies found,
/// joined as `ecs_token=<t>; ecs_acc=<a>`; nothing when either is absent.
pub open spec fn cookie_of(hs: Seq<String>) -> Option<Seq<char>> {
    let st = scan_headers(CookieState { token: None, acc: None }, hs);
    if st.token is Some && st.acc is Some {
        Some("ecs_token="@ + st.token->0 + "; ecs_acc="@ + st.acc->0)
    } else {
        None
    }
}

/// The view of an optional owned string.
pub open spec fn opt_view(o: Option<String>) -> Option<Seq<char>> {
    match o {
        Some(s) => Some(s@),
        None => None,
    }
}

/// Reads one `Set-Cookie` header value: splits it at each `; `, splits
/// each part at its first `=`, and keeps the values keyed `ecs_token` and
/// `ecs_acc`, later occurrences overwriting earlier ones.
fn read_header(h: &str, token: &mut Option<String>, acc: &mut Option<String>)
    ensures
        opt_view(*final(token)) == token_after(opt_view(*old(token)), split_parts(h@)),
        opt_view(*final(acc)) == acc_after(opt_view(*old(acc)), split_parts(h@)),
{
    let len = h.unicode_len();
    let mut pos: usize = 0;
    let mut finished = false;
    proof {
        assert(h@.skip(0) =~= h@);
    }
    while !finished
        invariant
            0 <= pos <= len,
            len == h@.len(),
            !finished ==> token_after(opt_view(*old(token)), split_parts(h@)) == token_after(
                opt_view(*token),
                split_parts(h@.skip(pos as int)),
            ),
            !finished ==> acc_after(opt_view(*old(acc)), split_parts(h@)) == acc_after(
                opt_view(*acc),
                split_parts(h@.skip(pos as int)),
            ),
            finished ==> token_after(opt_view(*old(token)), split_parts(h@)) == opt_view(*token),
            finished ==> acc_after(opt_view(*old(acc)), split_parts(h@)) == opt_view(*acc),
        decreases len - pos + if finished {
            0int
        } else {
            1int
        },
    {
        let ghost suffix = h@.skip(pos as int);
        let ghost tok0 = opt_view(*token);
        let ghost acc0 = opt_view(*acc);
        // find the next `; ` separator
        let mut k: usize = pos;
        let mut sep_found = false;
        while !sep_found && len - k > 1
            invariant
                pos <= k <= len,
                len == h@.len(),
                suffix == h@.skip(pos as int),
                forall|l: int| pos <= l < k ==> !(#[trigger] h@[l] == ';' && h@[l + 1] == ' '),
                sep_found ==> k + 1 < len && h@[k as int] == ';' && h@[k as int + 1] == ' ',
            decreases len - k + if sep_found {
                0int
            } else {
                1int
            },
        {
            if h.get_char(k) == ';' && h.get_char(k + 1) == ' ' {
                sep_found = true;
            } else {
                k += 1;
            }
        }
        let part_end: usize = if sep_found {
            k
        } else {
            len
        };
        let ghost part = h@.subrange(pos as int, part_end as int);
        proof {
            assert(part =~= suffix.take(part_end - pos));
            assert(forall|l: int|
                0 <= l < part_end - pos ==> #[trigger] suffix[l] == h@[pos + l]);
            if sep_found {
                assert(suffix[k - pos] == ';' && suffix[k - pos + 1] == ' ');
                lemma_first_sep_at(suffix, k - pos);
                assert(split_parts(suffix) == seq![part] + split_parts(
                    suffix.skip(k - pos + 2),
                ));
            } else {
                assert(forall|l: int|
                    0 <= l && l + 1 < suffix.len() ==> !(#[trigger] suffix[l] == ';' && suffix[l
                        + 1] == ' '));
                lemma_first_sep_none(suffix);
                assert(split_parts(suffix) == seq![suffix]);
                assert(part =~= suffix);
            }
        }
        // find the first `=` of the part
        let mut e: usize = pos;
        let mut eq_found = false;
        while !eq_found && e < part_end
            invariant
                pos <= e <= part_end <= len,
                len == h@.len(),
                part == h@.subrange(pos as int, part_end as int),
                forall|l: int| pos <= l < e ==> #[trigger] h@[l] != '=',
                eq_found ==> e < part_end && h@[e as int] == '=',
            decreases part_end - e + if eq_found {
                0int
            } else {
                1int
            },
        {
            if h.get_char(e) == '=' {
                eq_found = true;
            } else {
                e += 1;
            }
        }
        proof {
            assert(forall|l: int| 0 <= l < part.len() ==> #[trigger] part[l] == h@[pos + l]);
            if eq_found {
                lemma_first_eq_at(part, e - pos);
            } else {
                lemma_first_eq_none(part);
            }
        }
        if eq_found {
            let key = h.substring_char(pos, e);
            proof {
                assert(key@ =~= part.take(e - pos));
            }
            if str_eq(key, "ecs_token") {
                let value = h.substring_char(e + 1, part_end).to_owned();
                proof {
                    assert(value@ =~= part_value(part));
                    assert(part_has_key(part, "ecs_token"@));
                    assert(!part_has_key(part, "ecs_acc"@)) by {
                        reveal_strlit("ecs_token");
                        reveal_strlit("ecs_acc");
                        assert(("ecs_token"@).len() == 9);
                        assert(("ecs_acc"@).len() == 7);
                    }
                }
                *token = Some(value);
            } else if str_eq(key, "ecs_acc") {
                let value = h.substring_char(e + 1, part_end).to_owned();
                proof {
                    assert(value@ =~= part_value(part));
                    assert(part_has_key(part, "ecs_acc"@));
                    assert(!part_has_key(part, "ecs_token"@)) by {
                        reveal_strlit("ecs_token");
                        reveal_strlit("ecs_acc");
                        assert(("ecs_token"@).len() == 9);
                        assert(("ecs_acc"@).len() == 7);
                    }
                }
                *acc = Some(value);
            } else {
                proof {
                    assert(!part_has_key(part, "ecs_token"@));
                    assert(!part_has_key(part, "ecs_acc"@));
                }
            }
        } else {
            proof {
                assert(!part_has_key(part, "ecs_token"@));
                assert(!part_has_key(part, "ecs_acc"@));
            }
        }
        proof {
            assert(opt_view(*token) == if part_has_key(part, "ecs_token"@) {
                Some(part_value(part))
            } else {
                tok0
            });
            assert(opt_view(*acc) == if part_has_key(part, "ecs_acc"@) {
                Some(part_value(part))
            } else {
                acc0
            });
            assert(split_parts(suffix)[0] == part);
            assert(token_after(tok0, split_parts(suffix)) == token_after(
                opt_view(*token),
                split_parts(suffix).drop_first(),
            ));
            assert(acc_after(acc0, split_parts(suffix)) == acc_after(
                opt_view(*acc),
                split_parts(suffix).drop_first(),
            ));
        }
        if sep_found {
            proof {
                assert(suffix.skip(k - pos + 2) =~= h@.skip(k + 2));
                assert(split_parts(suffix).drop_first() =~= split_parts(h@.skip(k + 2)));
            }
            pos = k + 2;
        } else {
            proof {
                assert(split_parts(suffix).drop_first() =~= Seq::<Seq<char>>::empty());
                assert(token_after(opt_view(*token), Seq::<Seq<char>>::empty()) == opt_view(
                    *token,
                ));
            }
            pos = part_end;
            finished = true;
        }
    }
}

/// Extracts the session cookie pair from the `Set-Cookie` header values of
/// the sign-on response: reads the headers in order, stops after the first
/// header that leaves both the `ecs_token` and `ecs_acc` values known, and
/// joins them; nothing when either never appears.
pub fn extract_ecs_cookies(headers: &Vec<String>) -> (r: Option<String>)
    ensures
        r is Some <==> cookie_of(headers@) is Some,
        r matches Some(s) ==> Some(s@) == cookie_of(headers@),
{
    let n = headers.len();
    let mut token: Option<String> = None;
    let mut acc: Option<String> = None;
    let mut i: usize = 0;
    let mut done = false;
    let ghost st0 = CookieState { token: None, acc: None };
    proof {
        assert(headers@.skip(0) =~= headers@);
    }
    while i < n && !done
        invariant
            0 <= i <= n,
            n == headers@.len(),
            done ==> scan_headers(st0, headers@) == (CookieState {
                token: opt_view(token),
                acc: opt_view(acc),
            }) && token is Some && acc is Some,
            !done ==> scan_headers(st0, headers@) == scan_headers(
                CookieState { token: opt_view(token), acc: opt_view(acc) },
                headers@.skip(i as int),
            ),
        decreases n - i + if done {
            0int
        } else {
            1int
        },
    {
        let ghost pre = CookieState { token: opt_view(token), acc: opt_view(acc) };
        let ghost hs = headers@.skip(i as int);
        read_header(headers[i].as_str(), &mut token, &mut acc);
        proof {
            assert(hs[0] == headers@[i as int]);
            assert(hs.drop_first() =~= headers@.skip(i as int + 1));
        }
        if token.is_some() && acc.is_some() {
            done = true;
        } else {
            i += 1;
        }
    }
    proof {
        if !done {
            assert(headers@.skip(n as int) =~= Seq::<String>::empty());
        }
    }
    match (token, acc) {
        (Some(t), Some(a)) => {
            let mut out = "ecs_token=".to_owned();
            out.append(t.as_str());
            out.append("; ecs_acc=");
            out.append(a.as_str());
            Some(out)
        },
        _ => None,
    }
}

} // verus!
