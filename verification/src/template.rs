//! Single-pass substitution of a fixed vocabulary of bracketed placeholders
//! into a user-supplied template.
//!
//! The whole vocabulary acts as one multi-pattern matcher: the template is
//! scanned once from left to right, and at every position the longest
//! matching placeholder (the earliest-listed one among equally long matches)
//! is replaced, scanning resuming right after the match.  Text outside
//! placeholders is copied through unchanged, and substituted text is never
//! rescanned.
use vstd::prelude::*;

verus! {

/// A non-empty pattern matches at the front of `tpl`.
pub open spec fn matches_at(tpl: Seq<char>, pat: Seq<char>) -> bool {
    &&& pat.len() > 0
    &&& pat.len() <= tpl.len()
    &&& tpl.take(pat.len() as int) == pat
}

/// The match chosen among the patterns with index below `j`: the longest
/// one matching at the front of `tpl`, the earliest listed on a tie.
pub open spec fn best_upto(tpl: Seq<char>, pats: Seq<Seq<char>>, j: int) -> Option<int>
    decreases j,
{
    if j <= 0 || j > pats.len() {
        None
    } else {
        let prev = best_upto(tpl, pats, j - 1);
        if matches_at(tpl, pats[j - 1]) && (prev is None || pats[j - 1].len()
            > pats[prev->0].len()) {
            Some(j - 1)
        } else {
            prev
        }
    }
}

/// The match chosen at the front of `tpl` over the whole pattern table.
pub open spec fn best_match(tpl: Seq<char>, pats: Seq<Seq<char>>) -> Option<int> {
    best_upto(tpl, pats, pats.len() as int)
}

/// What the chosen match guarantees: a real, longest, earliest match when
/// one exists; no pattern matches when none was chosen.
pub proof fn lemma_best_upto(tpl: Seq<char>, pats: Seq<Seq<char>>, j: int)
    requires
        j <= pats.len(),
    ensures
        match best_upto(tpl, pats, j) {
            Some(k) => {
                &&& 0 <= k < j
                &&& matches_at(tpl, pats[k])
                &&& forall|l: int| 0 <= l < j && matches_at(tpl, #[trigger] pats[l]) ==> pats[l].len() <= pats[k].len()
                &&& forall|l: int| 0 <= l < k && matches_at(tpl, #[trigger] pats[l]) ==> pats[l].len() < pats[k].len()
            },
            None => forall|l: int| 0 <= l < j ==> !matches_at(tpl, #[trigger] pats[l]),
        },
    decreases j,
{
    if j > 0 {
        lemma_best_upto(tpl, pats, j - 1);
    }
}

/// The rendered form of `tpl`: at each position the chosen placeholder is
/// replaced by the replacement of the same index, other text is copied.
pub open spec fn render_text(tpl: Seq<char>, pats: Seq<Seq<char>>, reps: Seq<Seq<char>>) -> Seq<
    char,
>
    decreases tpl.len(),
    via render_text_decreases
{
    if tpl.len() == 0 {
        Seq::empty()
    } else {
        match best_match(tpl, pats) {
            Some(j) => reps[j] + render_text(tpl.skip(pats[j].len() as int), pats, reps),
            None => seq![tpl[0]] + render_text(tpl.skip(1), pats, reps),
        }
    }
}

#[via_fn]
proof fn render_text_decreases(tpl: Seq<char>, pats: Seq<Seq<char>>, reps: Seq<Seq<char>>) {
    lemma_best_upto(tpl, pats, pats.len() as int);
}

/// Some placeholder of the table is the empty string.
pub open spec fn has_empty(pats: Seq<Seq<char>>) -> bool {
    exists|i: int| 0 <= i < pats.len() && #[trigger] pats[i].len() == 0
}

/// Two placeholders of the table read the same.
pub open spec fn has_dup(pats: Seq<Seq<char>>) -> bool {
    exists|i: int, j: int| 0 <= i < j < pats.len() && #[trigger] pats[i] == #[trigger] pats[j]
}

/// A well-formed table: no empty placeholder, no duplicate.
pub open spec fn table_ok(pats: Seq<Seq<char>>) -> bool {
    !has_empty(pats) && !has_dup(pats)
}

/// The placeholder texts of a binding list.
pub open spec fn pats_of(bindings: Seq<(String, String)>) -> Seq<Seq<char>> {
    bindings.map(|i: int, b: (String, String)| b.0@)
}

/// The replacement texts of a binding list.
pub open spec fn reps_of(bindings: Seq<(String, String)>) -> Seq<Seq<char>> {
    bindings.map(|i: int, b: (String, String)| b.1@)
}

/// Placeholder and replacement texts of a concatenation of binding lists:
/// the concatenation of the texts of each list.
pub proof fn lemma_binding_concat(a: Seq<(String, String)>, b: Seq<(String, String)>)
    ensures
        pats_of(a + b) == pats_of(a) + pats_of(b),
        reps_of(a + b) == reps_of(a) + reps_of(b),
{
    assert(pats_of(a + b) =~= pats_of(a) + pats_of(b));
    assert(reps_of(a + b) =~= reps_of(a) + reps_of(b));
}

/// Building the placeholder table failed; a programming error in the
/// engine's configuration, not a runtime data problem.
#[derive(Clone, Copy, Debug, PartialEq, Eq, Structural)]
pub enum TemplateError {
    EmptyPlaceholder,
    DuplicatePlaceholder,
}

/// Whether the pattern of length `plen` matches `template` at position `i`.
fn match_at(template: &str, tlen: usize, i: usize, pat: &str, plen: usize) -> (b: bool)
    requires
        i <= tlen,
        tlen == template@.len(),
        plen == pat@.len(),
    ensures
        b == matches_at(template@.skip(i as int), pat@),
{
    let ghost suffix = template@.skip(i as int);
    if plen == 0 || plen > tlen - i {
        return false;
    }
    let mut k: usize = 0;
    while k < plen
        invariant
            0 <= k <= plen,
            i <= tlen,
            tlen == template@.len(),
            plen == pat@.len(),
            plen <= tlen - i,
            suffix == template@.skip(i as int),
            forall|l: int| 0 <= l < k ==> suffix[l] == pat@[l],
        decreases plen - k,
    {
        if template.get_char(i + k) != pat.get_char(k) {
            proof {
                assert(suffix[k as int] == template@[i + k as int]);
                assert(suffix.take(plen as int)[k as int] != pat@[k as int]);
            }
            return false;
        }
        k += 1;
    }
    proof {
        assert(suffix.take(plen as int) =~= pat@);
    }
    true
}

/// The index of the placeholder to substitute at position `i`, if any.
fn best_match_at(
    template: &str,
    tlen: usize,
    i: usize,
    bindings: &Vec<(String, String)>,
    plens: &Vec<usize>,
) -> (r: Option<usize>)
    requires
        i <= tlen,
        tlen == template@.len(),
        plens@.len() == bindings@.len(),
        forall|j: int|
            0 <= j < bindings@.len() ==> plens@[j] == #[trigger] pats_of(bindings@)[j].len(),
    ensures
        match r {
            Some(j) => Some(j as int) == best_match(template@.skip(i as int), pats_of(bindings@)),
            None => best_match(template@.skip(i as int), pats_of(bindings@)) is None,
        },
{
    let ghost pats = pats_of(bindings@);
    let n = bindings.len();
    let mut best: Option<usize> = None;
    let mut j: usize = 0;
    while j < n
        invariant
            0 <= j <= n,
            n == bindings@.len(),
            i <= tlen,
            tlen == template@.len(),
            plens@.len() == bindings@.len(),
            pats == pats_of(bindings@),
            forall|l: int| 0 <= l < bindings@.len() ==> plens@[l] == #[trigger] pats[l].len(),
            match best {
                Some(b) => b < j && Some(b as int) == best_upto(
                    template@.skip(i as int),
                    pats,
                    j as int,
                ),
                None => best_upto(template@.skip(i as int), pats, j as int) is None,
            },
        decreases n - j,
    {
        proof {
            assert(pats[j as int] == bindings@[j as int].0@);
        }
        let matched = match_at(template, tlen, i, bindings[j].0.as_str(), plens[j]);
        let longer = match best {
            None => true,
            Some(b) => plens[j] > plens[b],
        };
        if matched && longer {
            best = Some(j);
        }
        j += 1;
    }
    best
}

/// Renders `template` by substituting every occurrence of each placeholder
/// of `bindings` with its replacement, in one left-to-right pass under
/// longest-match-at-position semantics.  Placeholders absent from the
/// template are simply unused; repeated ones are substituted at each
/// occurrence.  Fails exactly when the binding table itself is malformed:
/// an empty placeholder, or the same placeholder listed twice.
pub fn render(template: &str, bindings: &Vec<(String, String)>) -> (r: Result<
    String,
    TemplateError,
>)
    ensures
        r is Ok <==> table_ok(pats_of(bindings@)),
        r matches Ok(s) ==> s@ == render_text(template@, pats_of(bindings@), reps_of(bindings@)),
        r matches Err(e) ==> {
            &&& e is EmptyPlaceholder <==> has_empty(pats_of(bindings@))
            &&& e is DuplicatePlaceholder <==> !has_empty(pats_of(bindings@)) && has_dup(
                pats_of(bindings@),
            )
        },
{
    let ghost pats = pats_of(bindings@);
    let ghost reps = reps_of(bindings@);
    proof {
        assert(forall|l: int|
            0 <= l < bindings@.len() ==> #[trigger] pats[l] == bindings@[l].0@ && reps[l]
                == bindings@[l].1@);
    }
    let n = bindings.len();

    let mut plens: Vec<usize> = Vec::new();
    let mut j: usize = 0;
    while j < n
        invariant
            0 <= j <= n,
            n == bindings@.len(),
            pats == pats_of(bindings@),
            plens@.len() == j,
            forall|l: int| 0 <= l < j ==> plens@[l] == #[trigger] pats[l].len(),
            forall|l: int| 0 <= l < j ==> #[trigger] pats[l].len() > 0,
        decreases n - j,
    {
        let plen = bindings[j].0.as_str().unicode_len();
        if plen == 0 {
            proof {
                assert(pats[j as int].len() == 0);
                assert(has_empty(pats));
            }
            return Err(TemplateError::EmptyPlaceholder);
        }
        plens.push(plen);
        j += 1;
    }

    let mut a: usize = 0;
    while a < n
        invariant
            0 <= a <= n,
            n == bindings@.len(),
            pats == pats_of(bindings@),
            !has_empty(pats),
            forall|x: int, y: int| 0 <= x < y < pats.len() && x < a ==> pats[x] != pats[y],
        decreases n - a,
    {
        let mut b: usize = a + 1;
        while b < n
            invariant
                a < b <= n || (a + 1 >= n && b == a + 1),
                a < n,
                n == bindings@.len(),
                pats == pats_of(bindings@),
                !has_empty(pats),
                forall|y: int| a < y < b ==> pats[a as int] != pats[y],
            decreases n - b,
        {
            if bindings[a].0 == bindings[b].0 {
                proof {
                    assert(pats[a as int] == pats[b as int]);
                    assert(has_dup(pats));
                }
                return Err(TemplateError::DuplicatePlaceholder);
            }
            b += 1;
        }
        a += 1;
    }

    let tlen = template.unicode_len();
    let mut out = String::new();
    let mut i: usize = 0;
    proof {
        assert(template@.skip(0) =~= template@);
    }
    while i < tlen
        invariant
            0 <= i <= tlen,
            tlen == template@.len(),
            n == bindings@.len(),
            pats == pats_of(bindings@),
            reps == reps_of(bindings@),
            plens@.len() == n,
            forall|l: int| 0 <= l < n ==> plens@[l] == #[trigger] pats[l].len(),
            out@ + render_text(template@.skip(i as int), pats, reps) == render_text(
                template@,
                pats,
                reps,
            ),
        decreases tlen - i,
    {
        let ghost suffix = template@.skip(i as int);
        match best_match_at(template, tlen, i, bindings, &plens) {
            Some(j) => {
                proof {
                    lemma_best_upto(suffix, pats, pats.len() as int);
                    assert(suffix.skip(pats[j as int].len() as int) =~= template@.skip(
                        i + plens@[j as int],
                    ));
                    assert((out@ + reps[j as int]) + render_text(
                        template@.skip(i + plens@[j as int]),
                        pats,
                        reps,
                    ) =~= out@ + (reps[j as int] + render_text(
                        template@.skip(i + plens@[j as int]),
                        pats,
                        reps,
                    )));
                }
                out.append(bindings[j].1.as_str());
                i += plens[j];
            },
            None => {
                proof {
                    assert(template@.subrange(i as int, i + 1) =~= seq![suffix[0]]);
                    assert(suffix.skip(1) =~= template@.skip(i + 1));
                    assert((out@ + seq![suffix[0]]) + render_text(template@.skip(i + 1), pats, reps)
                        =~= out@ + (seq![suffix[0]] + render_text(
                        template@.skip(i + 1),
                        pats,
                        reps,
                    )));
                }
                out.append(template.substring_char(i, i + 1));
                i += 1;
            },
        }
    }
    proof {
        assert(template@.skip(tlen as int) =~= Seq::<char>::empty());
        assert(out@ + Seq::<char>::empty() =~= out@);
    }
    Ok(out)
}

/// No placeholder of the table occurs anywhere in `tpl`.
pub open spec fn literal_only(tpl: Seq<char>, pats: Seq<Seq<char>>) -> bool {
    forall|i: int, j: int|
        0 <= i <= tpl.len() && 0 <= j < pats.len() ==> !matches_at(
            #[trigger] tpl.skip(i),
            #[trigger] pats[j],
        )
}

/// Rendering a template that contains no placeholder at all returns the
/// template text unchanged, whatever the replacements are.
pub proof fn lemma_literal_template_unchanged(
    tpl: Seq<char>,
    pats: Seq<Seq<char>>,
    reps: Seq<Seq<char>>,
)
    requires
        literal_only(tpl, pats),
    ensures
        render_text(tpl, pats, reps) == tpl,
    decreases tpl.len(),
{
    if tpl.len() == 0 {
        assert(render_text(tpl, pats, reps) =~= tpl);
    } else {
        assert(tpl.skip(0) =~= tpl);
        lemma_best_upto(tpl, pats, pats.len() as int);
        assert(forall|j: int| 0 <= j < pats.len() ==> !matches_at(tpl, #[trigger] pats[j]));
        assert(best_match(tpl, pats) is None);
        assert forall|i: int, j: int|
            0 <= i <= tpl.skip(1).len() && 0 <= j < pats.len() implies !matches_at(
            #[trigger] tpl.skip(1).skip(i),
            #[trigger] pats[j],
        ) by {
            assert(tpl.skip(1).skip(i) =~= tpl.skip(1 + i));
            assert(!matches_at(tpl.skip(1 + i), pats[j]));
        }
        lemma_literal_template_unchanged(tpl.skip(1), pats, reps);
        assert(seq![tpl[0]] + tpl.skip(1) =~= tpl);
    }
}

} // verus!
