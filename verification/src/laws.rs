//! The laws the parser and the builder obey, stated over the grammar's
//! spec functions and proved once and for all.

use vstd::prelude::*;

use crate::Error;
use crate::arn::{parse_spec, parse_structural, parse_tail};
use crate::parts::{ArnView, build_spec, view_of};
use crate::text::{
    all_allowed, all_region, find_ch, find_stop, is_allowed_char, is_delim, is_ws,
    lemma_allowed_not_ws, lemma_trim_no_ws, trim_end_spec, trim_spec, trim_start_spec,
};

verus! {

broadcast use {
    crate::text::lemma_find_ch_props,
    crate::text::lemma_find_stop_props,
    crate::text::lemma_find_last_ch_props,
};

// ---------------------------------------------------------------------------
// Trimming under whitespace padding
// ---------------------------------------------------------------------------

proof fn lemma_trim_start_ws_prefix(pre: Seq<char>, x: Seq<char>)
    requires
        forall|i: int| 0 <= i < pre.len() ==> is_ws(#[trigger] pre[i]),
    ensures
        trim_start_spec(pre + x) == trim_start_spec(x),
    decreases pre.len(),
{
    if pre.len() == 0 {
        assert(pre + x =~= x);
    } else {
        assert((pre + x)[0] == pre[0]);
        assert((pre + x).skip(1) =~= pre.skip(1) + x);
        assert forall|i: int| 0 <= i < pre.skip(1).len() implies is_ws(#[trigger] pre.skip(1)[i]) by {
            assert(pre.skip(1)[i] == pre[i + 1]);
        }
        lemma_trim_start_ws_prefix(pre.skip(1), x);
    }
}

proof fn lemma_trim_start_all_ws(s: Seq<char>)
    requires
        forall|i: int| 0 <= i < s.len() ==> is_ws(#[trigger] s[i]),
    ensures
        trim_start_spec(s) == Seq::<char>::empty(),
    decreases s.len(),
{
    if s.len() == 0 {
        assert(s =~= Seq::<char>::empty());
    } else {
        assert forall|i: int| 0 <= i < s.skip(1).len() implies is_ws(#[trigger] s.skip(1)[i]) by {
            assert(s.skip(1)[i] == s[i + 1]);
        }
        lemma_trim_start_all_ws(s.skip(1));
    }
}

proof fn lemma_trim_start_with_suffix(s: Seq<char>, post: Seq<char>)
    requires
        exists|k: int| 0 <= k < s.len() && !is_ws(#[trigger] s[k]),
    ensures
        trim_start_spec(s + post) == trim_start_spec(s) + post,
    decreases s.len(),
{
    let k = choose|k: int| 0 <= k < s.len() && !is_ws(#[trigger] s[k]);
    if is_ws(s[0]) {
        assert((s + post)[0] == s[0]);
        assert((s + post).skip(1) =~= s.skip(1) + post);
        assert(0 <= k - 1 < s.skip(1).len() && !is_ws(s.skip(1)[k - 1]));
        lemma_trim_start_with_suffix(s.skip(1), post);
    } else {
        assert((s + post)[0] == s[0]);
    }
}

proof fn lemma_trim_end_ws_suffix(x: Seq<char>, post: Seq<char>)
    requires
        forall|i: int| 0 <= i < post.len() ==> is_ws(#[trigger] post[i]),
    ensures
        trim_end_spec(x + post) == trim_end_spec(x),
    decreases post.len(),
{
    if post.len() == 0 {
        assert(x + post =~= x);
    } else {
        assert((x + post)[(x + post).len() - 1] == post[post.len() - 1]);
        assert((x + post).drop_last() =~= x + post.drop_last());
        assert forall|i: int| 0 <= i < post.drop_last().len() implies is_ws(
            #[trigger] post.drop_last()[i],
        ) by {
            assert(post.drop_last()[i] == post[i]);
        }
        lemma_trim_end_ws_suffix(x, post.drop_last());
    }
}

/// Whitespace tolerance: an input surrounded by any amount of leading and
/// trailing whitespace parses exactly as the input itself does.
pub proof fn lemma_whitespace_tolerance(pre: Seq<char>, s: Seq<char>, post: Seq<char>)
    requires
        forall|i: int| 0 <= i < pre.len() ==> is_ws(#[trigger] pre[i]),
        forall|i: int| 0 <= i < post.len() ==> is_ws(#[trigger] post[i]),
    ensures
        parse_spec(pre + s + post) == parse_spec(s),
{
    assert(pre + s + post =~= pre + (s + post));
    lemma_trim_start_ws_prefix(pre, s + post);
    if exists|k: int| 0 <= k < s.len() && !is_ws(#[trigger] s[k]) {
        lemma_trim_start_with_suffix(s, post);
        lemma_trim_end_ws_suffix(trim_start_spec(s), post);
        assert(trim_spec(pre + s + post) == trim_spec(s));
    } else {
        assert forall|i: int| 0 <= i < s.len() implies is_ws(#[trigger] s[i]) by {}
        lemma_trim_start_ws_prefix(s, post);
        lemma_trim_start_all_ws(s);
        lemma_trim_start_all_ws(post);
        assert(trim_spec(pre + s + post) == trim_spec(s));
    }
}

// ---------------------------------------------------------------------------
// Length and character boundaries
// ---------------------------------------------------------------------------

proof fn lemma_allowed_trims_to_itself(s: Seq<char>)
    requires
        all_allowed(s),
    ensures
        trim_spec(s) == s,
{
    assert forall|i: int| 0 <= i < s.len() implies !is_ws(#[trigger] s[i]) by {
        lemma_allowed_not_ws(s[i]);
    }
    lemma_trim_no_ws(s);
}

/// Length boundary, rejecting side: an input that is longer than 2048
/// characters after trimming is rejected as too long, whatever it holds.
pub proof fn lemma_too_long(s: Seq<char>)
    requires
        trim_spec(s).len() > 2048,
    ensures
        parse_spec(s) == Err::<ArnView, Error>(Error::TooLong),
{
}

/// The same boundary for a string over the allowed alphabet, which
/// trimming cannot shorten: 2049 such characters always fail as too long.
pub proof fn lemma_too_long_valid_alphabet(s: Seq<char>)
    requires
        all_allowed(s),
        s.len() > 2048,
    ensures
        parse_spec(s) == Err::<ArnView, Error>(Error::TooLong),
{
    lemma_allowed_trims_to_itself(s);
}

/// Length boundary, accepting side: a string over the allowed alphabet of
/// at most 2048 characters parses structurally whenever the grammar
/// matches and the region field is clean.
pub proof fn lemma_length_boundary_ok(s: Seq<char>)
    requires
        all_allowed(s),
        s.len() <= 2048,
        parse_structural(s) is Some,
        all_region(parse_structural(s)->0.region),
    ensures
        parse_spec(s) == Ok::<ArnView, Error>(parse_structural(s)->0),
{
    lemma_allowed_trims_to_itself(s);
}

/// Character boundary: a character outside the allowed set anywhere in the
/// trimmed input is rejected as a bad character, provided the input is not
/// already over the length limit, which is checked first.
pub proof fn lemma_bad_characters(s: Seq<char>)
    requires
        trim_spec(s).len() <= 2048,
        !all_allowed(trim_spec(s)),
    ensures
        parse_spec(s) == Err::<ArnView, Error>(Error::BadCharacters),
{
}

/// Region injection guard: an input whose structural parse puts anything
/// but letters, digits and hyphens into the region field is rejected as
/// bad characters, never parsed, provided it is not over the length limit.
pub proof fn lemma_region_guard(s: Seq<char>)
    requires
        trim_spec(s).len() <= 2048,
        parse_structural(trim_spec(s)) is Some,
        !all_region(parse_structural(trim_spec(s))->0.region),
    ensures
        parse_spec(s) == Err::<ArnView, Error>(Error::BadCharacters),
{
}

// ---------------------------------------------------------------------------
// The shape of every parsed identifier
// ---------------------------------------------------------------------------

pub open spec fn colon_free(s: Seq<char>) -> bool {
    forall|i: int| 0 <= i < s.len() ==> #[trigger] s[i] != ':'
}

pub open spec fn delim_free(s: Seq<char>) -> bool {
    forall|i: int| 0 <= i < s.len() ==> !is_delim(#[trigger] s[i])
}

/// What holds of every identifier the parser returns: each field drawn from
/// the allowed alphabet, no colons in the four head fields, a clean region,
/// no delimiters in the resource type, a revision only behind a slash
/// delimiter, and a delimiter-free resource id wherever a revision is
/// present.
pub open spec fn wf(v: ArnView) -> bool {
    &&& all_allowed(v.partition)
    &&& all_allowed(v.service)
    &&& all_allowed(v.region)
    &&& all_allowed(v.account)
    &&& all_allowed(v.resource_type)
    &&& all_allowed(v.resource_id)
    &&& all_allowed(v.resource_revision)
    &&& colon_free(v.partition)
    &&& colon_free(v.service)
    &&& colon_free(v.region)
    &&& colon_free(v.account)
    &&& all_region(v.region)
    &&& delim_free(v.resource_type)
    &&& (!v.has_path ==> v.resource_revision.len() == 0)
    &&& (v.has_path && v.resource_revision.len() > 0 ==> delim_free(v.resource_id))
}

proof fn lemma_all_allowed_subrange(s: Seq<char>, i: int, j: int)
    requires
        all_allowed(s),
        0 <= i <= j <= s.len(),
    ensures
        all_allowed(s.subrange(i, j)),
{
    assert forall|k: int| 0 <= k < s.subrange(i, j).len() implies is_allowed_char(
        #[trigger] s.subrange(i, j)[k],
    ) by {
        assert(s.subrange(i, j)[k] == s[i + k]);
    }
}

/// Every successfully parsed identifier is well-formed.
pub proof fn lemma_parse_wf(s: Seq<char>)
    requires
        parse_spec(s) is Ok,
    ensures
        wf(parse_spec(s)->Ok_0),
{
    let t = trim_spec(s);
    let v = parse_spec(s)->Ok_0;
    assert(all_allowed(t));
    assert(parse_structural(t) == Some(v));
    let s1 = t.skip(4);
    lemma_all_allowed_subrange(t, 4, t.len() as int);
    // The four head fields, each cut at its first colon.
    let i1 = find_ch(s1, ':')->0;
    let p = s1.take(i1);
    let r1 = s1.skip(i1 + 1);
    lemma_all_allowed_subrange(s1, 0, i1);
    lemma_all_allowed_subrange(s1, i1 + 1, s1.len() as int);
    assert(colon_free(p)) by {
        assert forall|j: int| 0 <= j < p.len() implies #[trigger] p[j] != ':' by {
            assert(p[j] == s1[j]);
        }
    }
    let i2 = find_ch(r1, ':')->0;
    let svc = r1.take(i2);
    let r2 = r1.skip(i2 + 1);
    lemma_all_allowed_subrange(r1, 0, i2);
    lemma_all_allowed_subrange(r1, i2 + 1, r1.len() as int);
    assert(colon_free(svc)) by {
        assert forall|j: int| 0 <= j < svc.len() implies #[trigger] svc[j] != ':' by {
            assert(svc[j] == r1[j]);
        }
    }
    let i3 = find_ch(r2, ':')->0;
    let rg = r2.take(i3);
    let r3 = r2.skip(i3 + 1);
    lemma_all_allowed_subrange(r2, 0, i3);
    lemma_all_allowed_subrange(r2, i3 + 1, r2.len() as int);
    assert(colon_free(rg)) by {
        assert forall|j: int| 0 <= j < rg.len() implies #[trigger] rg[j] != ':' by {
            assert(rg[j] == r2[j]);
        }
    }
    let i4 = find_ch(r3, ':')->0;
    let ac = r3.take(i4);
    let tl = r3.skip(i4 + 1);
    lemma_all_allowed_subrange(r3, 0, i4);
    lemma_all_allowed_subrange(r3, i4 + 1, r3.len() as int);
    assert(colon_free(ac)) by {
        assert forall|j: int| 0 <= j < ac.len() implies #[trigger] ac[j] != ':' by {
            assert(ac[j] == r3[j]);
        }
    }
    // The tail, under whichever form matched.
    let (rt, id, rev, hp) = parse_tail(tl);
    assert(v.resource_type == rt && v.resource_id == id && v.resource_revision == rev
        && v.has_path == hp);
    if crate::arn::tail_form_a(tl) is Some {
        let i = find_stop(tl)->0;
        let rest = tl.skip(i + 1);
        let j = find_stop(rest)->0;
        lemma_all_allowed_subrange(tl, 0, i);
        lemma_all_allowed_subrange(tl, i + 1, tl.len() as int);
        lemma_all_allowed_subrange(rest, 0, j);
        lemma_all_allowed_subrange(rest, j + 1, rest.len() as int);
        assert(delim_free(rt)) by {
            assert forall|k: int| 0 <= k < rt.len() implies !is_delim(#[trigger] rt[k]) by {
                assert(rt[k] == tl[k]);
            }
        }
        assert(delim_free(id)) by {
            assert forall|k: int| 0 <= k < id.len() implies !is_delim(#[trigger] id[k]) by {
                assert(id[k] == rest[k]);
            }
        }
    } else if crate::arn::tail_form_b(tl) is Some {
        let i = find_stop(tl)->0;
        lemma_all_allowed_subrange(tl, 0, i);
        lemma_all_allowed_subrange(tl, i + 1, tl.len() as int);
        assert(delim_free(rt)) by {
            assert forall|k: int| 0 <= k < rt.len() implies !is_delim(#[trigger] rt[k]) by {
                assert(rt[k] == tl[k]);
            }
        }
    } else if crate::arn::tail_form_c(tl) is Some {
        let t1 = if tl.len() > 0 && tl[0] == '/' {
            tl.skip(1)
        } else {
            tl
        };
        if tl.len() > 0 && tl[0] == '/' {
            lemma_all_allowed_subrange(tl, 1, tl.len() as int);
        }
        let i = find_stop(t1)->0;
        lemma_all_allowed_subrange(t1, 0, i);
        lemma_all_allowed_subrange(t1, i + 1, t1.len() as int);
        assert(delim_free(rt)) by {
            assert forall|k: int| 0 <= k < rt.len() implies !is_delim(#[trigger] rt[k]) by {
                assert(rt[k] == t1[k]);
            }
        }
    } else {
        assert(rt == Seq::<char>::empty());
        assert(delim_free(rt));
        assert(all_allowed(rt));
    }
}

// ---------------------------------------------------------------------------
// Round trip: the canonical string parses back to the identifier
// ---------------------------------------------------------------------------

/// Resource ids whose first delimiter, if any, is a slash.
pub open spec fn no_colon_before_slash(id: Seq<char>) -> bool {
    match find_stop(id) {
        Some(i) => id[i] == '/',
        None => true,
    }
}

/// Resource ids that re-parse as a bare id: no delimiters at all, except
/// possibly one leading slash.
pub open spec fn plain_id(id: Seq<char>) -> bool {
    delim_free(id) || (id.len() > 0 && id[0] == '/' && delim_free(id.skip(1)))
}

/// The identifiers whose canonical string parses back to the identifier
/// itself. The grammar's ordered alternatives are deliberately ambiguous,
/// so the rebuilt string must select the same alternative again: a resource
/// type must be present wherever the id is behind a slash, the `apigateway`
/// special form tolerates no revision, a slash-delimited id without a
/// revision must not smuggle a colon before its first slash, and a bare id
/// must re-parse as a bare id. The rebuilt string must also stay within the
/// length limit.
pub open spec fn rebuild_safe(v: ArnView) -> bool {
    &&& build_spec(v).len() <= 2048
    &&& if v.service == "apigateway"@ {
        v.has_path && v.resource_type.len() > 0 && v.resource_revision.len() == 0
    } else {
        ||| (v.has_path && v.resource_type.len() > 0 && v.resource_revision.len() > 0)
        ||| (v.has_path && v.resource_type.len() > 0 && v.resource_revision.len() == 0
            && no_colon_before_slash(v.resource_id))
        ||| (!v.has_path && v.resource_type.len() > 0)
        ||| (!v.has_path && v.resource_type.len() == 0 && plain_id(v.resource_id))
    }
}

proof fn lemma_all_allowed_concat(x: Seq<char>, y: Seq<char>)
    requires
        all_allowed(x),
        all_allowed(y),
    ensures
        all_allowed(x + y),
{
    assert forall|i: int| 0 <= i < (x + y).len() implies is_allowed_char(#[trigger] (x + y)[i]) by {
        if i < x.len() {
            assert((x + y)[i] == x[i]);
        } else {
            assert((x + y)[i] == y[i - x.len()]);
        }
    }
}

proof fn lemma_build_all_allowed(v: ArnView)
    requires
        wf(v),
    ensures
        all_allowed(build_spec(v)),
{
    reveal_strlit("arn:");
    reveal_strlit(":");
    reveal_strlit("/");
    assert(all_allowed("arn:"@)) by {
        assert("arn:"@.len() == 4);
        assert("arn:"@[0] == 'a' && "arn:"@[1] == 'r' && "arn:"@[2] == 'n' && "arn:"@[3] == ':');
    }
    assert(all_allowed(":"@)) by {
        assert(":"@.len() == 1 && ":"@[0] == ':');
    }
    assert(all_allowed("/"@)) by {
        assert("/"@.len() == 1 && "/"@[0] == '/');
    }
    assert(all_allowed(Seq::<char>::empty()));
    let ct = if v.resource_type.len() > 0 {
        ":"@
    } else {
        Seq::<char>::empty()
    };
    let st = if v.service == "apigateway"@ {
        "/"@
    } else {
        Seq::<char>::empty()
    };
    let dl = if v.has_path {
        "/"@
    } else {
        ":"@
    };
    let rv = if v.resource_revision.len() > 0 {
        ":"@ + v.resource_revision
    } else {
        Seq::<char>::empty()
    };
    lemma_all_allowed_concat(":"@, v.resource_revision);
    lemma_all_allowed_concat("arn:"@, v.partition);
    lemma_all_allowed_concat("arn:"@ + v.partition, ":"@);
    lemma_all_allowed_concat("arn:"@ + v.partition + ":"@, v.service);
    lemma_all_allowed_concat("arn:"@ + v.partition + ":"@ + v.service, ":"@);
    lemma_all_allowed_concat("arn:"@ + v.partition + ":"@ + v.service + ":"@, v.region);
    lemma_all_allowed_concat("arn:"@ + v.partition + ":"@ + v.service + ":"@ + v.region, ":"@);
    lemma_all_allowed_concat(
        "arn:"@ + v.partition + ":"@ + v.service + ":"@ + v.region + ":"@,
        v.account,
    );
    lemma_all_allowed_concat(
        "arn:"@ + v.partition + ":"@ + v.service + ":"@ + v.region + ":"@ + v.account,
        ct,
    );
    lemma_all_allowed_concat(
        "arn:"@ + v.partition + ":"@ + v.service + ":"@ + v.region + ":"@ + v.account + ct,
        st,
    );
    lemma_all_allowed_concat(
        "arn:"@ + v.partition + ":"@ + v.service + ":"@ + v.region + ":"@ + v.account + ct + st,
        v.resource_type,
    );
    lemma_all_allowed_concat(
        "arn:"@ + v.partition + ":"@ + v.service + ":"@ + v.region + ":"@ + v.account + ct + st
            + v.resource_type,
        dl,
    );
    lemma_all_allowed_concat(
        "arn:"@ + v.partition + ":"@ + v.service + ":"@ + v.region + ":"@ + v.account + ct + st
            + v.resource_type + dl,
        v.resource_id,
    );
    lemma_all_allowed_concat(
        "arn:"@ + v.partition + ":"@ + v.service + ":"@ + v.region + ":"@ + v.account + ct + st
            + v.resource_type + dl + v.resource_id,
        rv,
    );
}

/// The structural grammar applied to a canonical head: the prefix and the
/// four colon-terminated fields come back exactly, and the rest is read as
/// the tail.
#[verifier::rlimit(100)]
proof fn lemma_parse_structural_of_head(
    p: Seq<char>,
    svc: Seq<char>,
    rg: Seq<char>,
    ac: Seq<char>,
    tail: Seq<char>,
)
    requires
        colon_free(p),
        colon_free(svc),
        colon_free(rg),
        colon_free(ac),
    ensures
        ({
            let b = "arn:"@ + p + ":"@ + svc + ":"@ + rg + ":"@ + ac + ":"@ + tail;
            let (rt, id, rev, hp) = parse_tail(tail);
            parse_structural(b) == Some(view_of(p, svc, rg, ac, rt, id, rev, hp))
        }),
{
    reveal_strlit("arn:");
    reveal_strlit(":");
    let b = "arn:"@ + p + ":"@ + svc + ":"@ + rg + ":"@ + ac + ":"@ + tail;
    assert(b[0] == 'a' && b[1] == 'r' && b[2] == 'n' && b[3] == ':');
    let s1 = b.skip(4);
    assert(s1 =~= p + ":"@ + svc + ":"@ + rg + ":"@ + ac + ":"@ + tail);
    assert(s1[p.len() as int] == ':');
    assert forall|j: int| 0 <= j < p.len() implies s1[j] != ':' by {
        assert(s1[j] == p[j]);
    }
    assert(find_ch(s1, ':') == Some(p.len() as int));
    assert(s1.take(p.len() as int) =~= p);
    let r1 = s1.skip(p.len() as int + 1);
    assert(r1 =~= svc + ":"@ + rg + ":"@ + ac + ":"@ + tail);
    assert(r1[svc.len() as int] == ':');
    assert forall|j: int| 0 <= j < svc.len() implies r1[j] != ':' by {
        assert(r1[j] == svc[j]);
    }
    assert(find_ch(r1, ':') == Some(svc.len() as int));
    assert(r1.take(svc.len() as int) =~= svc);
    let r2 = r1.skip(svc.len() as int + 1);
    assert(r2 =~= rg + ":"@ + ac + ":"@ + tail);
    assert(r2[rg.len() as int] == ':');
    assert forall|j: int| 0 <= j < rg.len() implies r2[j] != ':' by {
        assert(r2[j] == rg[j]);
    }
    assert(find_ch(r2, ':') == Some(rg.len() as int));
    assert(r2.take(rg.len() as int) =~= rg);
    let r3 = r2.skip(rg.len() as int + 1);
    assert(r3 =~= ac + ":"@ + tail);
    assert(r3[ac.len() as int] == ':');
    assert forall|j: int| 0 <= j < ac.len() implies r3[j] != ':' by {
        assert(r3[j] == ac[j]);
    }
    assert(find_ch(r3, ':') == Some(ac.len() as int));
    assert(r3.take(ac.len() as int) =~= ac);
    assert(r3.skip(ac.len() as int + 1) =~= tail);
}

proof fn lemma_parse_tail_form_a(rt: Seq<char>, id: Seq<char>, rev: Seq<char>)
    requires
        delim_free(rt),
        delim_free(id),
    ensures
        parse_tail(rt + "/"@ + id + ":"@ + rev) == (rt, id, rev, true),
{
    reveal_strlit("/");
    reveal_strlit(":");
    let t = rt + "/"@ + id + ":"@ + rev;
    assert(t[rt.len() as int] == '/');
    assert forall|j: int| 0 <= j < rt.len() implies !is_delim(t[j]) by {
        assert(t[j] == rt[j]);
    }
    assert(find_stop(t) == Some(rt.len() as int));
    let rest = t.skip(rt.len() as int + 1);
    assert(rest =~= id + ":"@ + rev);
    assert(rest[id.len() as int] == ':');
    assert forall|j: int| 0 <= j < id.len() implies !is_delim(rest[j]) by {
        assert(rest[j] == id[j]);
    }
    assert(find_stop(rest) == Some(id.len() as int));
    assert(t.take(rt.len() as int) =~= rt);
    assert(rest.take(id.len() as int) =~= id);
    assert(rest.skip(id.len() as int + 1) =~= rev);
}

proof fn lemma_parse_tail_form_b(rt: Seq<char>, id: Seq<char>)
    requires
        delim_free(rt),
    ensures
        parse_tail(rt + ":"@ + id) == (rt, id, Seq::<char>::empty(), false),
{
    reveal_strlit(":");
    let t = rt + ":"@ + id;
    assert(t[rt.len() as int] == ':');
    assert forall|j: int| 0 <= j < rt.len() implies !is_delim(t[j]) by {
        assert(t[j] == rt[j]);
    }
    assert(find_stop(t) == Some(rt.len() as int));
    assert(crate::arn::tail_form_a(t) is None);
    assert(t.take(rt.len() as int) =~= rt);
    assert(t.skip(rt.len() as int + 1) =~= id);
}

proof fn lemma_parse_tail_form_c(rt: Seq<char>, id: Seq<char>)
    requires
        delim_free(rt),
        rt.len() > 0,
        no_colon_before_slash(id),
    ensures
        parse_tail(rt + "/"@ + id) == (rt, id, Seq::<char>::empty(), true),
{
    reveal_strlit("/");
    let t = rt + "/"@ + id;
    assert(t[rt.len() as int] == '/');
    assert forall|j: int| 0 <= j < rt.len() implies !is_delim(t[j]) by {
        assert(t[j] == rt[j]);
    }
    assert(find_stop(t) == Some(rt.len() as int));
    let rest = t.skip(rt.len() as int + 1);
    assert(rest =~= id);
    assert(crate::arn::tail_form_a(t) is None);
    assert(crate::arn::tail_form_b(t) is None);
    assert(t[0] == rt[0]);
    assert(t.take(rt.len() as int) =~= rt);
}

proof fn lemma_parse_tail_form_c_slash(rt: Seq<char>, id: Seq<char>)
    requires
        delim_free(rt),
    ensures
        parse_tail("/"@ + rt + "/"@ + id) == (rt, id, Seq::<char>::empty(), true),
{
    reveal_strlit("/");
    let t = "/"@ + rt + "/"@ + id;
    assert(t[0] == '/');
    assert(find_stop(t) == Some(0int));
    let rest = t.skip(1);
    assert(rest =~= rt + "/"@ + id);
    assert(rest[rt.len() as int] == '/');
    assert forall|j: int| 0 <= j < rt.len() implies !is_delim(rest[j]) by {
        assert(rest[j] == rt[j]);
    }
    assert(find_stop(rest) == Some(rt.len() as int));
    assert(crate::arn::tail_form_a(t) is None);
    assert(crate::arn::tail_form_b(t) is None);
    assert(rest.take(rt.len() as int) =~= rt);
    assert(rest.skip(rt.len() as int + 1) =~= id);
}

proof fn lemma_parse_tail_form_d(id: Seq<char>)
    requires
        plain_id(id),
    ensures
        parse_tail(id) == (Seq::<char>::empty(), id, Seq::<char>::empty(), false),
{
    if delim_free(id) {
        assert(find_stop(id) is None);
        assert(crate::arn::tail_form_a(id) is None);
        assert(crate::arn::tail_form_b(id) is None);
        assert(crate::arn::tail_form_c(id) is None);
    } else {
        assert(id.len() > 0 && id[0] == '/' && delim_free(id.skip(1)));
        let w = id.skip(1);
        assert(find_stop(id) == Some(0int));
        assert(find_stop(w) is None);
        assert(crate::arn::tail_form_a(id) is None);
        assert(crate::arn::tail_form_b(id) is None);
        assert(crate::arn::tail_form_c(id) is None);
    }
}

/// The canonical string of a well-formed, rebuild-safe identifier parses
/// back to the identifier itself, field for field.
pub proof fn lemma_parse_build_round_trip(v: ArnView)
    requires
        wf(v),
        rebuild_safe(v),
    ensures
        parse_spec(build_spec(v)) == Ok::<ArnView, Error>(v),
{
    reveal_strlit("arn:");
    reveal_strlit(":");
    reveal_strlit("/");
    let b = build_spec(v);
    lemma_build_all_allowed(v);
    lemma_allowed_trims_to_itself(b);
    let p = v.partition;
    let svc = v.service;
    let rg = v.region;
    let ac = v.account;
    let rt = v.resource_type;
    let id = v.resource_id;
    let rev = v.resource_revision;
    if svc == "apigateway"@ {
        let tail = "/"@ + rt + "/"@ + id;
        assert(b =~= "arn:"@ + p + ":"@ + svc + ":"@ + rg + ":"@ + ac + ":"@ + tail);
        lemma_parse_structural_of_head(p, svc, rg, ac, tail);
        lemma_parse_tail_form_c_slash(rt, id);
        assert(rev =~= Seq::<char>::empty());
        assert(parse_structural(b) == Some(v));
    } else if v.has_path && rt.len() > 0 && rev.len() > 0 {
        let tail = rt + "/"@ + id + ":"@ + rev;
        assert(b =~= "arn:"@ + p + ":"@ + svc + ":"@ + rg + ":"@ + ac + ":"@ + tail);
        lemma_parse_structural_of_head(p, svc, rg, ac, tail);
        lemma_parse_tail_form_a(rt, id, rev);
        assert(parse_structural(b) == Some(v));
    } else if v.has_path && rt.len() > 0 {
        let tail = rt + "/"@ + id;
        assert(b =~= "arn:"@ + p + ":"@ + svc + ":"@ + rg + ":"@ + ac + ":"@ + tail);
        lemma_parse_structural_of_head(p, svc, rg, ac, tail);
        lemma_parse_tail_form_c(rt, id);
        assert(rev =~= Seq::<char>::empty());
        assert(parse_structural(b) == Some(v));
    } else if !v.has_path && rt.len() > 0 {
        let tail = rt + ":"@ + id;
        assert(b =~= "arn:"@ + p + ":"@ + svc + ":"@ + rg + ":"@ + ac + ":"@ + tail);
        lemma_parse_structural_of_head(p, svc, rg, ac, tail);
        lemma_parse_tail_form_b(rt, id);
        assert(rev =~= Seq::<char>::empty());
        assert(parse_structural(b) == Some(v));
    } else {
        let tail = id;
        assert(b =~= "arn:"@ + p + ":"@ + svc + ":"@ + rg + ":"@ + ac + ":"@ + tail);
        lemma_parse_structural_of_head(p, svc, rg, ac, tail);
        lemma_parse_tail_form_d(id);
        assert(rt =~= Seq::<char>::empty());
        assert(rev =~= Seq::<char>::empty());
        assert(parse_structural(b) == Some(v));
    }
}

/// Round trip: a successfully parsed identifier, rebuilt into its
/// canonical string and parsed again, comes back field for field. This
/// holds for every identifier within [`rebuild_safe`]: the grammar's
/// ordered alternatives are deliberately ambiguous, and outside that shape
/// the rebuilt string re-parses under another alternative.
pub proof fn lemma_round_trip(s: Seq<char>)
    requires
        parse_spec(s) is Ok,
        rebuild_safe(parse_spec(s)->Ok_0),
    ensures
        parse_spec(build_spec(parse_spec(s)->Ok_0)) == parse_spec(s),
{
    lemma_parse_wf(s);
    lemma_parse_build_round_trip(parse_spec(s)->Ok_0);
}

/// Idempotence of build: rebuilding the identifier parsed from a rebuilt
/// canonical string gives that string again, within the same shape as the
/// round trip.
pub proof fn lemma_build_idempotent(s: Seq<char>)
    requires
        parse_spec(s) is Ok,
        rebuild_safe(parse_spec(s)->Ok_0),
    ensures
        parse_spec(build_spec(parse_spec(s)->Ok_0)) is Ok,
        build_spec(parse_spec(build_spec(parse_spec(s)->Ok_0))->Ok_0) == build_spec(
            parse_spec(s)->Ok_0,
        ),
{
    lemma_round_trip(s);
}

} // verus!
