//! Reduction of statement text to a short preview label: the first four
//! whitespace-delimited tokens, rejoined with single spaces.

use vstd::prelude::*;
use vstd::string::StrSliceExecFns;
use vstd::string::StringExecFns;

verus! {

/// A character that statement text is split on: the Unicode white-space set.
pub open spec fn is_ws(c: char) -> bool {
    let u = c as u32;
    u == 0x20 || (0x09 <= u && u <= 0x0d) || u == 0x85 || u == 0xa0 || u == 0x1680 || (0x2000 <= u
        && u <= 0x200a) || u == 0x2028 || u == 0x2029 || u == 0x202f || u == 0x205f || u == 0x3000
}

fn is_ws_char(c: char) -> (r: bool)
    ensures
        r == is_ws(c),
{
    let u: u32 = c as u32;
    u == 0x20 || (0x09 <= u && u <= 0x0d) || u == 0x85 || u == 0xa0 || u == 0x1680 || (0x2000 <= u
        && u <= 0x200a) || u == 0x2028 || u == 0x2029 || u == 0x202f || u == 0x205f || u == 0x3000
}

/// The length of the maximal prefix of `s` that holds no white-space character.
pub open spec fn non_ws_len(s: Seq<char>) -> nat
    decreases s.len(),
{
    if s.len() == 0 || is_ws(s[0]) {
        0
    } else {
        (1 + non_ws_len(s.skip(1))) as nat
    }
}

/// The non-white-space prefix never extends past the end of the input.
pub proof fn lemma_non_ws_len_le(s: Seq<char>)
    ensures
        non_ws_len(s) <= s.len(),
    decreases s.len(),
{
    if s.len() == 0 || is_ws(s[0]) {
    } else {
        lemma_non_ws_len_le(s.skip(1));
    }
}

/// The sequence of white-space-delimited tokens of `s`, in order.
pub open spec fn tokens(s: Seq<char>) -> Seq<Seq<char>>
    decreases s.len(),
{
    if s.len() == 0 {
        Seq::empty()
    } else if is_ws(s[0]) {
        tokens(s.skip(1))
    } else {
        proof {
            lemma_non_ws_len_le(s);
        }
        seq![s.take(non_ws_len(s) as int)] + tokens(s.skip(non_ws_len(s) as int))
    }
}

/// The tokens of `tks` joined with one space between neighbours.
pub open spec fn join_sp(tks: Seq<Seq<char>>) -> Seq<char>
    decreases tks.len(),
{
    if tks.len() == 0 {
        Seq::empty()
    } else if tks.len() == 1 {
        tks[0]
    } else {
        tks[0] + seq![' '] + join_sp(tks.skip(1))
    }
}

/// The first `n` elements of `tks`, or all of them when there are fewer.
pub open spec fn first_n(tks: Seq<Seq<char>>, n: int) -> Seq<Seq<char>> {
    if tks.len() <= n {
        tks
    } else {
        tks.take(n)
    }
}

/// What [`parse_query_summary`] returns: the first four tokens of the
/// statement, joined with single spaces.
pub open spec fn summary_spec(s: Seq<char>) -> Seq<char> {
    join_sp(first_n(tokens(s), 4))
}

/// A token as produced by tokenization: non-empty and free of white space.
pub open spec fn good_token(t: Seq<char>) -> bool {
    t.len() > 0 && (forall|k: int| 0 <= k < t.len() ==> !is_ws(t[k]))
}

/// Every element of `tks` is a well-formed token.
pub open spec fn all_good(tks: Seq<Seq<char>>) -> bool {
    forall|idx: int| 0 <= idx < tks.len() ==> good_token(#[trigger] tks[idx])
}

proof fn lemma_non_ws_len_exact(s: Seq<char>, m: int)
    requires
        0 <= m <= s.len(),
        forall|k: int| 0 <= k < m ==> !is_ws(s[k]),
        m == s.len() || is_ws(s[m]),
    ensures
        non_ws_len(s) == m,
    decreases m,
{
    if m == 0 {
    } else {
        assert(!is_ws(s[0]));
        assert(forall|k: int| 0 <= k < m - 1 ==> s.skip(1)[k] == s[k + 1]);
        if m == s.len() {
        } else {
            assert(s.skip(1)[m - 1] == s[m]);
        }
        lemma_non_ws_len_exact(s.skip(1), m - 1);
    }
}

proof fn lemma_non_ws_prefix(s: Seq<char>)
    ensures
        forall|k: int| 0 <= k < non_ws_len(s) ==> !is_ws(s[k]),
    decreases s.len(),
{
    if s.len() == 0 || is_ws(s[0]) {
    } else {
        lemma_non_ws_len_le(s);
        lemma_non_ws_prefix(s.skip(1));
        assert forall|k: int| 0 <= k < non_ws_len(s) implies !is_ws(s[k]) by {
            if k >= 1 {
                assert(s[k] == s.skip(1)[k - 1]);
            }
        }
    }
}

proof fn lemma_tokens_skip_ws(s: Seq<char>, i: int)
    requires
        0 <= i < s.len(),
        is_ws(s[i]),
    ensures
        tokens(s.skip(i)) == tokens(s.skip(i + 1)),
{
    assert(s.skip(i).len() > 0);
    assert(s.skip(i)[0] == s[i]);
    assert(s.skip(i).skip(1) =~= s.skip(i + 1));
}

proof fn lemma_tokens_take_token(s: Seq<char>, i: int, j: int)
    requires
        0 <= i < j <= s.len(),
        forall|k: int| i <= k < j ==> !is_ws(s[k]),
        j == s.len() || is_ws(s[j]),
    ensures
        tokens(s.skip(i)) == seq![s.subrange(i, j)] + tokens(s.skip(j)),
{
    let t = s.skip(i);
    assert(forall|k: int| 0 <= k < t.len() ==> t[k] == s[k + i]);
    lemma_non_ws_len_exact(t, j - i);
    assert(t.take(j - i) =~= s.subrange(i, j));
    assert(t.skip(j - i) =~= s.skip(j));
    assert(!is_ws(t[0]));
}

proof fn lemma_tokens_all_good(s: Seq<char>)
    ensures
        all_good(tokens(s)),
    decreases s.len(),
{
    if s.len() == 0 {
    } else if is_ws(s[0]) {
        lemma_tokens_all_good(s.skip(1));
    } else {
        lemma_non_ws_len_le(s);
        lemma_non_ws_prefix(s);
        let k = non_ws_len(s) as int;
        lemma_tokens_all_good(s.skip(k));
        assert forall|idx: int| 0 <= idx < tokens(s).len() implies good_token(
            #[trigger] tokens(s)[idx],
        ) by {
            if idx == 0 {
                assert(forall|m: int| 0 <= m < k ==> s.take(k)[m] == s[m]);
                assert(good_token(s.take(k)));
            } else {
                assert(tokens(s)[idx] == tokens(s.skip(k))[idx - 1]);
            }
        }
    }
}

proof fn lemma_join_push(tks: Seq<Seq<char>>, t: Seq<char>)
    requires
        tks.len() > 0,
    ensures
        join_sp(tks.push(t)) == join_sp(tks) + seq![' '] + t,
    decreases tks.len(),
{
    if tks.len() == 1 {
        assert(tks.push(t).skip(1) =~= seq![t]);
        assert(join_sp(seq![t]) == t);
        assert(join_sp(tks.push(t)) =~= join_sp(tks) + seq![' '] + t);
    } else {
        lemma_join_push(tks.skip(1), t);
        assert(tks.push(t).skip(1) =~= tks.skip(1).push(t));
        assert(join_sp(tks.push(t)) =~= join_sp(tks) + seq![' '] + t);
    }
}

proof fn lemma_tokens_of_join(tks: Seq<Seq<char>>)
    requires
        all_good(tks),
    ensures
        tokens(join_sp(tks)) == tks,
    decreases tks.len(),
{
    if tks.len() == 0 {
        assert(tokens(join_sp(tks)) =~= tks);
    } else if tks.len() == 1 {
        let t = tks[0];
        assert(good_token(t));
        assert(t.len() > 0);
        assert(!is_ws(t[0]));
        lemma_non_ws_len_exact(t, t.len() as int);
        assert(t.take(t.len() as int) =~= t);
        assert(t.skip(t.len() as int) =~= Seq::<char>::empty());
        assert(tokens(Seq::<char>::empty()) =~= Seq::<Seq<char>>::empty());
        assert(join_sp(tks) == t);
        assert(tokens(t) =~= tks);
    } else {
        let t = tks[0];
        assert(good_token(t));
        let rest = join_sp(tks.skip(1));
        let s = join_sp(tks);
        assert(s =~= t + seq![' '] + rest);
        assert(forall|k: int| 0 <= k < t.len() ==> s[k] == t[k]);
        assert(s[t.len() as int] == ' ');
        assert(is_ws(' '));
        lemma_tokens_take_token(s, 0, t.len() as int);
        assert(s.skip(0) =~= s);
        assert(s.subrange(0, t.len() as int) =~= t);
        let tail = s.skip(t.len() as int);
        assert(tail =~= seq![' '] + rest);
        assert(tail[0] == ' ');
        lemma_tokens_skip_ws(tail, 0);
        assert(tail.skip(0) =~= tail);
        assert(tail.skip(1) =~= rest);
        assert(forall|idx: int| 0 <= idx < tks.skip(1).len() ==> tks.skip(1)[idx] == tks[idx + 1]);
        lemma_tokens_of_join(tks.skip(1));
        assert(tokens(s) =~= tks);
    }
}

/// Reducing a statement to its summary is idempotent: summarizing a summary
/// changes nothing.
pub proof fn lemma_summary_idempotent(s: Seq<char>)
    ensures
        summary_spec(summary_spec(s)) == summary_spec(s),
{
    lemma_tokens_all_good(s);
    let f = first_n(tokens(s), 4);
    assert forall|idx: int| 0 <= idx < f.len() implies good_token(#[trigger] f[idx]) by {
        assert(f[idx] == tokens(s)[idx]);
    }
    lemma_tokens_of_join(f);
    assert(f.len() <= 4);
    assert(first_n(tokens(summary_spec(s)), 4) == f);
}

/// On input with at most four tokens the summary keeps exactly those tokens:
/// it equals the input up to white-space normalization.
pub proof fn lemma_summary_short_input(s: Seq<char>)
    requires
        tokens(s).len() <= 4,
    ensures
        tokens(summary_spec(s)) == tokens(s),
{
    lemma_tokens_all_good(s);
    assert(first_n(tokens(s), 4) == tokens(s));
    lemma_tokens_of_join(tokens(s));
}

/// An already-normalized statement of at most four tokens is returned
/// exactly as it is: one whose text already equals its tokens joined with
/// single spaces.
pub proof fn lemma_summary_normalized_fixpoint(s: Seq<char>)
    requires
        tokens(s).len() <= 4,
        s == join_sp(tokens(s)),
    ensures
        summary_spec(s) == s,
{
    assert(first_n(tokens(s), 4) == tokens(s));
}

/// On input with four or more tokens the summary has exactly four tokens.
pub proof fn lemma_summary_long_input(s: Seq<char>)
    requires
        tokens(s).len() >= 4,
    ensures
        tokens(summary_spec(s)).len() == 4,
{
    lemma_tokens_all_good(s);
    let f = first_n(tokens(s), 4);
    assert forall|idx: int| 0 <= idx < f.len() implies good_token(#[trigger] f[idx]) by {
        assert(f[idx] == tokens(s)[idx]);
    }
    lemma_tokens_of_join(f);
}

/// Reduces statement text to a short preview label: the first four
/// whitespace-delimited tokens, rejoined with single spaces.
pub fn parse_query_summary(sql: &str) -> (r: String)
    ensures
        r@ == summary_spec(sql@),
{
    let n: usize = sql.unicode_len();
    let mut out: String = String::new();
    let mut count: usize = 0;
    let mut i: usize = 0;
    let ghost mut toks: Seq<Seq<char>> = Seq::empty();
    proof {
        assert(sql@.skip(0) =~= sql@);
    }
    while i < n && count < 4
        invariant
            n == sql@.len(),
            0 <= i <= n,
            count == toks.len(),
            count <= 4,
            out@ == join_sp(toks),
            tokens(sql@) == toks + tokens(sql@.skip(i as int)),
        decreases n - i,
    {
        let c = sql.get_char(i);
        if is_ws_char(c) {
            proof {
                lemma_tokens_skip_ws(sql@, i as int);
                assert(toks + tokens(sql@.skip(i as int)) =~= toks + tokens(
                    sql@.skip(i as int + 1),
                ));
            }
            i = i + 1;
        } else {
            let start = i;
            let mut j: usize = i + 1;
            while j < n && !is_ws_char(sql.get_char(j))
                invariant
                    n == sql@.len(),
                    i < j <= n,
                    !is_ws(sql@[i as int]),
                    forall|k: int| i <= k < j ==> !is_ws(sql@[k]),
                decreases n - j,
            {
                j = j + 1;
            }
            proof {
                lemma_tokens_take_token(sql@, i as int, j as int);
            }
            let token: &str = sql.substring_char(start, j);
            if count > 0 {
                proof {
                    reveal_strlit(" ");
                    assert(" "@ =~= seq![' ']);
                    lemma_join_push(toks, token@);
                }
                out.append(" ");
                out.append(token);
            } else {
                proof {
                    assert(join_sp(seq![token@]) == token@);
                    assert(toks.push(token@) =~= seq![token@]);
                    assert(out@ + token@ =~= token@);
                }
                out.append(token);
            }
            proof {
                let old_toks = toks;
                toks = toks.push(token@);
                assert(token@ == sql@.subrange(i as int, j as int));
                assert(old_toks + (seq![token@] + tokens(sql@.skip(j as int))) =~= toks + tokens(
                    sql@.skip(j as int),
                ));
            }
            count = count + 1;
            i = j;
        }
    }
    proof {
        if i == n {
            assert(sql@.skip(n as int) =~= Seq::<char>::empty());
            assert(tokens(sql@.skip(n as int)) =~= Seq::<Seq<char>>::empty());
            assert(tokens(sql@) =~= toks);
            assert(first_n(tokens(sql@), 4) == toks);
        } else {
            assert(count == 4);
            let rest = tokens(sql@.skip(i as int));
            if rest.len() == 0 {
                assert(tokens(sql@) =~= toks);
                assert(first_n(tokens(sql@), 4) == toks);
            } else {
                assert(tokens(sql@).take(4) =~= toks);
                assert(first_n(tokens(sql@), 4) == toks);
            }
        }
    }
    out
}

} // verus!
