//! Whitespace tokenization of command strings.
//!
//! The process launcher does not hand a command string to the shell whole:
//! it first splits it on whitespace and passes the pieces as separate
//! arguments, and the shell reassembles them with single spaces before
//! parsing quotes itself. This module gives that splitting an exact
//! specification, implements it, and proves the round-trip laws that make
//! the quoting discipline of the command builder sound: rejoining the
//! pieces never changes the token stream, and a single-spaced command is
//! reassembled verbatim, so a quoted path with embedded spaces reaches the
//! shell intact.

use vstd::prelude::*;
use vstd::string::StrSliceExecFns;
use vstd::string::StringExecFns;

verus! {

/// The whitespace characters the splitter breaks on.
pub open spec fn is_wspace(c: char) -> bool {
    c == ' ' || c == '\t' || c == '\n' || c == '\r'
}

/// Runtime test for `is_wspace`.
pub fn is_wspace_char(c: char) -> (r: bool)
    ensures
        r == is_wspace(c),
{
    c == ' ' || c == '\t' || c == '\n' || c == '\r'
}

/// Length of the longest whitespace-free prefix of `s`.
pub open spec fn first_break(s: Seq<char>) -> nat
    decreases s.len(),
{
    if s.len() == 0 {
        0
    } else if is_wspace(s[0]) {
        0
    } else {
        1 + first_break(s.drop_first())
    }
}

/// `first_break` points at the first whitespace character, or at the end.
pub proof fn lemma_first_break_bounds(s: Seq<char>)
    ensures
        first_break(s) <= s.len(),
        forall|j: int| 0 <= j < first_break(s) ==> !is_wspace(#[trigger] s[j]),
        first_break(s) < s.len() ==> is_wspace(s[first_break(s) as int]),
    decreases s.len(),
{
    if s.len() == 0 {
    } else if is_wspace(s[0]) {
    } else {
        let t = s.drop_first();
        lemma_first_break_bounds(t);
        assert forall|j: int| 0 <= j < first_break(s) implies !is_wspace(#[trigger] s[j]) by {
            if j > 0 {
                assert(t[j - 1] == s[j]);
            }
        }
        if first_break(s) < s.len() {
            assert(t[first_break(s) as int - 1] == s[first_break(s) as int]);
        }
    }
}

/// `first_break` is the unique break position: a whitespace-free prefix of
/// length `k` that ends at the end of the string or at a whitespace
/// character pins it down.
pub proof fn lemma_first_break_at(s: Seq<char>, k: int)
    requires
        0 <= k <= s.len(),
        forall|j: int| 0 <= j < k ==> !is_wspace(#[trigger] s[j]),
        k < s.len() ==> is_wspace(s[k]),
    ensures
        first_break(s) == k,
    decreases k,
{
    if k == 0 {
    } else {
        let t = s.drop_first();
        assert forall|j: int| 0 <= j < k - 1 implies !is_wspace(#[trigger] t[j]) by {
            assert(t[j] == s[j + 1]);
        }
        if k - 1 < t.len() {
            assert(t[k - 1] == s[k]);
        }
        lemma_first_break_at(t, k - 1);
    }
}

/// The whitespace-separated tokens of `s`, in order: maximal runs of
/// non-whitespace characters, with no empty tokens.
pub open spec fn tokens_of(s: Seq<char>) -> Seq<Seq<char>>
    decreases s.len(),
    via tokens_of_decreases
{
    if s.len() == 0 {
        Seq::empty()
    } else if is_wspace(s[0]) {
        tokens_of(s.drop_first())
    } else {
        seq![s.take(first_break(s) as int)] + tokens_of(s.skip(first_break(s) as int))
    }
}

#[via_fn]
proof fn tokens_of_decreases(s: Seq<char>) {
    if s.len() > 0 && !is_wspace(s[0]) {
        assert(first_break(s) == 1 + first_break(s.drop_first()));
        lemma_first_break_bounds(s);
    }
}

/// Dropping a leading whitespace character does not change the tokens.
proof fn lemma_tokens_skip_space(s: Seq<char>, i: int)
    requires
        0 <= i < s.len(),
        is_wspace(s[i]),
    ensures
        tokens_of(s.skip(i)) == tokens_of(s.skip(i + 1)),
{
    assert(s.skip(i)[0] == s[i]);
    assert(s.skip(i).drop_first() =~= s.skip(i + 1));
}

/// At a non-whitespace character, the next token runs to `k`, the next
/// break position.
proof fn lemma_tokens_take_token(s: Seq<char>, i: int, k: int)
    requires
        0 <= i < k <= s.len(),
        forall|j: int| i <= j < k ==> !is_wspace(#[trigger] s[j]),
        k < s.len() ==> is_wspace(s[k]),
    ensures
        tokens_of(s.skip(i)) == seq![s.subrange(i, k)] + tokens_of(s.skip(k)),
{
    let t = s.skip(i);
    assert forall|j: int| 0 <= j < k - i implies !is_wspace(#[trigger] t[j]) by {
        assert(t[j] == s[i + j]);
    }
    if k - i < t.len() {
        assert(t[k - i] == s[k]);
    }
    lemma_first_break_at(t, k - i);
    assert(!is_wspace(t[0]));
    assert(tokens_of(t) == seq![t.take(k - i)] + tokens_of(t.skip(k - i)));
    assert(t.take(k - i) =~= s.subrange(i, k));
    assert(t.skip(k - i) =~= s.skip(k));
}

/// Splits `cmd` on whitespace, exactly as specified by `tokens_of`.
pub fn tokenize(cmd: &str) -> (tokens: Vec<String>)
    ensures
        tokens@.map_values(|t: String| t@) == tokens_of(cmd@),
{
    let n = cmd.unicode_len();
    let mut tokens: Vec<String> = Vec::new();
    let mut i: usize = 0;
    proof {
        assert(cmd@.skip(0) =~= cmd@);
        assert(tokens@.map_values(|t: String| t@) =~= Seq::<Seq<char>>::empty());
        assert(Seq::<Seq<char>>::empty() + tokens_of(cmd@) =~= tokens_of(cmd@));
    }
    while i < n
        invariant
            n == cmd@.len(),
            i <= n,
            tokens_of(cmd@) == tokens@.map_values(|t: String| t@) + tokens_of(cmd@.skip(i as int)),
        decreases n - i,
    {
        let c = cmd.get_char(i);
        if is_wspace_char(c) {
            proof {
                lemma_tokens_skip_space(cmd@, i as int);
            }
            i = i + 1;
        } else {
            let ghost prev = tokens@.map_values(|t: String| t@);
            let mut k: usize = i + 1;
            while k < n
                invariant_except_break
                    n == cmd@.len(),
                    i < k <= n,
                    forall|j: int| i <= j < k ==> !is_wspace(#[trigger] cmd@[j]),
                ensures
                    n == cmd@.len(),
                    i < k <= n,
                    forall|j: int| i <= j < k ==> !is_wspace(#[trigger] cmd@[j]),
                    k < n ==> is_wspace(cmd@[k as int]),
                decreases n - k,
            {
                if is_wspace_char(cmd.get_char(k)) {
                    break;
                }
                k = k + 1;
            }
            let token = cmd.substring_char(i, k);
            tokens.push(String::from_str(token));
            proof {
                lemma_tokens_take_token(cmd@, i as int, k as int);
                assert(tokens@.map_values(|t: String| t@) =~= prev.push(token@));
                assert(seq![cmd@.subrange(i as int, k as int)] + tokens_of(cmd@.skip(k as int))
                    =~= seq![token@] + tokens_of(cmd@.skip(k as int)));
                assert(prev + (seq![token@] + tokens_of(cmd@.skip(k as int))) =~= prev.push(
                    token@,
                ) + tokens_of(cmd@.skip(k as int)));
            }
            i = k;
        }
    }
    proof {
        assert(cmd@.skip(n as int) =~= Seq::<char>::empty());
        assert(tokens@.map_values(|t: String| t@) + Seq::<Seq<char>>::empty() =~= tokens@
            .map_values(|t: String| t@));
    }
    tokens
}

/// A well-formed token: nonempty and free of whitespace. `tokenize` only
/// ever produces such tokens.
pub open spec fn token_ok(t: Seq<char>) -> bool {
    t.len() > 0 && forall|j: int| 0 <= j < t.len() ==> !is_wspace(#[trigger] t[j])
}

/// The pieces rejoined with one space between consecutive tokens: what the
/// shell receives after the launcher passes the pieces as separate
/// arguments.
pub open spec fn join_tokens(ts: Seq<Seq<char>>) -> Seq<char>
    decreases ts.len(),
{
    if ts.len() == 0 {
        Seq::empty()
    } else if ts.len() == 1 {
        ts[0]
    } else {
        ts[0] + seq![' '] + join_tokens(ts.drop_first())
    }
}

/// Every token produced by whitespace splitting is nonempty and free of
/// whitespace.
pub proof fn lemma_tokens_wf(s: Seq<char>)
    ensures
        forall|ti: int| 0 <= ti < tokens_of(s).len() ==> token_ok(#[trigger] tokens_of(s)[ti]),
    decreases s.len(),
{
    if s.len() == 0 {
    } else if is_wspace(s[0]) {
        lemma_tokens_wf(s.drop_first());
        assert(tokens_of(s) == tokens_of(s.drop_first()));
    } else {
        let fb = first_break(s) as int;
        lemma_first_break_bounds(s);
        assert(first_break(s) == 1 + first_break(s.drop_first()));
        lemma_tokens_wf(s.skip(fb));
        let tk = s.take(fb);
        assert forall|j: int| 0 <= j < tk.len() implies !is_wspace(#[trigger] tk[j]) by {
            assert(tk[j] == s[j]);
        }
        assert(token_ok(tk));
        assert forall|ti: int| 0 <= ti < tokens_of(s).len() implies token_ok(
            #[trigger] tokens_of(s)[ti],
        ) by {
            if ti == 0 {
                assert(tokens_of(s)[0] == tk);
            } else {
                assert(tokens_of(s)[ti] == tokens_of(s.skip(fb))[ti - 1]);
            }
        }
    }
}

/// Splitting the rejoined pieces recovers the pieces exactly, for any list
/// of well-formed tokens.
pub proof fn lemma_tokens_of_join(ts: Seq<Seq<char>>)
    requires
        forall|ti: int| 0 <= ti < ts.len() ==> token_ok(#[trigger] ts[ti]),
    ensures
        tokens_of(join_tokens(ts)) == ts,
    decreases ts.len(),
{
    if ts.len() == 0 {
    } else if ts.len() == 1 {
        let t = ts[0];
        assert(token_ok(ts[0]));
        assert(!is_wspace(t[0]));
        lemma_first_break_at(t, t.len() as int);
        assert(t.take(t.len() as int) =~= t);
        assert(t.skip(t.len() as int) =~= Seq::<char>::empty());
        assert(tokens_of(t.skip(t.len() as int)) == Seq::<Seq<char>>::empty());
        assert(tokens_of(t) == seq![t.take(t.len() as int)] + tokens_of(t.skip(t.len() as int)));
        assert(tokens_of(t) =~= ts);
    } else {
        let a = ts[0];
        let rest = ts.drop_first();
        assert(token_ok(ts[0]));
        let s = join_tokens(ts);
        assert(s == a + seq![' '] + join_tokens(rest));
        assert forall|j: int| 0 <= j < a.len() implies !is_wspace(#[trigger] s[j]) by {
            assert(s[j] == a[j]);
        }
        assert(s[a.len() as int] == ' ');
        lemma_first_break_at(s, a.len() as int);
        assert(tokens_of(s) == seq![s.take(a.len() as int)] + tokens_of(s.skip(a.len() as int)));
        assert(s.take(a.len() as int) =~= a);
        assert(s.skip(a.len() as int) =~= seq![' '] + join_tokens(rest));
        let u = seq![' '] + join_tokens(rest);
        assert(is_wspace(u[0]));
        assert(u.drop_first() =~= join_tokens(rest));
        assert forall|ti: int| 0 <= ti < rest.len() implies token_ok(#[trigger] rest[ti]) by {
            assert(rest[ti] == ts[ti + 1]);
        }
        lemma_tokens_of_join(rest);
        assert(tokens_of(s) =~= ts);
    }
}

/// One layer of whitespace tokenization round-trips: splitting a command,
/// passing the pieces through the launcher, and letting the shell see them
/// rejoined with single spaces leaves the token stream unchanged, for every
/// command string.
pub proof fn lemma_tokenization_roundtrip(s: Seq<char>)
    ensures
        tokens_of(join_tokens(tokens_of(s))) == tokens_of(s),
{
    lemma_tokens_wf(s);
    lemma_tokens_of_join(tokens_of(s));
}

/// A command whose whitespace is exactly single interior spaces with
/// non-whitespace on both sides: no leading or trailing whitespace, no two
/// blanks in a row, no tabs or line breaks.
pub open spec fn single_spaced(s: Seq<char>) -> bool {
    forall|i: int|
        0 <= i < s.len() && is_wspace(#[trigger] s[i]) ==> s[i] == ' ' && 0 < i && i + 1 < s.len()
            && !is_wspace(s[i - 1]) && !is_wspace(s[i + 1])
}

/// A single-spaced command is reassembled verbatim from its pieces: the
/// shell sees exactly the string the command builder produced, so a quoted
/// path with embedded single spaces reaches it intact.
pub proof fn lemma_single_spaced_roundtrip(s: Seq<char>)
    requires
        single_spaced(s),
    ensures
        join_tokens(tokens_of(s)) == s,
    decreases s.len(),
{
    if s.len() == 0 {
        assert(join_tokens(tokens_of(s)) =~= s);
    } else {
        assert(!is_wspace(s[0]));
        let fb = first_break(s) as int;
        lemma_first_break_bounds(s);
        assert(first_break(s) == 1 + first_break(s.drop_first()));
        if fb == s.len() {
            assert(s.take(fb) =~= s);
            assert(s.skip(fb) =~= Seq::<char>::empty());
            assert(tokens_of(s.skip(fb)) == Seq::<Seq<char>>::empty());
            assert(tokens_of(s) == seq![s.take(fb)] + tokens_of(s.skip(fb)));
            assert(tokens_of(s) =~= seq![s]);
            assert(join_tokens(tokens_of(s)) == s);
        } else {
            assert(is_wspace(s[fb]));
            assert(s[fb] == ' ' && fb + 1 < s.len() && !is_wspace(s[fb + 1]));
            lemma_tokens_skip_space(s, fb);
            let rest = s.skip(fb + 1);
            assert(rest[0] == s[fb + 1]);
            assert forall|i: int|
                0 <= i < rest.len() && is_wspace(#[trigger] rest[i]) implies rest[i] == ' ' && 0 < i
                && i + 1 < rest.len() && !is_wspace(rest[i - 1]) && !is_wspace(rest[i + 1]) by {
                assert(rest[i] == s[fb + 1 + i]);
                assert(0 < fb + 1 + i && fb + 1 + i + 1 < s.len());
                assert(rest[i - 1] == s[fb + 1 + i - 1]);
                assert(rest[i + 1] == s[fb + 1 + i + 1]);
            }
            lemma_single_spaced_roundtrip(rest);
            assert(rest.len() > 0 && !is_wspace(rest[0]));
            assert(tokens_of(rest).len() >= 1);
            let tks = tokens_of(s);
            assert(tks == seq![s.take(fb)] + tokens_of(rest));
            assert(tks.len() >= 2);
            assert(tks[0] == s.take(fb));
            assert(tks.drop_first() =~= tokens_of(rest));
            assert(join_tokens(tks) == s.take(fb) + seq![' '] + rest);
            assert(s.take(fb) + seq![' '] + rest =~= s);
        }
    }
}

} // verus!
