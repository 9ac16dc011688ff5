//! Whitespace classification, trimming and whitespace tokenization over
//! character sequences, used by header parsing and the slash-command
//! interpreter.
use vstd::prelude::*;

verus! {

/// Whether `c` has the Unicode `White_Space` property: the five controls
/// from tab through carriage return, space, next line, no-break space,
/// the Ogham space mark, the en-quad through hair-space range, the line
/// and paragraph separators, the narrow and medium mathematical spaces,
/// and the ideographic space.
pub open spec fn unicode_ws(c: char) -> bool {
    ||| ('\u{9}' <= c && c <= '\u{D}')
    ||| c == ' '
    ||| c == '\u{85}'
    ||| c == '\u{A0}'
    ||| c == '\u{1680}'
    ||| ('\u{2000}' <= c && c <= '\u{200A}')
    ||| c == '\u{2028}'
    ||| c == '\u{2029}'
    ||| c == '\u{202F}'
    ||| c == '\u{205F}'
    ||| c == '\u{3000}'
}

/// Relies on `char::is_whitespace`: true exactly for the characters with
/// the Unicode `White_Space` property, the code points `unicode_ws`
/// lists.
#[verifier::external_body]
pub fn is_ws(c: char) -> (r: bool)
    ensures
        r == unicode_ws(c),
{
    c.is_whitespace()
}

/// `s` without its leading whitespace.
pub open spec fn trim_start_of(s: Seq<char>) -> Seq<char>
    decreases s.len(),
{
    if s.len() > 0 && unicode_ws(s[0]) {
        trim_start_of(s.drop_first())
    } else {
        s
    }
}

/// `s` without its trailing whitespace.
pub open spec fn trim_end_of(s: Seq<char>) -> Seq<char>
    decreases s.len(),
{
    if s.len() > 0 && unicode_ws(s[s.len() - 1]) {
        trim_end_of(s.drop_last())
    } else {
        s
    }
}

/// `s` without leading and trailing whitespace, as `str::trim` yields it.
pub open spec fn trim_of(s: Seq<char>) -> Seq<char> {
    trim_end_of(trim_start_of(s))
}

proof fn lemma_trim_start_skip(s: Seq<char>, a: int)
    requires
        0 <= a < s.len(),
        unicode_ws(s[a]),
    ensures
        trim_start_of(s.skip(a)) == trim_start_of(s.skip(a + 1)),
{
    assert(s.skip(a).len() > 0);
    assert(s.skip(a)[0] == s[a]);
    assert(s.skip(a).drop_first() =~= s.skip(a + 1));
}

proof fn lemma_trim_end_take(s: Seq<char>, b: int)
    requires
        0 < b <= s.len(),
        unicode_ws(s[b - 1]),
    ensures
        trim_end_of(s.take(b)) == trim_end_of(s.take(b - 1)),
{
    assert(s.take(b).len() == b);
    assert(s.take(b)[b - 1] == s[b - 1]);
    assert(s.take(b).drop_last() =~= s.take(b - 1));
}

/// `str::trim` on a string slice: drops leading and trailing whitespace.
pub fn trim(s: &str) -> (r: &str)
    ensures
        r@ == trim_of(s@),
{
    let n = s.unicode_len();
    let mut a: usize = 0;
    proof {
        assert(s@.skip(0) =~= s@);
    }
    while a < n && is_ws(s.get_char(a))
        invariant
            0 <= a <= n,
            n == s@.len(),
            trim_start_of(s@) == trim_start_of(s@.skip(a as int)),
        decreases n - a,
    {
        proof {
            lemma_trim_start_skip(s@, a as int);
        }
        a = a + 1;
    }
    proof {
        assert(s@.skip(a as int).len() == n - a);
        if a < n {
            assert(s@.skip(a as int)[0] == s@[a as int]);
        }
        assert(trim_start_of(s@.skip(a as int)) == s@.skip(a as int));
    }
    if a == n {
        proof {
            assert(s@.skip(a as int) =~= Seq::<char>::empty());
            assert(trim_end_of(Seq::<char>::empty()) =~= Seq::<char>::empty());
        }
        return s.substring_char(n, n);
    }
    let mut b: usize = n;
    proof {
        assert(s@.skip(a as int).take(n - a) =~= s@.skip(a as int));
    }
    while b > a && is_ws(s.get_char(b - 1))
        invariant
            a <= b <= n,
            a < n,
            n == s@.len(),
            trim_start_of(s@) == s@.skip(a as int),
            !unicode_ws(s@[a as int]),
            trim_end_of(s@.skip(a as int)) == trim_end_of(s@.skip(a as int).take(b - a)),
        decreases b,
    {
        proof {
            lemma_trim_end_take(s@.skip(a as int), b - a);
        }
        b = b - 1;
    }
    proof {
        let rest = s@.skip(a as int);
        let cut = rest.take(b - a);
        assert(cut.len() == b - a);
        if b > a {
            assert(cut[b - a - 1] == s@[b - 1]);
        }
        assert(trim_end_of(cut) == cut);
        assert(cut =~= s@.subrange(a as int, b as int));
    }
    s.substring_char(a, b)
}

/// The longest whitespace-free prefix of `s`.
pub open spec fn first_token(s: Seq<char>) -> Seq<char>
    decreases s.len(),
{
    if s.len() == 0 || unicode_ws(s[0]) {
        Seq::empty()
    } else {
        seq![s[0]] + first_token(s.drop_first())
    }
}

proof fn lemma_first_token_len(s: Seq<char>)
    ensures
        first_token(s).len() <= s.len(),
        s.len() > 0 && !unicode_ws(s[0]) ==> first_token(s).len() >= 1,
    decreases s.len(),
{
    if s.len() > 0 && !unicode_ws(s[0]) {
        lemma_first_token_len(s.drop_first());
    }
}

/// When `s` starts with a run of `k` non-whitespace characters ended by
/// whitespace or the end of `s`, that run is the first token.
proof fn lemma_first_token_run(s: Seq<char>, k: int)
    requires
        0 <= k <= s.len(),
        forall|m: int| 0 <= m < k ==> !unicode_ws(s[m]),
        k == s.len() || unicode_ws(s[k]),
    ensures
        first_token(s) =~= s.take(k),
    decreases k,
{
    if k == 0 {
    } else {
        let t = s.drop_first();
        assert forall|m: int| 0 <= m < k - 1 implies !unicode_ws(t[m]) by {
            assert(t[m] == s[m + 1]);
        }
        if k - 1 < t.len() {
            assert(t[k - 1] == s[k]);
        }
        lemma_first_token_run(t, k - 1);
        assert(seq![s[0]] + t.take(k - 1) =~= s.take(k));
    }
}

/// The whitespace-separated tokens of `s`, in order, as
/// `str::split_whitespace` yields them.
pub open spec fn tokens_of(s: Seq<char>) -> Seq<Seq<char>>
    decreases s.len(),
{
    if s.len() == 0 {
        Seq::empty()
    } else if unicode_ws(s[0]) {
        tokens_of(s.drop_first())
    } else {
        seq![first_token(s)] + tokens_of(skip_first_token(s))
    }
}

/// `s` after its first token.
pub open spec fn skip_first_token(s: Seq<char>) -> Seq<char> {
    s.skip(spec_token_len(s))
}

/// Length of the first token, clipped into the bounds of `s`.
pub open spec fn spec_token_len(s: Seq<char>) -> int {
    if first_token(s).len() <= s.len() {
        first_token(s).len() as int
    } else {
        s.len() as int
    }
}

proof fn lemma_tokens_skip_ws(s: Seq<char>, a: int)
    requires
        0 <= a < s.len(),
        unicode_ws(s[a]),
    ensures
        tokens_of(s.skip(a)) == tokens_of(s.skip(a + 1)),
{
    assert(s.skip(a).len() > 0);
    assert(s.skip(a)[0] == s[a]);
    assert(s.skip(a).drop_first() =~= s.skip(a + 1));
}

/// Unfolds `tokens_of` over one token run `[a, j)` of non-whitespace
/// characters ended at `j` by whitespace or the end.
proof fn lemma_tokens_run(s: Seq<char>, a: int, j: int)
    requires
        0 <= a < j <= s.len(),
        forall|m: int| a <= m < j ==> !unicode_ws(s[m]),
        j == s.len() || unicode_ws(s[j]),
    ensures
        tokens_of(s.skip(a)) == seq![s.subrange(a, j)] + tokens_of(s.skip(j)),
{
    let rest = s.skip(a);
    assert forall|m: int| 0 <= m < j - a implies !unicode_ws(rest[m]) by {
        assert(rest[m] == s[m + a]);
    }
    if j - a < rest.len() {
        assert(rest[j - a] == s[j]);
    }
    lemma_first_token_run(rest, j - a);
    assert(first_token(rest) =~= s.subrange(a, j));
    lemma_first_token_len(rest);
    assert(!unicode_ws(rest[0]));
    assert(skip_first_token(rest) =~= s.skip(j));
    assert(tokens_of(rest) == seq![first_token(rest)] + tokens_of(skip_first_token(rest)));
}

/// `str::split_whitespace`, collected: the whitespace-separated tokens of
/// `s` in order.
pub fn split_ws(s: &str) -> (r: Vec<String>)
    ensures
        r.deep_view() == tokens_of(s@),
{
    let n = s.unicode_len();
    let mut r: Vec<String> = Vec::new();
    let mut i: usize = 0;
    proof {
        assert(s@.skip(0) =~= s@);
        assert(r.deep_view() + tokens_of(s@) =~= tokens_of(s@));
    }
    while i < n
        invariant
            0 <= i <= n,
            n == s@.len(),
            tokens_of(s@) == r.deep_view() + tokens_of(s@.skip(i as int)),
        decreases n - i,
    {
        if is_ws(s.get_char(i)) {
            proof {
                lemma_tokens_skip_ws(s@, i as int);
            }
            i = i + 1;
        } else {
            let start = i;
            let mut j: usize = i;
            while j < n && !is_ws(s.get_char(j))
                invariant
                    i <= j <= n,
                    n == s@.len(),
                    forall|m: int| i <= m < j ==> !unicode_ws(s@[m]),
                decreases n - j,
            {
                j = j + 1;
            }
            let tok = s.substring_char(start, j);
            let tok_string = tok.to_owned();
            proof {
                lemma_tokens_run(s@, start as int, j as int);
                assert(tok_string@ == s@.subrange(start as int, j as int));
                assert((r.deep_view() + seq![tok_string@]) + tokens_of(s@.skip(j as int))
                    =~= r.deep_view() + (seq![tok_string@] + tokens_of(s@.skip(j as int))));
                assert(r.deep_view().push(tok_string@) =~= r.deep_view() + seq![tok_string@]);
            }
            let ghost old_r = r.deep_view();
            r.push(tok_string);
            proof {
                assert(r.deep_view() =~= old_r.push(tok_string@));
            }
            i = j;
        }
    }
    proof {
        assert(s@.skip(i as int) =~= Seq::<char>::empty());
        assert(r.deep_view() + Seq::<Seq<char>>::empty() =~= r.deep_view());
    }
    r
}

} // verus!
