//! Slash-command interpretation: one console line beginning with the
//! command marker becomes one control action.
use vstd::prelude::*;

use vstd::utf8::encode_utf8;

use crate::chars::{split_ws, tokens_of};

verus! {

/// Mathematical image of a `ControlAction`.
#[verifier::ext_equal]
pub enum ActionModel {
    Ping(Seq<u8>),
    Pong(Seq<u8>),
    CloseTerm(u16, Seq<char>),
    Unrecognized,
}

/// What one slash command asks the session to do: send a ping or pong
/// with a payload, send a close frame and terminate, or nothing because
/// the command is unrecognized.
pub enum ControlAction {
    SendPing(Vec<u8>),
    SendPong(Vec<u8>),
    SendCloseAndTerminate(u16, String),
    Unrecognized,
}

impl View for ControlAction {
    type V = ActionModel;

    open spec fn view(&self) -> ActionModel {
        match self {
            ControlAction::SendPing(p) => ActionModel::Ping(p@),
            ControlAction::SendPong(p) => ActionModel::Pong(p@),
            ControlAction::SendCloseAndTerminate(c, r) => ActionModel::CloseTerm(*c, r@),
            ControlAction::Unrecognized => ActionModel::Unrecognized,
        }
    }
}

/// Numeric value of a digit string, most significant digit first.
pub open spec fn dec_val(s: Seq<char>) -> int
    decreases s.len(),
{
    if s.len() == 0 {
        0
    } else {
        dec_val(s.drop_last()) * 10 + (s[s.len() - 1] as int - '0' as int)
    }
}

/// Whether every character of `s` is an ASCII decimal digit.
pub open spec fn all_digits(s: Seq<char>) -> bool {
    forall|i: int| 0 <= i < s.len() ==> '0' <= #[trigger] s[i] <= '9'
}

/// What `str::parse::<u16>` returns: an optional leading `+`, then at
/// least one ASCII digit, and a value within `u16`; anything else fails.
pub open spec fn parse_u16_of(s: Seq<char>) -> Option<u16> {
    let d = if s.len() > 0 && s[0] == '+' {
        s.drop_first()
    } else {
        s
    };
    if d.len() > 0 && all_digits(d) && dec_val(d) <= 0xFFFF {
        Some(dec_val(d) as u16)
    } else {
        None
    }
}

proof fn lemma_dec_val_nonneg(s: Seq<char>)
    requires
        all_digits(s),
    ensures
        dec_val(s) >= 0,
    decreases s.len(),
{
    if s.len() > 0 {
        assert(all_digits(s.drop_last()));
        lemma_dec_val_nonneg(s.drop_last());
    }
}

proof fn lemma_dec_val_prefix(s: Seq<char>, k: int)
    requires
        all_digits(s),
        0 <= k <= s.len(),
    ensures
        dec_val(s.take(k)) <= dec_val(s),
    decreases s.len() - k,
{
    if k < s.len() {
        lemma_dec_val_prefix(s, k + 1);
        let t = s.take(k + 1);
        assert(all_digits(t));
        assert(t.drop_last() =~= s.take(k));
        assert(all_digits(s.take(k)));
        lemma_dec_val_nonneg(s.take(k));
        assert(dec_val(t) == dec_val(s.take(k)) * 10 + (s[k] as int - '0' as int));
    } else {
        assert(s.take(k) =~= s);
    }
}

/// `str::parse::<u16>`, with failure collapsed to `None`.
pub fn parse_u16(s: &str) -> (r: Option<u16>)
    ensures
        r == parse_u16_of(s@),
{
    let n = s.unicode_len();
    let start: usize = if n > 0 && s.get_char(0) == '+' {
        1
    } else {
        0
    };
    let ghost d = if s@.len() > 0 && s@[0] == '+' {
        s@.drop_first()
    } else {
        s@
    };
    proof {
        assert(d =~= s@.skip(start as int));
    }
    if start == n {
        return None;
    }
    let mut acc: u32 = 0;
    let mut j: usize = start;
    proof {
        assert(d.take(0) =~= Seq::<char>::empty());
    }
    while j < n
        invariant
            start <= j <= n,
            n == s@.len(),
            d == s@.skip(start as int),
            d == (if s@.len() > 0 && s@[0] == '+' {
                s@.drop_first()
            } else {
                s@
            }),
            d.len() == n - start,
            forall|m: int| 0 <= m < j - start ==> '0' <= #[trigger] d[m] <= '9',
            acc == dec_val(d.take(j - start)),
            acc <= 0xFFFF,
        decreases n - j,
    {
        let c = s.get_char(j);
        proof {
            assert(d[j - start] == s@[j as int]);
        }
        if c < '0' || c > '9' {
            return None;
        }
        let digit: u32 = c as u32 - 48;
        proof {
            let t = d.take(j - start + 1);
            assert(t.drop_last() =~= d.take(j - start));
            assert(t[t.len() - 1] == d[j - start]);
        }
        acc = acc * 10 + digit;
        j = j + 1;
        if acc > 0xFFFF {
            proof {
                let k = j - start;
                assert(all_digits(d.take(k as int)));
                if all_digits(d) {
                    lemma_dec_val_prefix(d, k as int);
                }
            }
            return None;
        }
    }
    proof {
        assert(d.take(n - start) =~= d);
        assert(all_digits(d));
    }
    Some(acc as u16)
}

/// Token `i` of `toks`, or the empty token when there is no such token.
pub open spec fn token_or_empty(toks: Seq<Seq<char>>, i: int) -> Seq<char> {
    if 0 <= i < toks.len() {
        toks[i]
    } else {
        Seq::empty()
    }
}

/// The tokens joined by single spaces, as `[&str]::join(" ")` yields it.
pub open spec fn join_spaces(toks: Seq<Seq<char>>) -> Seq<char>
    decreases toks.len(),
{
    if toks.len() == 0 {
        Seq::empty()
    } else if toks.len() == 1 {
        toks[0]
    } else {
        toks[0] + seq![' '] + join_spaces(toks.drop_first())
    }
}

proof fn lemma_join_push(toks: Seq<Seq<char>>, x: Seq<char>)
    ensures
        toks.len() == 0 ==> join_spaces(toks.push(x)) == x,
        toks.len() > 0 ==> join_spaces(toks.push(x)) == join_spaces(toks) + seq![' '] + x,
    decreases toks.len(),
{
    let p = toks.push(x);
    if toks.len() == 0 {
        assert(p[0] =~= x);
    } else if toks.len() == 1 {
        assert(p.drop_first() =~= seq![x]);
        assert(join_spaces(seq![x]) == x);
        assert(p[0] == toks[0]);
    } else {
        assert(p.drop_first() =~= toks.drop_first().push(x));
        lemma_join_push(toks.drop_first(), x);
        assert(p[0] == toks[0]);
        assert((toks[0] + seq![' '] + (join_spaces(toks.drop_first()) + seq![' '] + x)) =~= (
        toks[0] + seq![' '] + join_spaces(toks.drop_first())) + seq![' '] + x);
    }
}

/// The close-frame reason: all tokens from the third on, joined by
/// single spaces; empty when there are fewer than three tokens.
pub open spec fn close_reason(toks: Seq<Seq<char>>) -> Seq<char> {
    if toks.len() >= 2 {
        join_spaces(toks.skip(2))
    } else {
        Seq::empty()
    }
}

/// The close code: the second token parsed as a `u16`, with 1000 for a
/// missing or unparseable token.
pub open spec fn close_code(toks: Seq<Seq<char>>) -> u16 {
    match parse_u16_of(token_or_empty(toks, 1)) {
        Some(c) => c,
        None => 1000,
    }
}

/// The control action of one console line: tokenize on whitespace, strip
/// the marker from the first token, and dispatch on the command word.
pub open spec fn slash_action(line: Seq<char>) -> ActionModel {
    let toks = tokens_of(line);
    let cmd = if toks.len() > 0 && toks[0].len() > 0 && toks[0][0] == '/' {
        toks[0].drop_first()
    } else {
        Seq::<char>::empty()
    };
    if cmd == "ping"@ {
        ActionModel::Ping(encode_utf8(token_or_empty(toks, 1)))
    } else if cmd == "pong"@ {
        ActionModel::Pong(encode_utf8(token_or_empty(toks, 1)))
    } else if cmd == "close"@ {
        ActionModel::CloseTerm(close_code(toks), close_reason(toks))
    } else {
        ActionModel::Unrecognized
    }
}

/// Interpret one console line as a slash command. The line is tokenized
/// on whitespace; the first token, with its leading `/` stripped, selects
/// the command; `ping` and `pong` take the second token's bytes as
/// payload (empty by default); `close` takes an optional code (default
/// 1000) and the remaining tokens joined by single spaces as reason.
pub fn parse_slash_command(line: &str) -> (a: ControlAction)
    ensures
        a@ == slash_action(line@),
{
    let toks = split_ws(line);
    let ghost tv = tokens_of(line@);
    let cmd: String = if toks.len() > 0 {
        let t0 = toks[0].as_str();
        let t0n = t0.unicode_len();
        if t0n > 0 && t0.get_char(0) == '/' {
            proof {
                assert(toks.deep_view()[0] == toks@[0]@);
                assert(t0@.subrange(1, t0n as int) =~= tv[0].drop_first());
            }
            t0.substring_char(1, t0n).to_owned()
        } else {
            String::new()
        }
    } else {
        String::new()
    };
    proof {
        assert(toks.len() > 0 ==> toks.deep_view()[0] == toks@[0]@);
    }
    let ping_word = String::from_str("ping");
    let pong_word = String::from_str("pong");
    let close_word = String::from_str("close");
    if cmd == ping_word {
        let payload = second_token_bytes(&toks);
        ControlAction::SendPing(payload)
    } else if cmd == pong_word {
        let payload = second_token_bytes(&toks);
        ControlAction::SendPong(payload)
    } else if cmd == close_word {
        let code: u16 = if toks.len() > 1 {
            proof {
                assert(toks.deep_view()[1] == toks@[1]@);
            }
            match parse_u16(toks[1].as_str()) {
                Some(c) => c,
                None => 1000,
            }
        } else {
            proof {
                assert(parse_u16_of(token_or_empty(tv, 1)) is None);
            }
            1000
        };
        let reason = join_tail(&toks);
        ControlAction::SendCloseAndTerminate(code, reason)
    } else {
        ControlAction::Unrecognized
    }
}

/// The second token's bytes, empty when there is no second token.
fn second_token_bytes(toks: &Vec<String>) -> (r: Vec<u8>)
    ensures
        r@ == encode_utf8(token_or_empty(toks.deep_view(), 1)),
{
    if toks.len() > 1 {
        proof {
            assert(toks.deep_view()[1] == toks@[1]@);
        }
        toks[1].as_str().as_bytes_vec()
    } else {
        proof {
            assert(encode_utf8(Seq::<char>::empty()) =~= Seq::<u8>::empty());
        }
        Vec::new()
    }
}

/// All tokens from the third on, joined by single spaces.
fn join_tail(toks: &Vec<String>) -> (r: String)
    ensures
        r@ == close_reason(toks.deep_view()),
{
    proof {
        reveal_strlit(" ");
    }
    let ghost tv = toks.deep_view();
    let mut reason = String::new();
    if toks.len() < 2 {
        return reason;
    }
    let mut k: usize = 2;
    proof {
        assert(tv.skip(2).take(0) =~= Seq::<Seq<char>>::empty());
    }
    while k < toks.len()
        invariant
            2 <= k <= toks.len(),
            tv == toks.deep_view(),
            tv.len() == toks.len(),
            reason@ == join_spaces(tv.skip(2).take(k - 2)),
        decreases toks.len() - k,
    {
        let ghost pre = tv.skip(2).take(k - 2);
        proof {
            reveal_strlit(" ");
            assert(tv.skip(2).take(k - 2 + 1) =~= pre.push(tv[k as int]));
            lemma_join_push(pre, tv[k as int]);
            assert(toks.deep_view()[k as int] == toks@[k as int]@);
            assert(" "@ =~= seq![' ']);
        }
        if k > 2 {
            reason.append(" ");
        }
        reason.append(toks[k].as_str());
        k = k + 1;
    }
    proof {
        assert(tv.skip(2).take(toks.len() - 2) =~= tv.skip(2));
    }
    reason
}

} // verus!
