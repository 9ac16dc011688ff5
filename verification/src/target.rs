//! Connection-target handling: default scheme insertion and the decision
//! whether the target calls for TLS.
use vstd::prelude::*;

verus! {

/// Whether `s` holds a `://` scheme separator anywhere.
pub open spec fn has_scheme_sep(s: Seq<char>) -> bool {
    exists|i: int|
        0 <= i && i + 2 < s.len() && #[trigger] s[i] == ':' && s[i + 1] == '/' && s[i + 2] == '/'
}

/// Whether `s` begins with the encrypted-transport scheme `wss://`.
pub open spec fn is_tls_scheme(s: Seq<char>) -> bool {
    s.len() >= 6 && s.subrange(0, 6) == "wss://"@
}

fn contains_scheme_sep(s: &str) -> (b: bool)
    ensures
        b == has_scheme_sep(s@),
{
    let n = s.unicode_len();
    if n < 3 {
        return false;
    }
    let mut i: usize = 0;
    while i + 2 < n
        invariant
            0 <= i,
            i + 2 <= n,
            n == s@.len(),
            forall|k: int|
                0 <= k < i ==> !(#[trigger] s@[k] == ':' && s@[k + 1] == '/' && s@[k + 2] == '/'),
        decreases n - i,
    {
        if s.get_char(i) == ':' && s.get_char(i + 1) == '/' && s.get_char(i + 2) == '/' {
            return true;
        }
        i = i + 1;
    }
    false
}

/// Give a target without any scheme the default unencrypted scheme
/// `ws://`; leave a target with a scheme untouched.
pub fn normalize_target(u: &str) -> (r: String)
    ensures
        has_scheme_sep(u@) ==> r@ == u@,
        !has_scheme_sep(u@) ==> r@ == "ws://"@ + u@,
{
    if contains_scheme_sep(u) {
        u.to_owned()
    } else {
        let mut r = String::from_str("ws://");
        r.append(u);
        r
    }
}

/// Whether the target's scheme asks for an encrypted transport; only
/// then is a TLS configuration assembled at all.
pub fn target_needs_tls(u: &str) -> (b: bool)
    ensures
        b == is_tls_scheme(u@),
{
    proof {
        reveal_strlit("wss://");
    }
    if u.unicode_len() < 6 {
        return false;
    }
    let b = u.get_char(0) == 'w' && u.get_char(1) == 's' && u.get_char(2) == 's' && u.get_char(3)
        == ':' && u.get_char(4) == '/' && u.get_char(5) == '/';
    proof {
        if b {
            assert(u@.subrange(0, 6) =~= "wss://"@);
        } else {
            assert(u@.subrange(0, 6) != "wss://"@) by {
                if u@.subrange(0, 6) == "wss://"@ {
                    assert(u@[0] == 'w' && u@[1] == 's' && u@[2] == 's' && u@[3] == ':' && u@[4]
                        == '/' && u@[5] == '/') by {
                        assert(u@.subrange(0, 6)[0] == u@[0]);
                        assert(u@.subrange(0, 6)[1] == u@[1]);
                        assert(u@.subrange(0, 6)[2] == u@[2]);
                        assert(u@.subrange(0, 6)[3] == u@[3]);
                        assert(u@.subrange(0, 6)[4] == u@[4]);
                        assert(u@.subrange(0, 6)[5] == u@[5]);
                    }
                }
            }
        }
    }
    b
}

} // verus!
