//! TLS trust policy: which roots to trust, whether to bypass server
//! certificate verification, and which client identity to present. The
//! policy is decided here; a thin unverified shell realizes it with the
//! TLS implementation.
use vstd::prelude::*;

use crate::credential::{CertBundle, CertBundleModel, PrivateKeyBytes};

verus! {

/// Mathematical image of a `TrustConfig`.
#[verifier::ext_equal]
pub struct TrustModel {
    pub use_public_roots: bool,
    pub extra_roots: Seq<Seq<u8>>,
    pub bypass_verifier: bool,
    pub client_identity: Option<(Seq<Seq<u8>>, Seq<u8>)>,
}

/// The assembled TLS client policy: whether the public trust anchors are
/// loaded, which loaded certificates are trusted as extra roots, whether
/// the bypass verifier replaces chain validation, and the client
/// certificate chain and key to present, if any.
pub struct TrustConfig {
    pub use_public_roots: bool,
    pub extra_roots: Vec<Vec<u8>>,
    pub bypass_verifier: bool,
    pub client_identity: Option<(Vec<Vec<u8>>, PrivateKeyBytes)>,
}

impl View for TrustConfig {
    type V = TrustModel;

    open spec fn view(&self) -> TrustModel {
        TrustModel {
            use_public_roots: self.use_public_roots,
            extra_roots: self.extra_roots.deep_view(),
            bypass_verifier: self.bypass_verifier,
            client_identity: match &self.client_identity {
                Some((chain, key)) => Some((chain.deep_view(), key.der@)),
                None => None,
            },
        }
    }
}

/// The policy owed for a loaded credential and the bypass flag: public
/// roots exactly when verification is not skipped; the loaded
/// certificates as extra roots exactly when verification is not skipped;
/// the bypass verifier exactly when it is; and the loaded chain and key
/// as client identity exactly when a key was loaded — a key without a
/// certificate chain is accepted as it stands.
pub open spec fn trust_plan(bundle: Option<CertBundleModel>, no_check: bool) -> TrustModel {
    let certs = match bundle {
        Some(b) => b.certs,
        None => Seq::empty(),
    };
    TrustModel {
        use_public_roots: !no_check,
        extra_roots: if no_check {
            Seq::empty()
        } else {
            certs
        },
        bypass_verifier: no_check,
        client_identity: match bundle {
            Some(b) => match b.key {
                Some((_, der)) => Some((b.certs, der)),
                None => None,
            },
            None => None,
        },
    }
}

/// Assemble the trust policy from an optionally loaded credential and
/// the bypass flag, as `trust_plan` states.
pub fn build_trust_config(bundle: Option<CertBundle>, no_check: bool) -> (c: TrustConfig)
    ensures
        c@ == trust_plan(
            match bundle {
                Some(b) => Some(b@),
                None => None,
            },
            no_check,
        ),
{
    let ghost bm = match &bundle {
        Some(b) => Some(b@),
        None => None::<CertBundleModel>,
    };
    let (certs, key) = match bundle {
        Some(b) => (b.certs, b.key),
        None => (Vec::new(), None),
    };
    let ghost certsg = certs.deep_view();
    let extra_roots: Vec<Vec<u8>> = if no_check {
        let e: Vec<Vec<u8>> = Vec::new();
        e
    } else {
        certs_copy(&certs)
    };
    let ghost erg = extra_roots.deep_view();
    let client_identity: Option<(Vec<Vec<u8>>, PrivateKeyBytes)> = match key {
        Some(k) => Some((certs, k)),
        None => None,
    };
    let c = TrustConfig {
        use_public_roots: !no_check,
        extra_roots,
        bypass_verifier: no_check,
        client_identity,
    };
    proof {
        if bm is None {
            assert(certsg =~= Seq::<Seq<u8>>::empty());
        }
        if no_check {
            assert(erg =~= Seq::<Seq<u8>>::empty());
        }
        assert(c@ =~= trust_plan(bm, no_check));
    }
    c
}

/// A field-for-field copy of a certificate chain.
fn certs_copy(certs: &Vec<Vec<u8>>) -> (r: Vec<Vec<u8>>)
    ensures
        r.deep_view() == certs.deep_view(),
{
    let mut r: Vec<Vec<u8>> = Vec::new();
    let mut i: usize = 0;
    while i < certs.len()
        invariant
            0 <= i <= certs.len(),
            r.deep_view() =~= certs.deep_view().take(i as int),
        decreases certs.len() - i,
    {
        let ghost before = r.deep_view();
        r.push(vstd::slice::slice_to_vec(certs[i].as_slice()));
        proof {
            assert(r.deep_view() =~= before.push(certs.deep_view()[i as int]));
            assert(before.push(certs.deep_view()[i as int]) =~= certs.deep_view().take(
                i as int + 1,
            ));
        }
        i = i + 1;
    }
    proof {
        assert(certs.deep_view().take(certs@.len() as int) =~= certs.deep_view());
    }
    r
}

/// The bypass verifier's decision on any server certificate: accept,
/// whatever the certificate, the chain, the server name and the rest of
/// the handshake show. Used only when the operator skips verification.
pub fn bypass_accepts_server_cert(
    end_entity: &Vec<u8>,
    intermediates: &Vec<Vec<u8>>,
    server_name: &String,
) -> (accepted: bool)
    ensures
        accepted,
{
    let _ = end_entity;
    let _ = intermediates;
    let _ = server_name;
    true
}

/// The bypass verifier's decision on any handshake signature, for either
/// protocol version: accept, whatever the message and certificate show.
pub fn bypass_accepts_signature(message: &Vec<u8>, cert: &Vec<u8>) -> (accepted: bool)
    ensures
        accepted,
{
    let _ = message;
    let _ = cert;
    true
}

/// The signature schemes the bypass verifier claims to support, as their
/// TLS codepoints, in the fixed order the verifier announces them.
pub fn bypass_supported_scheme_codes() -> (v: Vec<u16>)
    ensures
        v@ == seq![
            0x0403u16,
            0x0503u16,
            0x0603u16,
            0x0804u16,
            0x0805u16,
            0x0806u16,
            0x0401u16,
            0x0501u16,
            0x0601u16,
        ],
{
    let mut v: Vec<u16> = Vec::new();
    v.push(0x0403);
    v.push(0x0503);
    v.push(0x0603);
    v.push(0x0804);
    v.push(0x0805);
    v.push(0x0806);
    v.push(0x0401);
    v.push(0x0501);
    v.push(0x0601);
    proof {
        assert(v@ =~= seq![
            0x0403u16,
            0x0503u16,
            0x0603u16,
            0x0804u16,
            0x0805u16,
            0x0806u16,
            0x0401u16,
            0x0501u16,
            0x0601u16,
        ]);
    }
    v
}

/// The bypass verifier is chosen exactly when the operator skips
/// verification: it is never the default.
pub proof fn lemma_bypass_never_default(bundle: Option<CertBundleModel>, no_check: bool)
    ensures
        trust_plan(bundle, no_check).bypass_verifier == no_check,
        trust_plan(bundle, no_check).use_public_roots == !no_check,
{
}

/// With verification active, every certificate of a loaded credential is
/// trusted as an extra root beside the public anchors; with the bypass,
/// none is.
pub proof fn lemma_extra_roots(b: CertBundleModel, no_check: bool)
    ensures
        !no_check ==> trust_plan(Some(b), no_check).extra_roots == b.certs,
        no_check ==> trust_plan(Some(b), no_check).extra_roots == Seq::<Seq<u8>>::empty(),
{
}

} // verus!
