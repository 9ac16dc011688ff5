//! Credential loading: classify a credential file's bytes as PEM or
//! binary, extract the certificate chain, and select at most one private
//! key in the fixed scan order PKCS#8, then RSA, then EC.
use vstd::prelude::*;

use vstd::slice::slice_to_vec;

use crate::errors::WsError;

verus! {

/// The encoding of a selected private key.
#[derive(Clone, Copy, PartialEq, Eq, Structural, Debug)]
pub enum KeyKind {
    Pkcs8,
    Rsa,
    Ec,
}

/// A private key as its DER bytes together with its encoding.
pub struct PrivateKeyBytes {
    pub kind: KeyKind,
    pub der: Vec<u8>,
}

/// Mathematical image of a `CertBundle`.
#[verifier::ext_equal]
pub struct CertBundleModel {
    pub certs: Seq<Seq<u8>>,
    pub key: Option<(KeyKind, Seq<u8>)>,
}

/// A loaded credential: the DER certificate chain and at most one
/// private key.
pub struct CertBundle {
    pub certs: Vec<Vec<u8>>,
    pub key: Option<PrivateKeyBytes>,
}

impl View for CertBundle {
    type V = CertBundleModel;

    open spec fn view(&self) -> CertBundleModel {
        CertBundleModel {
            certs: self.certs.deep_view(),
            key: match &self.key {
                Some(k) => Some((k.kind, k.der@)),
                None => None,
            },
        }
    }
}

/// The ten bytes of the textual-credential marker `-----BEGIN`.
pub open spec fn pem_marker() -> Seq<u8> {
    seq![45u8, 45u8, 45u8, 45u8, 45u8, 66u8, 69u8, 71u8, 73u8, 78u8]
}

/// Whether the marker stands at position `i` of `b`.
pub open spec fn marker_at(b: Seq<u8>, i: int) -> bool {
    0 <= i && i + 10 <= b.len() && b.subrange(i, i + 10) == pem_marker()
}

/// Whether `b` holds the textual-credential marker anywhere: the
/// classification between PEM and binary content.
pub open spec fn has_pem_marker(b: Seq<u8>) -> bool {
    exists|i: int| #[trigger] marker_at(b, i)
}

/// Scan for the textual-credential marker, as a sliding window over the
/// bytes.
pub fn find_pem_marker(b: &Vec<u8>) -> (r: bool)
    ensures
        r == has_pem_marker(b@),
{
    let n = b.len();
    if n < 10 {
        proof {
            assert(forall|i: int| !marker_at(b@, i));
        }
        return false;
    }
    let mut i: usize = 0;
    while i <= n - 10
        invariant
            0 <= i,
            i <= n - 10 + 1,
            10 <= n,
            n == b@.len(),
            forall|k: int| 0 <= k < i ==> !marker_at(b@, k),
        decreases n - i,
    {
        let hit = b[i] == 45 && b[i + 1] == 45 && b[i + 2] == 45 && b[i + 3] == 45 && b[i + 4]
            == 45 && b[i + 5] == 66 && b[i + 6] == 69 && b[i + 7] == 71 && b[i + 8] == 73 && b[i
            + 9] == 78;
        proof {
            let w = b@.subrange(i as int, i + 10);
            assert(w[0] == b@[i as int]);
            assert(w[1] == b@[i + 1]);
            assert(w[2] == b@[i + 2]);
            assert(w[3] == b@[i + 3]);
            assert(w[4] == b@[i + 4]);
            assert(w[5] == b@[i + 5]);
            assert(w[6] == b@[i + 6]);
            assert(w[7] == b@[i + 7]);
            assert(w[8] == b@[i + 8]);
            assert(w[9] == b@[i + 9]);
            if hit {
                assert(w =~= pem_marker());
                assert(marker_at(b@, i as int));
            } else {
                assert(w != pem_marker());
            }
        }
        if hit {
            return true;
        }
        i = i + 1;
    }
    proof {
        assert forall|k: int| !marker_at(b@, k) by {
            if 0 <= k && k + 10 <= b@.len() {
                assert(k <= n - 10);
                assert(k < i);
                assert(!marker_at(b@, k));
            }
        }
    }
    false
}

/// The DER contents of the `CERTIFICATE` sections of `b`, in order, or
/// `None` when a section cannot be decoded.
pub uninterp spec fn pem_certs_of(b: Seq<u8>) -> Option<Seq<Seq<u8>>>;

/// The DER contents of the `PRIVATE KEY` (PKCS#8) sections of `b`, in
/// order, or `None` when a section cannot be decoded.
pub uninterp spec fn pem_pkcs8_keys_of(b: Seq<u8>) -> Option<Seq<Seq<u8>>>;

/// The DER contents of the `RSA PRIVATE KEY` sections of `b`, in order,
/// or `None` when a section cannot be decoded.
pub uninterp spec fn pem_rsa_keys_of(b: Seq<u8>) -> Option<Seq<Seq<u8>>>;

/// The DER contents of the `EC PRIVATE KEY` sections of `b`, in order,
/// or `None` when a section cannot be decoded.
pub uninterp spec fn pem_ec_keys_of(b: Seq<u8>) -> Option<Seq<Seq<u8>>>;

/// Relies on `rustls_pemfile::certs`: yields the certificate sections of
/// the input in order; the result depends on the bytes alone.
#[verifier::external_body]
fn pem_certs(b: &Vec<u8>) -> (r: Result<Vec<Vec<u8>>, WsError>)
    ensures
        match r {
            Ok(v) => Some(v.deep_view()) == pem_certs_of(b@),
            Err(e) => pem_certs_of(b@) is None && e == WsError::MalformedCredential,
        },
{
    let mut reader = std::io::Cursor::new(b.as_slice());
    let mut out: Vec<Vec<u8>> = Vec::new();
    for cert in rustls_pemfile::certs(&mut reader) {
        match cert {
            Ok(c) => out.push(c.as_ref().to_vec()),
            _ => return Err(WsError::MalformedCredential),
        }
    }
    Ok(out)
}

/// Relies on `rustls_pemfile::pkcs8_private_keys`: yields the PKCS#8 key
/// sections of the input in order; the result depends on the bytes alone.
#[verifier::external_body]
fn pem_pkcs8_keys(b: &Vec<u8>) -> (r: Result<Vec<Vec<u8>>, WsError>)
    ensures
        match r {
            Ok(v) => Some(v.deep_view()) == pem_pkcs8_keys_of(b@),
            Err(e) => pem_pkcs8_keys_of(b@) is None && e == WsError::MalformedCredential,
        },
{
    let mut reader = std::io::Cursor::new(b.as_slice());
    let mut out: Vec<Vec<u8>> = Vec::new();
    for key in rustls_pemfile::pkcs8_private_keys(&mut reader) {
        match key {
            Ok(k) => out.push(k.secret_pkcs8_der().to_vec()),
            _ => return Err(WsError::MalformedCredential),
        }
    }
    Ok(out)
}

/// Relies on `rustls_pemfile::rsa_private_keys`: yields the RSA (PKCS#1)
/// key sections of the input in order; the result depends on the bytes
/// alone.
#[verifier::external_body]
fn pem_rsa_keys(b: &Vec<u8>) -> (r: Result<Vec<Vec<u8>>, WsError>)
    ensures
        match r {
            Ok(v) => Some(v.deep_view()) == pem_rsa_keys_of(b@),
            Err(e) => pem_rsa_keys_of(b@) is None && e == WsError::MalformedCredential,
        },
{
    let mut reader = std::io::Cursor::new(b.as_slice());
    let mut out: Vec<Vec<u8>> = Vec::new();
    for key in rustls_pemfile::rsa_private_keys(&mut reader) {
        match key {
            Ok(k) => out.push(k.secret_pkcs1_der().to_vec()),
            _ => return Err(WsError::MalformedCredential),
        }
    }
    Ok(out)
}

/// Relies on `rustls_pemfile::ec_private_keys`: yields the EC (SEC1) key
/// sections of the input in order; the result depends on the bytes alone.
#[verifier::external_body]
fn pem_ec_keys(b: &Vec<u8>) -> (r: Result<Vec<Vec<u8>>, WsError>)
    ensures
        match r {
            Ok(v) => Some(v.deep_view()) == pem_ec_keys_of(b@),
            Err(e) => pem_ec_keys_of(b@) is None && e == WsError::MalformedCredential,
        },
{
    let mut reader = std::io::Cursor::new(b.as_slice());
    let mut out: Vec<Vec<u8>> = Vec::new();
    for key in rustls_pemfile::ec_private_keys(&mut reader) {
        match key {
            Ok(k) => out.push(k.secret_sec1_der().to_vec()),
            _ => return Err(WsError::MalformedCredential),
        }
    }
    Ok(out)
}

/// The key a textual credential selects: the first PKCS#8 key, else the
/// first RSA key, else the first EC key, else none — the scan order, not
/// the order of appearance in the file.
pub open spec fn selected_key(
    p8: Seq<Seq<u8>>,
    rsa: Seq<Seq<u8>>,
    ec: Seq<Seq<u8>>,
) -> Option<(KeyKind, Seq<u8>)> {
    if p8.len() > 0 {
        Some((KeyKind::Pkcs8, p8[0]))
    } else if rsa.len() > 0 {
        Some((KeyKind::Rsa, rsa[0]))
    } else if ec.len() > 0 {
        Some((KeyKind::Ec, ec[0]))
    } else {
        None
    }
}

/// What loading a credential file returns: a binary file is exactly one
/// certificate and no key; a textual file is its certificate sections
/// and the key of the fixed scan order; `None` when a recognized section
/// cannot be decoded.
pub open spec fn loaded_bundle(b: Seq<u8>) -> Option<CertBundleModel> {
    if !has_pem_marker(b) {
        Some(CertBundleModel { certs: seq![b], key: None })
    } else if pem_certs_of(b) is None || pem_pkcs8_keys_of(b) is None || pem_rsa_keys_of(b)
        is None || pem_ec_keys_of(b) is None {
        None
    } else {
        Some(
            CertBundleModel {
                certs: pem_certs_of(b)->Some_0,
                key: selected_key(
                    pem_pkcs8_keys_of(b)->Some_0,
                    pem_rsa_keys_of(b)->Some_0,
                    pem_ec_keys_of(b)->Some_0,
                ),
            },
        )
    }
}

/// A binary credential — one without the textual marker — loads as
/// exactly one certificate, the whole content, and no private key.
pub proof fn lemma_binary_credential(b: Seq<u8>)
    requires
        !has_pem_marker(b),
    ensures
        loaded_bundle(b) == Some(CertBundleModel { certs: seq![b], key: None }),
{
}

/// The key selection follows the fixed scan order, whatever order the
/// sections stand in: a PKCS#8 key always wins, an RSA key wins over an
/// EC key, and no key is selected only when all three kinds are absent.
pub proof fn lemma_key_scan_order(p8: Seq<Seq<u8>>, rsa: Seq<Seq<u8>>, ec: Seq<Seq<u8>>)
    ensures
        p8.len() > 0 ==> selected_key(p8, rsa, ec) == Some((KeyKind::Pkcs8, p8[0])),
        p8.len() == 0 && rsa.len() > 0 ==> selected_key(p8, rsa, ec) == Some(
            (KeyKind::Rsa, rsa[0]),
        ),
        p8.len() == 0 && rsa.len() == 0 && ec.len() > 0 ==> selected_key(p8, rsa, ec) == Some(
            (KeyKind::Ec, ec[0]),
        ),
        p8.len() == 0 && rsa.len() == 0 && ec.len() == 0 ==> selected_key(p8, rsa, ec) is None,
{
}

/// Load a credential from the raw bytes of a file: classify as textual
/// or binary by the `-----BEGIN` marker and extract certificates and at
/// most one private key, as `loaded_bundle` states. Every decode failure
/// is `MalformedCredential`.
pub fn load_certs_and_key(bytes: &Vec<u8>) -> (r: Result<CertBundle, WsError>)
    ensures
        r is Ok <==> loaded_bundle(bytes@) is Some,
        r matches Ok(bundle) ==> Some(bundle@) == loaded_bundle(bytes@),
        r is Err ==> r == Err::<CertBundle, WsError>(WsError::MalformedCredential),
{
    if !find_pem_marker(bytes) {
        let copy = slice_to_vec(bytes.as_slice());
        let ghost copyg = copy@;
        let mut certs: Vec<Vec<u8>> = Vec::new();
        certs.push(copy);
        let bundle = CertBundle { certs, key: None };
        proof {
            assert(bundle@.certs.len() == 1);
            assert(bundle@.certs[0] == copyg);
            assert(bundle@.certs =~= seq![bytes@]);
            assert(bundle@ =~= (CertBundleModel { certs: seq![bytes@], key: None }));
        }
        Ok(bundle)
    } else {
        let certs = match pem_certs(bytes) {
            Ok(v) => v,
            _ => {
                return Err(WsError::MalformedCredential);
            },
        };
        let p8 = match pem_pkcs8_keys(bytes) {
            Ok(v) => v,
            _ => {
                return Err(WsError::MalformedCredential);
            },
        };
        let rsa = match pem_rsa_keys(bytes) {
            Ok(v) => v,
            _ => {
                return Err(WsError::MalformedCredential);
            },
        };
        let ec = match pem_ec_keys(bytes) {
            Ok(v) => v,
            _ => {
                return Err(WsError::MalformedCredential);
            },
        };
        let ghost certsg = certs.deep_view();
        let ghost p8g = p8.deep_view();
        let ghost rsag = rsa.deep_view();
        let ghost ecg = ec.deep_view();
        let key: Option<PrivateKeyBytes> = if p8.len() > 0 {
            let der = slice_to_vec(p8[0].as_slice());
            proof {
                assert(der@ == p8g[0]);
            }
            Some(PrivateKeyBytes { kind: KeyKind::Pkcs8, der })
        } else if rsa.len() > 0 {
            let der = slice_to_vec(rsa[0].as_slice());
            proof {
                assert(der@ == rsag[0]);
            }
            Some(PrivateKeyBytes { kind: KeyKind::Rsa, der })
        } else if ec.len() > 0 {
            let der = slice_to_vec(ec[0].as_slice());
            proof {
                assert(der@ == ecg[0]);
            }
            Some(PrivateKeyBytes { kind: KeyKind::Ec, der })
        } else {
            None
        };
        let bundle = CertBundle { certs, key };
        proof {
            assert(p8g.len() == p8@.len() && rsag.len() == rsa@.len() && ecg.len() == ec@.len());
            assert(bundle@.key == selected_key(p8g, rsag, ecg));
            assert(bundle@ =~= (CertBundleModel {
                certs: pem_certs_of(bytes@)->Some_0,
                key: selected_key(p8g, rsag, ecg),
            }));
        }
        Ok(bundle)
    }
}

} // verus!
