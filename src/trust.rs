use vstd::prelude::*;

verus! {

/// The DER certificates of the `CERTIFICATE` sections of a PEM text, in
/// order, as `rustls`'s PEM reader decodes them; `None` where a section's
/// base64 does not decode.
pub uninterp spec fn pem_certificates_of(pem: Seq<u8>) -> Option<Seq<Seq<u8>>>;

/// The DER keys of the `RSA PRIVATE KEY` sections of a PEM text, in order,
/// as `rustls`'s PEM reader decodes them; `None` where a section's base64
/// does not decode.
pub uninterp spec fn pem_rsa_keys_of(pem: Seq<u8>) -> Option<Seq<Seq<u8>>>;

/// Relies on `rustls::internal::pemfile::certs`, reading from memory, for
/// the certificates of a PEM text.
#[verifier::external_body]
fn pem_certificates(pem: &[u8]) -> (r: Option<Vec<Vec<u8>>>)
    ensures
        match r {
            Some(v) => pem_certificates_of(pem@) == Some(v.deep_view()),
            None => pem_certificates_of(pem@) is None,
        },
{
    let mut reader: &[u8] = pem;
    rustls::internal::pemfile::certs(&mut reader).ok().map(|certs| certs.into_iter().map(|c| c.0).collect())
}

/// Relies on `rustls::internal::pemfile::rsa_private_keys`, reading from
/// memory, for the RSA private keys of a PEM text.
#[verifier::external_body]
fn pem_rsa_keys(pem: &[u8]) -> (r: Option<Vec<Vec<u8>>>)
    ensures
        match r {
            Some(v) => pem_rsa_keys_of(pem@) == Some(v.deep_view()),
            None => pem_rsa_keys_of(pem@) is None,
        },
{
    let mut reader: &[u8] = pem;
    rustls::internal::pemfile::rsa_private_keys(&mut reader).ok().map(|keys| keys.into_iter().map(|k| k.0).collect())
}

/// The server's own identity: its certificate chain and its private key, in
/// DER form.
pub struct KeyPair {
    pub certificates: Vec<Vec<u8>>,
    pub private_key: Vec<u8>,
}

/// Why the server's certificate and key cannot be used.
#[derive(PartialEq, Eq, Structural, Clone, Copy, Debug)]
pub enum TrustError {
    /// The certificate file is no readable PEM text.
    UnreadableCertificates,
    /// The key file is no readable PEM text.
    UnreadableKeys,
    /// The key file holds no RSA private key.
    NoPrivateKey,
}

/// What the certificate and key files make: the certificate chain and the
/// first RSA key of the key file.
pub open spec fn key_pair_of(cert_pem: Seq<u8>, key_pem: Seq<u8>) -> Result<(Seq<Seq<u8>>, Seq<u8>), TrustError> {
    match pem_certificates_of(cert_pem) {
        None => Err(TrustError::UnreadableCertificates),
        Some(certs) => match pem_rsa_keys_of(key_pem) {
            None => Err(TrustError::UnreadableKeys),
            Some(keys) => if keys.len() == 0 {
                Err(TrustError::NoPrivateKey)
            } else {
                Ok((certs, keys[0]))
            },
        },
    }
}

/// Reads the server's certificate chain and private key from the contents
/// of the two PEM files.
pub fn load_keypair(cert_pem: &[u8], key_pem: &[u8]) -> (r: Result<KeyPair, TrustError>)
    ensures
        match r {
            Ok(k) => key_pair_of(cert_pem@, key_pem@) == Ok::<_, TrustError>((k.certificates.deep_view(), k.private_key@)),
            Err(e) => key_pair_of(cert_pem@, key_pem@) == Err::<(Seq<Seq<u8>>, Seq<u8>), _>(e),
        },
{
    let certificates = match pem_certificates(cert_pem) {
        Some(c) => c,
        None => return Err(TrustError::UnreadableCertificates),
    };
    let mut keys = match pem_rsa_keys(key_pem) {
        Some(k) => k,
        None => return Err(TrustError::UnreadableKeys),
    };
    if keys.len() == 0 {
        return Err(TrustError::NoPrivateKey);
    }
    let ghost keys_view = keys.deep_view();
    let private_key = keys.swap_remove(0);
    assert(private_key@ == keys_view[0]);
    Ok(KeyPair { certificates, private_key })
}

} // verus!
