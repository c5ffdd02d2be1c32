//! The TLS certificate chain and private key read from PEM text.

use rustls_pki_types::PrivateKeyDer;
use std::io::BufReader;
use vstd::prelude::*;

use crate::error::BurleyError;

verus! {

/// A private key in DER, by its encoding.
pub enum PrivateKey {
    Pkcs1(Vec<u8>),
    Sec1(Vec<u8>),
    Pkcs8(Vec<u8>),
}

/// A private key as a value: 1 for PKCS#1, 2 for SEC1, 8 for PKCS#8, and
/// the DER bytes.
pub open spec fn key_view(key: PrivateKey) -> (u8, Seq<u8>) {
    match key {
        PrivateKey::Pkcs1(der) => (1u8, der@),
        PrivateKey::Sec1(der) => (2u8, der@),
        PrivateKey::Pkcs8(der) => (8u8, der@),
    }
}

/// The DER certificates of a chain, as values.
pub open spec fn chain_view(chain: Seq<Vec<u8>>) -> Seq<Seq<u8>> {
    chain.map_values(|der: Vec<u8>| der@)
}

/// What the TLS listener is set up with.
pub struct TlsMaterial {
    pub cert_chain: Vec<Vec<u8>>,
    pub private_key: PrivateKey,
}

/// What `rustls_pemfile::certs` reads from PEM text: the DER of each
/// certificate, in order, or the text of the error at the first section that
/// cannot be read.
pub uninterp spec fn pem_certificates(pem: Seq<u8>) -> Result<Seq<Seq<u8>>, Seq<char>>;

/// What `rustls_pemfile::private_key` reads from PEM text: the first private
/// key (see [`key_view`]), none where the text holds no key, or the text of
/// the error where a section cannot be read.
pub uninterp spec fn pem_private_key(pem: Seq<u8>) -> Result<Option<(u8, Seq<u8>)>, Seq<char>>;

/// `rustls_pemfile::certs` over the text, each certificate handed out as its
/// DER bytes; at the first section that cannot be read, the error's text.
#[verifier::external_body]
fn read_pem_certificates(pem: &[u8]) -> (certs: Result<Vec<Vec<u8>>, String>)
    ensures
        match certs {
            Ok(chain) => pem_certificates(pem@) == Ok::<Seq<Seq<u8>>, Seq<char>>(chain_view(chain@)),
            Err(text) => pem_certificates(pem@) == Err::<Seq<Seq<u8>>, Seq<char>>(text@),
        },
{
    let mut chain = Vec::new();
    for item in rustls_pemfile::certs(&mut BufReader::new(pem)) {
        match item {
            Ok(cert) => chain.push(cert.as_ref().to_vec()),
            Err(err) => return Err(err.to_string()),
        }
    }
    Ok(chain)
}

/// `rustls_pemfile::private_key` over the text, the key handed out by its
/// encoding and DER bytes, an error by its text. `PrivateKeyDer` has no other
/// kind of key than these three; the last arm, which the enum's
/// `non_exhaustive` asks for, is never taken.
#[verifier::external_body]
fn read_pem_private_key(pem: &[u8]) -> (key: Result<Option<PrivateKey>, String>)
    ensures
        match key {
            Ok(Some(k)) => pem_private_key(pem@) == Ok::<Option<(u8, Seq<u8>)>, Seq<char>>(Some(key_view(k))),
            Ok(None) => pem_private_key(pem@) == Ok::<Option<(u8, Seq<u8>)>, Seq<char>>(None),
            Err(text) => pem_private_key(pem@) == Err::<Option<(u8, Seq<u8>)>, Seq<char>>(text@),
        },
{
    match rustls_pemfile::private_key(&mut BufReader::new(pem)) {
        Ok(Some(PrivateKeyDer::Pkcs1(k))) => Ok(Some(PrivateKey::Pkcs1(k.secret_pkcs1_der().to_vec()))),
        Ok(Some(PrivateKeyDer::Sec1(k))) => Ok(Some(PrivateKey::Sec1(k.secret_sec1_der().to_vec()))),
        Ok(Some(PrivateKeyDer::Pkcs8(k))) => Ok(Some(PrivateKey::Pkcs8(k.secret_pkcs8_der().to_vec()))),
        Ok(Some(_)) => Ok(None),
        Ok(None) => Ok(None),
        Err(err) => Err(err.to_string()),
    }
}

/// What joins a context to the error it was given for.
pub open spec fn context_separator() -> Seq<char> {
    "\r\n \u{21aa} "@
}

/// An error's text under a context: the context, then the error.
pub open spec fn in_context(context: Seq<char>, inner: Seq<char>) -> Seq<char> {
    context + context_separator() + inner
}

fn with_context(context: &str, inner: &str) -> (text: String)
    ensures
        text@ == in_context(context@, inner@),
{
    context.to_string().concat("\r\n \u{21aa} ").concat(inner)
}

pub open spec fn cert_chain_context() -> Seq<char> {
    "collect cert chain"@
}

pub open spec fn load_key_context() -> Seq<char> {
    "load private key"@
}

pub open spec fn missing_key_context() -> Seq<char> {
    "non-empty private key"@
}

/// The error under "non-empty private key" when there is no key.
pub open spec fn no_key_error() -> Seq<char> {
    "Option is None"@
}

/// The TLS material from what was read of the certificate chain and of the
/// private key: an error where the chain could not be read, else where the
/// key could not be read, else where there is no key; each error's text is
/// the step's context followed by the cause.
pub fn tls_material_from(
    certs: Result<Vec<Vec<u8>>, String>,
    key: Result<Option<PrivateKey>, String>,
) -> (material: Result<TlsMaterial, BurleyError>)
    ensures
        match (certs, key) {
            (Err(e), _) => material matches Err(BurleyError::Other(m)) && m@ == in_context(
                cert_chain_context(),
                e@,
            ),
            (Ok(_), Err(e)) => material matches Err(BurleyError::Other(m)) && m@ == in_context(
                load_key_context(),
                e@,
            ),
            (Ok(_), Ok(None)) => material matches Err(BurleyError::Other(m)) && m@ == in_context(
                missing_key_context(),
                no_key_error(),
            ),
            (Ok(chain), Ok(Some(k))) => material matches Ok(t) && t.cert_chain@ == chain@
                && key_view(t.private_key) == key_view(k),
        },
{
    let cert_chain = match certs {
        Ok(chain) => chain,
        Err(e) => return Err(BurleyError::Other(with_context("collect cert chain", e.as_str()))),
    };
    let private_key = match key {
        Err(e) => return Err(BurleyError::Other(with_context("load private key", e.as_str()))),
        Ok(None) => return Err(BurleyError::Other(with_context("non-empty private key", "Option is None"))),
        Ok(Some(k)) => k,
    };
    Ok(TlsMaterial { cert_chain, private_key })
}

/// Reads the certificate chain and the private key from their PEM files'
/// bytes (see [`tls_material_from`] for the errors).
pub fn parse_certificate(cert_chain: &[u8], private_key: &[u8]) -> (material: Result<
    TlsMaterial,
    BurleyError,
>)
    ensures
        match pem_certificates(cert_chain@) {
            Err(e) => material matches Err(BurleyError::Other(m)) && m@ == in_context(
                cert_chain_context(),
                e,
            ),
            Ok(chain) => match pem_private_key(private_key@) {
                Err(e) => material matches Err(BurleyError::Other(m)) && m@ == in_context(
                    load_key_context(),
                    e,
                ),
                Ok(None) => material matches Err(BurleyError::Other(m)) && m@ == in_context(
                    missing_key_context(),
                    no_key_error(),
                ),
                Ok(Some(k)) => material matches Ok(t) && chain_view(t.cert_chain@) == chain
                    && key_view(t.private_key) == k,
            },
        },
{
    let certs = read_pem_certificates(cert_chain);
    let key = read_pem_private_key(private_key);
    tls_material_from(certs, key)
}

} // verus!
