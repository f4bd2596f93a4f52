//! Reading PEM text into typed DER sections.

use rustls_pemfile::Item;
use vstd::prelude::*;

verus! {

/// What a PEM section claims to hold, by its label.
#[derive(Clone, Copy, Debug, PartialEq, Eq, Structural)]
pub enum PemKind {
    /// `CERTIFICATE`: an X.509 certificate.
    Certificate,
    /// `RSA PRIVATE KEY`: a PKCS#1 RSA private key.
    RsaKey,
    /// `PRIVATE KEY`: a PKCS#8 private key.
    Pkcs8Key,
    /// `EC PRIVATE KEY`: a SEC1 elliptic-curve private key.
    EcKey,
    /// `X509 CRL`: a certificate revocation list.
    Crl,
    /// A section the parser knows but this library has no use for.
    Other,
}

/// One decoded PEM section: its kind and the bytes it carried.
#[derive(Clone, Debug, PartialEq, Eq)]
pub struct PemItem {
    pub kind: PemKind,
    pub der: Vec<u8>,
}

/// A section as a mathematical value: its kind and its bytes.
pub type Section = (PemKind, Seq<u8>);

impl View for PemItem {
    type V = Section;

    open spec fn view(&self) -> Section {
        (self.kind, self.der@)
    }
}

/// The sections of a list of items, in order.
pub open spec fn sections_of(items: Seq<PemItem>) -> Seq<Section> {
    items.map_values(|item: PemItem| item@)
}

/// What the PEM parser makes of `data`: the recognised sections in the order
/// in which they appear, or the parser's diagnostic for text it rejects.
pub uninterp spec fn pem_sections(data: Seq<u8>) -> Result<Seq<Section>, Seq<char>>;

/// Runs `rustls_pemfile::read_all` over `data`.
///
/// Trusted: the outcome depends on the bytes alone, so it is the named value
/// [`pem_sections`]. On success each recognised section comes back with its
/// kind and decoded bytes; on failure the parser's error is rendered as text.
/// Nothing is claimed about which inputs parse.
#[verifier::external_body]
pub(crate) fn read_sections(data: &[u8]) -> (parsed: Result<Vec<PemItem>, String>)
    ensures
        match parsed {
            Ok(items) => pem_sections(data@) == Ok::<Seq<Section>, Seq<char>>(sections_of(items@)),
            Err(diagnostic) => pem_sections(data@) == Err::<Seq<Section>, Seq<char>>(diagnostic@),
        },
{
    let mut source = data;
    let items = rustls_pemfile::read_all(&mut source).map_err(|e| e.to_string())?;
    Ok(items.into_iter().map(|item| match item {
        Item::X509Certificate(der) => PemItem { kind: PemKind::Certificate, der },
        Item::RSAKey(der) => PemItem { kind: PemKind::RsaKey, der },
        Item::PKCS8Key(der) => PemItem { kind: PemKind::Pkcs8Key, der },
        Item::ECKey(der) => PemItem { kind: PemKind::EcKey, der },
        Item::Crl(der) => PemItem { kind: PemKind::Crl, der },
        _ => PemItem { kind: PemKind::Other, der: Vec::new() },
    }).collect())
}

} // verus!
