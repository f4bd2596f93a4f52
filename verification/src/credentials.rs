//! Loading the server's certificate chain and private key from PEM text.

use crate::error::{ConfigError, ConfigFailure};
use crate::pem::{pem_sections, read_sections, sections_of, PemItem, PemKind, Section};
use vstd::prelude::*;
use vstd::string::*;

verus! {

/// Whether a section holds a certificate.
pub open spec fn is_certificate(s: Section) -> bool {
    s.0 == PemKind::Certificate
}

/// Whether a section holds a private key in one of the supported encodings.
pub open spec fn is_private_key(s: Section) -> bool {
    s.0 == PemKind::RsaKey || s.0 == PemKind::Pkcs8Key || s.0 == PemKind::EcKey
}

/// The certificates among `sections`, in order.
pub open spec fn certificates_in(sections: Seq<Section>) -> Seq<Seq<u8>> {
    sections.filter(|s: Section| is_certificate(s)).map_values(|s: Section| s.1)
}

/// The private keys among `sections`, in order.
pub open spec fn private_keys_in(sections: Seq<Section>) -> Seq<Seq<u8>> {
    sections.filter(|s: Section| is_private_key(s)).map_values(|s: Section| s.1)
}

/// The byte strings held by a list of buffers.
pub open spec fn ders(buffers: Seq<Vec<u8>>) -> Seq<Seq<u8>> {
    buffers.map_values(|d: Vec<u8>| d@)
}

/// A parse result as a mathematical value.
pub open spec fn parsed_view(parsed: Result<Vec<PemItem>, String>) -> Result<
    Seq<Section>,
    Seq<char>,
> {
    match parsed {
        Ok(items) => Ok(sections_of(items@)),
        Err(diagnostic) => Err(diagnostic@),
    }
}

/// The certificate chain that a parse result yields: every certificate in
/// order, provided the text parsed and held at least one.
pub open spec fn chain_outcome(parsed: Result<Seq<Section>, Seq<char>>) -> Result<
    Seq<Seq<u8>>,
    ConfigFailure,
> {
    match parsed {
        Err(diagnostic) => Err(ConfigFailure::MalformedCertificate(diagnostic)),
        Ok(sections) => if certificates_in(sections).len() == 0 {
            Err(ConfigFailure::MalformedCertificate("no certificate found"@))
        } else {
            Ok(certificates_in(sections))
        },
    }
}

/// The private key that a parse result yields: the only key in the text,
/// provided the text parsed and held exactly one.
pub open spec fn key_outcome(parsed: Result<Seq<Section>, Seq<char>>) -> Result<
    Seq<u8>,
    ConfigFailure,
> {
    match parsed {
        Err(diagnostic) => Err(ConfigFailure::MalformedPrivateKey(diagnostic)),
        Ok(sections) => if private_keys_in(sections).len() == 0 {
            Err(ConfigFailure::MalformedPrivateKey("no private key found"@))
        } else if private_keys_in(sections).len() > 1 {
            Err(ConfigFailure::MalformedPrivateKey("more than one private key found"@))
        } else {
            Ok(private_keys_in(sections)[0])
        },
    }
}

/// Filtering a list that grew by one section.
proof fn lemma_filter_push(s: Seq<Section>, x: Section, pred: spec_fn(Section) -> bool)
    ensures
        s.push(x).filter(pred) == if pred(x) {
            s.filter(pred).push(x)
        } else {
            s.filter(pred)
        },
{
    reveal(Seq::filter);
    assert(s.push(x).drop_last() =~= s);
}

/// The sections of `kind` class among the items: the certificates, or the
/// private keys.
fn collect(items: &Vec<PemItem>, keys: bool) -> (out: Vec<Vec<u8>>)
    ensures
        ders(out@) == if keys {
            private_keys_in(sections_of(items@))
        } else {
            certificates_in(sections_of(items@))
        },
{
    let ghost pred = if keys {
        |s: Section| is_private_key(s)
    } else {
        |s: Section| is_certificate(s)
    };
    let ghost all = sections_of(items@);
    let mut out: Vec<Vec<u8>> = Vec::new();
    let mut i: usize = 0;
    proof {
        reveal(Seq::filter);
        assert(all.take(0) =~= Seq::<Section>::empty());
        assert(ders(out@) =~= all.take(0).filter(pred).map_values(|s: Section| s.1));
    }
    while i < items.len()
        invariant
            i <= items.len(),
            all == sections_of(items@),
            pred == if keys {
                |s: Section| is_private_key(s)
            } else {
                |s: Section| is_certificate(s)
            },
            ders(out@) == all.take(i as int).filter(pred).map_values(|s: Section| s.1),
        decreases items.len() - i,
    {
        let item = &items[i];
        let wanted = if keys {
            match item.kind {
                PemKind::RsaKey | PemKind::Pkcs8Key | PemKind::EcKey => true,
                _ => false,
            }
        } else {
            match item.kind {
                PemKind::Certificate => true,
                _ => false,
            }
        };
        proof {
            assert(all.take(i as int + 1) =~= all.take(i as int).push(all[i as int]));
            lemma_filter_push(all.take(i as int), all[i as int], pred);
            assert(wanted == pred(all[i as int]));
        }
        if wanted {
            let der = item.der.clone();
            assert(der@ == item.der@);
            let ghost before = out@;
            out.push(der);
            assert(ders(out@) =~= ders(before).push(der@));
            assert(all.take(i as int + 1).filter(pred).map_values(|s: Section| s.1) =~= all.take(
                i as int,
            ).filter(pred).map_values(|s: Section| s.1).push(all[i as int].1));
        }
        i = i + 1;
    }
    assert(all.take(i as int) =~= all);
    out
}

/// Picks the certificate chain out of a parse result.
pub fn select_certificates(parsed: Result<Vec<PemItem>, String>) -> (chain: Result<
    Vec<Vec<u8>>,
    ConfigError,
>)
    ensures
        match chain_outcome(parsed_view(parsed)) {
            Ok(certificates) => chain matches Ok(found) && ders(found@) == certificates,
            Err(failure) => chain matches Err(e) && e@ == failure,
        },
{
    match parsed {
        Err(diagnostic) => Err(ConfigError::MalformedCertificate(diagnostic)),
        Ok(items) => {
            let found = collect(&items, false);
            assert(ders(found@).len() == found@.len());
            if found.len() == 0 {
                Err(ConfigError::MalformedCertificate(String::from_str("no certificate found")))
            } else {
                Ok(found)
            }
        },
    }
}

/// Picks the private key out of a parse result.
pub fn select_private_key(parsed: Result<Vec<PemItem>, String>) -> (key: Result<
    Vec<u8>,
    ConfigError,
>)
    ensures
        match key_outcome(parsed_view(parsed)) {
            Ok(der) => key matches Ok(found) && found@ == der,
            Err(failure) => key matches Err(e) && e@ == failure,
        },
{
    match parsed {
        Err(diagnostic) => Err(ConfigError::MalformedPrivateKey(diagnostic)),
        Ok(items) => {
            let mut found = collect(&items, true);
            assert(ders(found@).len() == found@.len());
            if found.len() == 0 {
                Err(ConfigError::MalformedPrivateKey(String::from_str("no private key found")))
            } else if found.len() > 1 {
                Err(
                    ConfigError::MalformedPrivateKey(
                        String::from_str("more than one private key found"),
                    ),
                )
            } else {
                assert(ders(found@)[0] == found@[0]@);
                let der = found.remove(0);
                Ok(der)
            }
        },
    }
}

/// A copy of a list of buffers.
pub fn copy_ders(buffers: &Vec<Vec<u8>>) -> (copy: Vec<Vec<u8>>)
    ensures
        ders(copy@) == ders(buffers@),
{
    let copy = buffers.clone();
    assert(ders(copy@) =~= ders(buffers@)) by {
        assert forall|i: int| 0 <= i < copy@.len() implies copy@[i]@ == buffers@[i]@ by {
            assert(cloned(buffers@[i], copy@[i]));
        }
    }
    copy
}

/// Loads a certificate chain from PEM text: every certificate in it, in order.
/// Text that does not parse, or holds no certificate, is malformed.
pub fn load_certs(data: &[u8]) -> (chain: Result<Vec<Vec<u8>>, ConfigError>)
    ensures
        match chain_outcome(pem_sections(data@)) {
            Ok(certificates) => chain matches Ok(found) && ders(found@) == certificates,
            Err(failure) => chain matches Err(e) && e@ == failure,
        },
{
    select_certificates(read_sections(data))
}

/// Loads the private key from PEM text, in PKCS#1, PKCS#8 or SEC1 encoding.
/// Text that does not parse, or does not hold exactly one key, is malformed.
pub fn load_private_key(data: &[u8]) -> (key: Result<Vec<u8>, ConfigError>)
    ensures
        match key_outcome(pem_sections(data@)) {
            Ok(der) => key matches Ok(found) && found@ == der,
            Err(failure) => key matches Err(e) && e@ == failure,
        },
{
    select_private_key(read_sections(data))
}

/// The server's credentials: a certificate chain, leaf first, and the private
/// key of the leaf. The chain is never empty.
pub struct CredentialBundle {
    chain: Vec<Vec<u8>>,
    key: Vec<u8>,
}

/// The credentials that two parse results yield, the chain's text being
/// judged before the key's.
pub open spec fn credentials_outcome(
    chain: Result<Seq<Section>, Seq<char>>,
    key: Result<Seq<Section>, Seq<char>>,
) -> Result<(Seq<Seq<u8>>, Seq<u8>), ConfigFailure> {
    match chain_outcome(chain) {
        Err(failure) => Err(failure),
        Ok(certificates) => match key_outcome(key) {
            Err(failure) => Err(failure),
            Ok(der) => Ok((certificates, der)),
        },
    }
}

impl CredentialBundle {
    #[verifier::type_invariant]
    spec fn well_formed(self) -> bool {
        self.chain@.len() > 0
    }

    /// The certificate chain, DER-encoded, leaf first.
    pub closed spec fn chain(self) -> Seq<Seq<u8>> {
        ders(self.chain@)
    }

    /// The private key, DER-encoded.
    pub closed spec fn key(self) -> Seq<u8> {
        self.key@
    }

    /// Pairs a chain with its key. `None` when the chain is empty.
    pub fn new(chain: Vec<Vec<u8>>, key: Vec<u8>) -> (bundle: Option<CredentialBundle>)
        ensures
            bundle is Some <==> chain@.len() > 0,
            bundle matches Some(b) ==> b.chain() == ders(chain@) && b.key() == key@,
    {
        if chain.len() == 0 {
            None
        } else {
            Some(CredentialBundle { chain, key })
        }
    }

    /// Loads the chain and then the key from PEM text.
    pub fn load(chain_pem: &[u8], key_pem: &[u8]) -> (bundle: Result<CredentialBundle, ConfigError>)
        ensures
            match credentials_outcome(pem_sections(chain_pem@), pem_sections(key_pem@)) {
                Ok((certificates, der)) => bundle matches Ok(b) && b.chain() == certificates
                    && b.key() == der,
                Err(failure) => bundle matches Err(e) && e@ == failure,
            },
    {
        let chain = load_certs(chain_pem)?;
        let key = load_private_key(key_pem)?;
        assert(ders(chain@).len() == chain@.len());
        Ok(CredentialBundle { chain, key })
    }

    /// A copy of the certificate chain, which is never empty.
    pub fn to_chain(&self) -> (chain: Vec<Vec<u8>>)
        ensures
            ders(chain@) == self.chain(),
            self.chain().len() > 0,
    {
        proof {
            use_type_invariant(self);
        }
        copy_ders(&self.chain)
    }

    /// Gives up the chain and the key.
    pub fn into_parts(self) -> (parts: (Vec<Vec<u8>>, Vec<u8>))
        ensures
            ders(parts.0@) == self.chain(),
            parts.0@.len() > 0,
            parts.1@ == self.key(),
    {
        proof {
            use_type_invariant(&self);
        }
        (self.chain, self.key)
    }
}

} // verus!
