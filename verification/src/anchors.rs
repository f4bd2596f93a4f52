//! The trust anchors against which client certificates are verified.

use crate::credentials::{certificates_in, ders, parsed_view, select_certificates};
use crate::engine::{add_anchor, anchor_of, empty_store, store_roots, Anchor};
use crate::error::{ConfigError, ConfigFailure};
use crate::pem::{pem_sections, read_sections, PemItem, Section};
use tokio_rustls::rustls::RootCertStore;
use vstd::prelude::*;
use vstd::string::*;

verus! {

/// Whether the engine accepts every one of `certificates` as a trust anchor.
pub open spec fn all_anchors(certificates: Seq<Seq<u8>>) -> bool {
    forall|i: int| 0 <= i < certificates.len() ==> anchor_of(#[trigger] certificates[i]).is_some()
}

/// The anchors that the engine extracts from `certificates`, in order.
pub open spec fn anchors_of(certificates: Seq<Seq<u8>>) -> Seq<Anchor> {
    certificates.map_values(|der: Seq<u8>| anchor_of(der).unwrap())
}

/// The CA certificates that a parse result yields: every certificate in the
/// text, provided the text parsed, held at least one, and each is accepted by
/// the engine as a trust anchor.
pub open spec fn anchors_outcome(parsed: Result<Seq<Section>, Seq<char>>) -> Result<
    Seq<Seq<u8>>,
    ConfigFailure,
> {
    match parsed {
        Err(diagnostic) => Err(ConfigFailure::MalformedTrustAnchors(diagnostic)),
        Ok(sections) => if certificates_in(sections).len() == 0 {
            Err(ConfigFailure::MalformedTrustAnchors("no CA certificate found"@))
        } else if !all_anchors(certificates_in(sections)) {
            Err(ConfigFailure::MalformedTrustAnchors("CA certificate is no trust anchor"@))
        } else {
            Ok(certificates_in(sections))
        },
    }
}

/// A non-empty set of CA certificates, together with the engine's store of the
/// anchors extracted from them.
pub struct TrustAnchors {
    store: RootCertStore,
    certificates: Vec<Vec<u8>>,
}

impl TrustAnchors {
    #[verifier::type_invariant]
    spec fn well_formed(self) -> bool {
        &&& self.certificates@.len() > 0
        &&& all_anchors(ders(self.certificates@))
        &&& store_roots(self.store) == anchors_of(ders(self.certificates@))
    }

    /// The CA certificates, DER-encoded, in the order in which they were given.
    pub closed spec fn certificates(self) -> Seq<Seq<u8>> {
        ders(self.certificates@)
    }

    /// The anchors in the engine's store.
    pub closed spec fn roots(self) -> Seq<Anchor> {
        store_roots(self.store)
    }

    /// Builds the set from DER-encoded CA certificates. `None` when there is
    /// no certificate, or when the engine rejects one of them.
    pub fn from_certificates(certificates: Vec<Vec<u8>>) -> (anchors: Option<TrustAnchors>)
        ensures
            anchors is Some <==> ders(certificates@).len() > 0 && all_anchors(ders(certificates@)),
            anchors matches Some(a) ==> a.certificates() == ders(certificates@),
    {
        let ghost all = ders(certificates@);
        if certificates.len() == 0 {
            return None;
        }
        let mut store = empty_store();
        let mut i: usize = 0;
        assert(anchors_of(all.take(0)) =~= Seq::<Anchor>::empty());
        while i < certificates.len()
            invariant
                i <= certificates.len(),
                all == ders(certificates@),
                all_anchors(all.take(i as int)),
                store_roots(store) == anchors_of(all.take(i as int)),
            decreases certificates.len() - i,
        {
            let added = add_anchor(&mut store, &certificates[i]);
            proof {
                assert(all[i as int] == certificates@[i as int]@);
                assert(all.take(i as int + 1) =~= all.take(i as int).push(all[i as int]));
            }
            if !added {
                assert(!all_anchors(all));
                return None;
            }
            proof {
                assert(anchors_of(all.take(i as int + 1)) =~= anchors_of(all.take(i as int)).push(
                    anchor_of(all[i as int]).unwrap(),
                ));
                assert forall|j: int| 0 <= j < i + 1 implies anchor_of(
                    #[trigger] all.take(i as int + 1)[j],
                ).is_some() by {
                    if j < i {
                        assert(all.take(i as int + 1)[j] == all.take(i as int)[j]);
                    }
                }
            }
            i = i + 1;
        }
        assert(all.take(i as int) =~= all);
        Some(TrustAnchors { store, certificates })
    }

    /// The CA certificates, DER-encoded: at least one, each accepted by the
    /// engine, and the engine's store holds exactly their anchors, in order.
    pub fn to_certificates(&self) -> (certificates: Vec<Vec<u8>>)
        ensures
            ders(certificates@) == self.certificates(),
            self.certificates().len() > 0,
            all_anchors(self.certificates()),
            self.roots() == anchors_of(self.certificates()),
    {
        proof {
            use_type_invariant(self);
        }
        let copy = self.certificates.clone();
        assert(ders(copy@) =~= ders(self.certificates@)) by {
            assert forall|i: int| 0 <= i < copy@.len() implies copy@[i]@ == self.certificates@[i]@ by {
                assert(cloned(self.certificates@[i], copy@[i]));
            }
        }
        copy
    }

    /// Gives up the engine's store, for the verifier that is built on it.
    pub(crate) fn into_parts(self) -> (parts: (RootCertStore, Vec<Vec<u8>>))
        ensures
            store_roots(parts.0) == self.roots(),
            ders(parts.1@) == self.certificates(),
            ders(parts.1@).len() > 0,
    {
        proof {
            use_type_invariant(&self);
        }
        (self.store, self.certificates)
    }
}

/// Picks the trust anchors out of a parse result.
pub fn select_trust_anchors(parsed: Result<Vec<PemItem>, String>) -> (anchors: Result<
    TrustAnchors,
    ConfigError,
>)
    ensures
        match anchors_outcome(parsed_view(parsed)) {
            Ok(certificates) => anchors matches Ok(found) && found.certificates() == certificates,
            Err(failure) => anchors matches Err(e) && e@ == failure,
        },
{
    match parsed {
        Err(diagnostic) => Err(ConfigError::MalformedTrustAnchors(diagnostic)),
        Ok(items) => match select_certificates(Ok(items)) {
            Err(_) => Err(
                ConfigError::MalformedTrustAnchors(String::from_str("no CA certificate found")),
            ),
            Ok(certificates) => match TrustAnchors::from_certificates(certificates) {
                Some(anchors) => Ok(anchors),
                None => Err(
                    ConfigError::MalformedTrustAnchors(
                        String::from_str("CA certificate is no trust anchor"),
                    ),
                ),
            },
        },
    }
}

/// Loads the trust anchors from a PEM bundle of CA certificates. Text that
/// does not parse, holds no certificate, or holds one that the engine rejects
/// as a trust anchor, is malformed.
pub fn load_ca_certs(data: &[u8]) -> (anchors: Result<TrustAnchors, ConfigError>)
    ensures
        match anchors_outcome(pem_sections(data@)) {
            Ok(certificates) => anchors matches Ok(found) && found.certificates() == certificates,
            Err(failure) => anchors matches Err(e) && e@ == failure,
        },
{
    select_trust_anchors(read_sections(data))
}

} // verus!
