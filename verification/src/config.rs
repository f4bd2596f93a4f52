//! Building the session configuration that every accepted connection shares.

use crate::anchors::TrustAnchors;
use crate::credentials::{copy_ders, ders, CredentialBundle};
use crate::engine::{
    install_credentials, install_negotiation, install_session_cache, install_ticketer, key_usable,
    start_config, with_mandatory_client_auth, with_optional_client_auth, without_client_auth,
};
use crate::error::{ConfigError, ConfigFailure};
use crate::policy::{resolved_mode, ClientAuthMode};
use tokio_rustls::rustls::{ServerConfig, SupportedCipherSuite};
use vstd::prelude::*;

verus! {

/// How many sessions the resumption cache holds, whatever the load.
pub const SESSION_CACHE_CAPACITY: usize = 1024;

/// The application protocols offered during negotiation, most preferred
/// first: `h2`, then `http/1.1`.
pub open spec fn alpn_preference() -> Seq<Seq<u8>> {
    seq![
        seq![0x68u8, 0x32u8],
        seq![0x68u8, 0x74u8, 0x74u8, 0x70u8, 0x2fu8, 0x31u8, 0x2eu8, 0x31u8],
    ]
}

/// The application protocols offered during negotiation, most preferred first.
pub fn alpn_protocols() -> (protocols: Vec<Vec<u8>>)
    ensures
        ders(protocols@) == alpn_preference(),
{
    let mut h2: Vec<u8> = Vec::new();
    h2.push(0x68u8);
    h2.push(0x32u8);
    let mut http11: Vec<u8> = Vec::new();
    http11.push(0x68u8);
    http11.push(0x74u8);
    http11.push(0x74u8);
    http11.push(0x70u8);
    http11.push(0x2fu8);
    http11.push(0x31u8);
    http11.push(0x2eu8);
    http11.push(0x31u8);
    let mut protocols: Vec<Vec<u8>> = Vec::new();
    protocols.push(h2);
    protocols.push(http11);
    proof {
        assert(ders(protocols@)[0] =~= alpn_preference()[0]);
        assert(ders(protocols@)[1] =~= alpn_preference()[1]);
        assert(ders(protocols@) =~= alpn_preference());
    }
    protocols
}

/// What a session configuration was built with.
#[derive(Clone, Debug, PartialEq)]
pub struct SessionSettings {
    /// How client certificates are treated.
    pub client_auth: ClientAuthMode,
    /// The server's certificate chain, DER-encoded, leaf first.
    pub certificate_chain: Vec<Vec<u8>>,
    /// The CA certificates that client certificates are verified against; empty
    /// when no client certificate is requested.
    pub trust_anchors: Vec<Vec<u8>>,
    /// The cipher suites that may be negotiated, in the server's order.
    pub cipher_suites: Vec<SupportedCipherSuite>,
    /// Whether the server's order of cipher suites overrides the client's.
    pub prefer_server_order: bool,
    /// How many sessions the resumption cache holds.
    pub session_cache_capacity: usize,
    /// The application protocols offered, most preferred first.
    pub alpn_protocols: Vec<Vec<u8>>,
    /// Whether session tickets are issued, under keys drawn for this
    /// configuration alone.
    pub session_tickets: bool,
}

/// The mathematical value of [`SessionSettings`].
#[verifier::ext_equal]
pub struct Settings {
    pub client_auth: ClientAuthMode,
    pub certificate_chain: Seq<Seq<u8>>,
    pub trust_anchors: Seq<Seq<u8>>,
    pub cipher_suites: Seq<SupportedCipherSuite>,
    pub prefer_server_order: bool,
    pub session_cache_capacity: nat,
    pub alpn_protocols: Seq<Seq<u8>>,
    pub session_tickets: bool,
}

impl Settings {
    /// What holds of the settings of every session configuration: the chain
    /// is not empty; client certificates are requested exactly when there are
    /// trust anchors; the cache capacity and the protocol list are the fixed
    /// ones.
    pub open spec fn well_formed(self) -> bool {
        &&& self.certificate_chain.len() > 0
        &&& (self.client_auth == ClientAuthMode::NoAuthentication) == (self.trust_anchors.len()
            == 0)
        &&& self.session_cache_capacity == SESSION_CACHE_CAPACITY
        &&& self.alpn_protocols == alpn_preference()
    }
}

impl View for SessionSettings {
    type V = Settings;

    open spec fn view(&self) -> Settings {
        Settings {
            client_auth: self.client_auth,
            certificate_chain: ders(self.certificate_chain@),
            trust_anchors: ders(self.trust_anchors@),
            cipher_suites: self.cipher_suites@,
            prefer_server_order: self.prefer_server_order,
            session_cache_capacity: self.session_cache_capacity as nat,
            alpn_protocols: ders(self.alpn_protocols@),
            session_tickets: self.session_tickets,
        }
    }
}

/// The settings that a successful build fixes. The client-authentication mode
/// follows from whether there are trust anchors and from the "mandatory" flag;
/// the cache capacity and the protocol list are constants.
pub open spec fn expected_settings(
    chain: Seq<Seq<u8>>,
    anchors: Option<Seq<Seq<u8>>>,
    mandatory_mtls: bool,
    cipher_suites: Seq<SupportedCipherSuite>,
    prefer_server_order: bool,
    session_tickets: bool,
) -> Settings {
    Settings {
        client_auth: resolved_mode(anchors.is_some(), mandatory_mtls),
        certificate_chain: chain,
        trust_anchors: match anchors {
            Some(certificates) => certificates,
            None => Seq::empty(),
        },
        cipher_suites,
        prefer_server_order,
        session_cache_capacity: SESSION_CACHE_CAPACITY as nat,
        alpn_protocols: alpn_preference(),
        session_tickets,
    }
}

/// Why the engine refuses to be configured, if it does: an empty list of
/// cipher suites is judged first, then a key it cannot sign with.
pub open spec fn build_failure(key: Seq<u8>, cipher_suites: Seq<SupportedCipherSuite>) -> Option<
    ConfigFailure,
> {
    if cipher_suites.len() == 0 {
        Some(ConfigFailure::UnsupportedCipherConfiguration)
    } else if !key_usable(key) {
        Some(ConfigFailure::InvalidKeyPair)
    } else {
        None
    }
}

/// The certificates of an optional set of trust anchors.
pub open spec fn anchor_certificates(anchors: Option<TrustAnchors>) -> Option<Seq<Seq<u8>>> {
    match anchors {
        Some(a) => Some(a.certificates()),
        None => None,
    }
}

/// A copy of a list of cipher suites.
pub fn copy_suites(suites: &Vec<SupportedCipherSuite>) -> (copy: Vec<SupportedCipherSuite>)
    ensures
        copy@ == suites@,
{
    let mut copy: Vec<SupportedCipherSuite> = Vec::new();
    let mut i: usize = 0;
    while i < suites.len()
        invariant
            i <= suites.len(),
            copy@ == suites@.take(i as int),
        decreases suites.len() - i,
    {
        copy.push(suites[i]);
        assert(suites@.take(i as int + 1) =~= suites@.take(i as int).push(suites@[i as int]));
        i = i + 1;
    }
    assert(suites@.take(i as int) =~= suites@);
    copy
}

/// The engine's configuration for every connection of one listener, with a
/// record of what it was built with. Nothing changes it once it is built.
pub struct SessionConfiguration {
    engine: ServerConfig,
    settings: SessionSettings,
}

/// The settings that a build fixes are well formed, given a chain that is not
/// empty and, where there are trust anchors, at least one of them.
pub proof fn lemma_expected_settings_well_formed(
    chain: Seq<Seq<u8>>,
    anchors: Option<Seq<Seq<u8>>>,
    mandatory_mtls: bool,
    cipher_suites: Seq<SupportedCipherSuite>,
    prefer_server_order: bool,
    session_tickets: bool,
)
    requires
        chain.len() > 0,
        anchors matches Some(certificates) ==> certificates.len() > 0,
    ensures
        expected_settings(
            chain,
            anchors,
            mandatory_mtls,
            cipher_suites,
            prefer_server_order,
            session_tickets,
        ).well_formed(),
{
}

impl SessionConfiguration {
    #[verifier::type_invariant]
    spec fn well_formed(self) -> bool {
        self.settings@.well_formed()
    }

    /// What the configuration was built with.
    pub closed spec fn settings(self) -> Settings {
        self.settings@
    }

    /// Builds the configuration, short of session tickets: the cipher suites
    /// are handed to the engine, then the client-certificate verifier that the
    /// resolved mode asks for, then the credentials; the resumption cache, the
    /// order policy and the protocol list are installed last.
    pub fn assemble(
        credentials: CredentialBundle,
        trust_anchors: Option<TrustAnchors>,
        mandatory_mtls: bool,
        cipher_suites: Vec<SupportedCipherSuite>,
        prefer_server_order: bool,
    ) -> (built: Result<SessionConfiguration, ConfigError>)
        ensures
            match build_failure(credentials.key(), cipher_suites@) {
                Some(failure) => built matches Err(e) && e@ == failure,
                None => built matches Ok(config) && config.settings() == expected_settings(
                    credentials.chain(),
                    anchor_certificates(trust_anchors),
                    mandatory_mtls,
                    cipher_suites@,
                    prefer_server_order,
                    false,
                ),
            },
            built matches Ok(config) ==> config.settings().well_formed(),
    {
        let client_auth = ClientAuthMode::resolve(trust_anchors.is_some(), mandatory_mtls);
        let stage = match start_config(&cipher_suites) {
            Some(stage) => stage,
            None => {
                return Err(ConfigError::UnsupportedCipherConfiguration);
            },
        };
        let (stage, anchors) = match trust_anchors {
            None => (without_client_auth(stage), Vec::new()),
            Some(anchors) => {
                let (store, certificates) = anchors.into_parts();
                if mandatory_mtls {
                    (with_mandatory_client_auth(stage, store), certificates)
                } else {
                    (with_optional_client_auth(stage, store), certificates)
                }
            },
        };
        let (chain, key) = credentials.into_parts();
        let record = copy_ders(&chain);
        let mut engine = match install_credentials(stage, chain, key) {
            Some(engine) => engine,
            None => {
                return Err(ConfigError::InvalidKeyPair);
            },
        };
        install_session_cache(&mut engine, SESSION_CACHE_CAPACITY);
        install_negotiation(&mut engine, prefer_server_order, alpn_protocols());
        let settings = SessionSettings {
            client_auth,
            certificate_chain: record,
            trust_anchors: anchors,
            cipher_suites,
            prefer_server_order,
            session_cache_capacity: SESSION_CACHE_CAPACITY,
            alpn_protocols: alpn_protocols(),
            session_tickets: false,
        };
        proof {
            assert(ders(Seq::<Vec<u8>>::empty()) =~= Seq::<Seq<u8>>::empty());
            assert(settings@ =~= expected_settings(
                credentials.chain(),
                anchor_certificates(trust_anchors),
                mandatory_mtls,
                cipher_suites@,
                prefer_server_order,
                false,
            ));
        }
        Ok(SessionConfiguration { engine, settings })
    }

    /// Closes a configuration after the attempt to give it session-ticket
    /// keys: with keys it issues tickets; without them there is no
    /// configuration.
    pub fn sealed(self, ticket_keys: bool) -> (closed: Result<SessionConfiguration, ConfigError>)
        ensures
            match closed {
                Ok(config) => ticket_keys && config.settings() == (Settings {
                    session_tickets: true,
                    ..self.settings()
                }),
                Err(e) => !ticket_keys && e@ == ConfigFailure::TicketKeysUnavailable,
            },
            closed matches Ok(config) ==> config.settings().well_formed(),
    {
        proof {
            use_type_invariant(&self);
        }
        if ticket_keys {
            let mut settings = self.settings;
            settings.session_tickets = true;
            Ok(SessionConfiguration { engine: self.engine, settings })
        } else {
            Err(ConfigError::TicketKeysUnavailable)
        }
    }

    /// Builds the configuration that every connection of a listener shares.
    ///
    /// The engine refuses an empty list of cipher suites, and a key it cannot
    /// sign with. Past that, the one thing that can fail is the drawing of
    /// fresh session-ticket keys, which depends on the machine's source of
    /// randomness. On success the settings are fixed as [`expected_settings`]
    /// says, with session tickets on.
    pub fn build(
        credentials: CredentialBundle,
        trust_anchors: Option<TrustAnchors>,
        mandatory_mtls: bool,
        cipher_suites: Vec<SupportedCipherSuite>,
        prefer_server_order: bool,
    ) -> (built: Result<SessionConfiguration, ConfigError>)
        ensures
            match build_failure(credentials.key(), cipher_suites@) {
                Some(failure) => built matches Err(e) && e@ == failure,
                None => match built {
                    Ok(config) => config.settings() == expected_settings(
                        credentials.chain(),
                        anchor_certificates(trust_anchors),
                        mandatory_mtls,
                        cipher_suites@,
                        prefer_server_order,
                        true,
                    ),
                    Err(e) => e@ == ConfigFailure::TicketKeysUnavailable,
                },
            },
            built matches Ok(config) ==> config.settings().well_formed(),
    {
        let config = SessionConfiguration::assemble(
            credentials,
            trust_anchors,
            mandatory_mtls,
            cipher_suites,
            prefer_server_order,
        )?;
        let (mut engine, settings) = config.into_parts();
        let ticket_keys = install_ticketer(&mut engine);
        SessionConfiguration { engine, settings }.sealed(ticket_keys)
    }

    /// What the configuration was built with.
    pub fn to_settings(&self) -> (settings: SessionSettings)
        ensures
            settings@ == self.settings(),
            settings@.well_formed(),
    {
        proof {
            use_type_invariant(self);
        }
        let settings = SessionSettings {
            client_auth: self.settings.client_auth,
            certificate_chain: copy_ders(&self.settings.certificate_chain),
            trust_anchors: copy_ders(&self.settings.trust_anchors),
            cipher_suites: copy_suites(&self.settings.cipher_suites),
            prefer_server_order: self.settings.prefer_server_order,
            session_cache_capacity: self.settings.session_cache_capacity,
            alpn_protocols: copy_ders(&self.settings.alpn_protocols),
            session_tickets: self.settings.session_tickets,
        };
        assert(settings@ =~= self.settings@);
        settings
    }

    /// Gives up the engine's configuration and the record of its settings.
    pub fn into_parts(self) -> (parts: (ServerConfig, SessionSettings))
        ensures
            parts.1@ == self.settings(),
            parts.1@.well_formed(),
    {
        proof {
            use_type_invariant(&self);
        }
        (self.engine, self.settings)
    }
}

} // verus!
