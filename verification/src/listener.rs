//! The listener: its configuration, and the state machine that takes each
//! raw connection through its handshake.

use crate::anchors::{anchors_outcome, load_ca_certs, TrustAnchors};
use crate::config::{
    alpn_preference, build_failure, expected_settings, SessionConfiguration, SessionSettings,
    Settings,
};
use crate::credentials::{chain_outcome, key_outcome, CredentialBundle};
use crate::engine::acceptor_for;
use crate::error::{ConfigError, ConfigFailure};
use crate::pem::pem_sections;
use crate::policy::resolved_mode;
use tokio_rustls::rustls::SupportedCipherSuite;
use tokio_rustls::TlsAcceptor;
use vstd::prelude::*;

verus! {

/// What a listener is configured from. `R` is where the PEM text comes from;
/// a listener is bound from text already read, `Config<Vec<u8>>`.
pub struct Config<R> {
    /// The server's certificate chain, PEM-encoded, leaf first.
    pub cert_chain: R,
    /// The private key of the leaf certificate, PEM-encoded.
    pub private_key: R,
    /// The cipher suites that may be negotiated, in the server's order.
    pub ciphersuites: Vec<&'static SupportedCipherSuite>,
    /// Whether the server's order of cipher suites overrides the client's.
    pub prefer_server_order: bool,
    /// The CA certificates to verify client certificates against, PEM-encoded;
    /// `None` turns client authentication off.
    pub ca_certs: Option<R>,
    /// Whether a client must present a certificate.
    pub mandatory_mtls: bool,
}

/// Where a listener stands. At most one handshake is in flight.
#[derive(Debug, PartialEq, Eq)]
pub enum State<H> {
    /// Waiting for a raw connection.
    Listening,
    /// A raw connection was accepted; its handshake is in flight.
    Handshaking(H),
}

/// Which operation a listener is waiting on.
#[derive(Clone, Copy, Debug, PartialEq, Eq, Structural)]
pub enum Awaited {
    /// The transport: the next raw connection.
    Transport,
    /// The handshake in flight.
    Handshake,
}

/// What polling the awaited operation reported. `H` is a handshake in
/// flight, `C` a negotiated connection, `E` an error.
#[derive(Debug, PartialEq, Eq)]
pub enum AcceptEvent<H, C, E> {
    /// The transport has no connection yet.
    TransportPending,
    /// The transport failed.
    TransportFailed(E),
    /// The transport accepted a connection, and a handshake was started on it.
    Connected(H),
    /// The handshake has not finished.
    HandshakePending,
    /// The handshake finished, well or badly.
    HandshakeFinished(Result<C, E>),
}

/// What the caller of the listener does next.
#[derive(Debug, PartialEq, Eq)]
pub enum AcceptStep<H, C, E> {
    /// Nothing can progress: report "not ready" and poll again when woken.
    Suspend,
    /// The accept operation is over: report its result.
    Ready(Result<C, E>),
    /// A handshake is now in flight: poll it.
    PollHandshake,
    /// The event does not belong to what the listener was waiting on. It is
    /// handed back untouched, and the listener has not moved.
    Unexpected(AcceptEvent<H, C, E>),
}

/// The operation that a listener in `state` waits on.
pub open spec fn awaited<H>(state: State<H>) -> Awaited {
    match state {
        State::Listening => Awaited::Transport,
        State::Handshaking(_) => Awaited::Handshake,
    }
}

/// The listener's transition function: the state after `event`, and what the
/// caller does next.
pub open spec fn transition<H, C, E>(state: State<H>, event: AcceptEvent<H, C, E>) -> (
    State<H>,
    AcceptStep<H, C, E>,
) {
    match (state, event) {
        (State::Listening, AcceptEvent::TransportPending) => (State::Listening, AcceptStep::Suspend),
        (State::Listening, AcceptEvent::TransportFailed(e)) => (
            State::Listening,
            AcceptStep::Ready(Err(e)),
        ),
        (State::Listening, AcceptEvent::Connected(handshake)) => (
            State::Handshaking(handshake),
            AcceptStep::PollHandshake,
        ),
        (State::Handshaking(handshake), AcceptEvent::HandshakePending) => (
            State::Handshaking(handshake),
            AcceptStep::Suspend,
        ),
        (State::Handshaking(_), AcceptEvent::HandshakeFinished(result)) => (
            State::Listening,
            AcceptStep::Ready(result),
        ),
        (state, event) => (state, AcceptStep::Unexpected(event)),
    }
}

/// The cipher suites behind a list of references to them.
pub open spec fn owned_suites(suites: Seq<&'static SupportedCipherSuite>) -> Seq<
    SupportedCipherSuite,
> {
    suites.map_values(|suite: &'static SupportedCipherSuite| *suite)
}

/// The CA certificates that an optional bundle yields: none where there is no
/// bundle.
pub open spec fn ca_outcome(ca_certs: Option<Vec<u8>>) -> Result<
    Option<Seq<Seq<u8>>>,
    ConfigFailure,
> {
    match ca_certs {
        None => Ok(None),
        Some(bundle) => match anchors_outcome(pem_sections(bundle@)) {
            Ok(certificates) => Ok(Some(certificates)),
            Err(failure) => Err(failure),
        },
    }
}

/// What binding with `c` comes to, as far as the configuration decides it: the
/// settings of the listener, or the first failure in the order certificate
/// chain, private key, CA bundle, cipher suites, key pair.
pub open spec fn bind_outcome(c: Config<Vec<u8>>) -> Result<Settings, ConfigFailure> {
    match chain_outcome(pem_sections(c.cert_chain@)) {
        Err(failure) => Err(failure),
        Ok(chain) => match key_outcome(pem_sections(c.private_key@)) {
            Err(failure) => Err(failure),
            Ok(key) => match ca_outcome(c.ca_certs) {
                Err(failure) => Err(failure),
                Ok(anchors) => match build_failure(key, owned_suites(c.ciphersuites@)) {
                    Some(failure) => Err(failure),
                    None => Ok(
                        expected_settings(
                            chain,
                            anchors,
                            c.mandatory_mtls,
                            owned_suites(c.ciphersuites@),
                            c.prefer_server_order,
                            true,
                        ),
                    ),
                },
            },
        },
    }
}

/// The cipher suites behind a list of references to them.
pub fn to_owned_suites(suites: &Vec<&'static SupportedCipherSuite>) -> (owned: Vec<
    SupportedCipherSuite,
>)
    ensures
        owned@ == owned_suites(suites@),
{
    let mut owned: Vec<SupportedCipherSuite> = Vec::new();
    let mut i: usize = 0;
    while i < suites.len()
        invariant
            i <= suites.len(),
            owned@ == owned_suites(suites@.take(i as int)),
        decreases suites.len() - i,
    {
        owned.push(*suites[i]);
        assert(owned_suites(suites@.take(i as int + 1)) =~= owned_suites(
            suites@.take(i as int),
        ).push(*suites@[i as int]));
        i = i + 1;
    }
    assert(suites@.take(i as int) =~= suites@);
    owned
}

/// A TLS listener: the acceptor that starts handshakes under one shared
/// session configuration, and the state of the accept operation.
pub struct TlsListener<H> {
    acceptor: TlsAcceptor,
    settings: SessionSettings,
    state: State<H>,
}

impl<H> TlsListener<H> {
    /// Where the listener stands.
    pub closed spec fn state(self) -> State<H> {
        self.state
    }

    /// What the listener's session configuration was built with.
    pub closed spec fn settings(self) -> Settings {
        self.settings@
    }

    /// The acceptor that the listener starts its handshakes with: the one made
    /// from its session configuration when it was put over it.
    pub closed spec fn session_acceptor(self) -> TlsAcceptor {
        self.acceptor
    }

    /// Whether `other` is this listener in another state: the same acceptor
    /// and the same settings.
    pub open spec fn same_session(self, other: Self) -> bool {
        self.session_acceptor() == other.session_acceptor() && self.settings() == other.settings()
    }

    /// Puts a listener over a session configuration. It starts out listening.
    pub fn new(config: SessionConfiguration) -> (listener: TlsListener<H>)
        ensures
            listener.state() == State::<H>::Listening,
            listener.settings() == config.settings(),
            listener.settings().well_formed(),
    {
        let (engine, settings) = config.into_parts();
        TlsListener { acceptor: acceptor_for(engine), settings, state: State::Listening }
    }

    /// Configures a listener from PEM text and policy.
    ///
    /// The certificate chain is read first, then the private key, then the CA
    /// bundle if there is one; the session configuration is built from them.
    /// The first failure is the result, and then there is no listener. Past
    /// the failures that [`bind_outcome`] names, the one thing that can fail
    /// is the drawing of fresh session-ticket keys. A listener that is
    /// returned is listening, under the settings that [`bind_outcome`] gives.
    pub fn bind(c: Config<Vec<u8>>) -> (bound: Result<TlsListener<H>, ConfigError>)
        ensures
            match bind_outcome(c) {
                Err(failure) => bound matches Err(e) && e@ == failure,
                Ok(settings) => match bound {
                    Ok(listener) => listener.settings() == settings
                        && listener.settings().well_formed() && listener.state()
                        == State::<H>::Listening,
                    Err(e) => e@ == ConfigFailure::TicketKeysUnavailable,
                },
            },
    {
        let credentials = CredentialBundle::load(c.cert_chain.as_slice(), c.private_key.as_slice())?;
        let trust_anchors: Option<TrustAnchors> = match &c.ca_certs {
            Some(bundle) => Some(load_ca_certs(bundle.as_slice())?),
            None => None,
        };
        let suites = to_owned_suites(&c.ciphersuites);
        let config = SessionConfiguration::build(
            credentials,
            trust_anchors,
            c.mandatory_mtls,
            suites,
            c.prefer_server_order,
        )?;
        Ok(TlsListener::new(config))
    }

    /// Which operation the listener waits on: the transport while listening,
    /// the handshake while one is in flight.
    pub fn awaits(&self) -> (operation: Awaited)
        ensures
            operation == awaited(self.state()),
    {
        match &self.state {
            State::Listening => Awaited::Transport,
            State::Handshaking(_) => Awaited::Handshake,
        }
    }

    /// Advances the accept operation by what polling reported, as
    /// [`transition`] says. The session is never touched.
    pub fn poll_accept<C, E>(&mut self, event: AcceptEvent<H, C, E>) -> (step: AcceptStep<H, C, E>)
        ensures
            (final(self).state(), step) == transition(old(self).state(), event),
            final(self).same_session(*old(self)),
    {
        let listening = match &self.state {
            State::Listening => true,
            State::Handshaking(_) => false,
        };
        match event {
            AcceptEvent::TransportPending => {
                if listening {
                    AcceptStep::Suspend
                } else {
                    AcceptStep::Unexpected(AcceptEvent::TransportPending)
                }
            },
            AcceptEvent::TransportFailed(e) => {
                if listening {
                    AcceptStep::Ready(Err(e))
                } else {
                    AcceptStep::Unexpected(AcceptEvent::TransportFailed(e))
                }
            },
            AcceptEvent::Connected(handshake) => {
                if listening {
                    self.state = State::Handshaking(handshake);
                    AcceptStep::PollHandshake
                } else {
                    AcceptStep::Unexpected(AcceptEvent::Connected(handshake))
                }
            },
            AcceptEvent::HandshakePending => {
                if listening {
                    AcceptStep::Unexpected(AcceptEvent::HandshakePending)
                } else {
                    AcceptStep::Suspend
                }
            },
            AcceptEvent::HandshakeFinished(result) => {
                if listening {
                    AcceptStep::Unexpected(AcceptEvent::HandshakeFinished(result))
                } else {
                    self.state = State::Listening;
                    AcceptStep::Ready(result)
                }
            },
        }
    }

    /// Gives up the accept operation where it stands. A handshake in flight
    /// is handed to the caller, who releases it by dropping it; the listener
    /// is listening again.
    pub fn abandon(&mut self) -> (released: Option<H>)
        ensures
            final(self).state() == State::<H>::Listening,
            final(self).same_session(*old(self)),
            released == match old(self).state() {
                State::Listening => None::<H>,
                State::Handshaking(handshake) => Some(handshake),
            },
    {
        let mut state = State::Listening;
        core::mem::swap(&mut self.state, &mut state);
        match state {
            State::Listening => None,
            State::Handshaking(handshake) => Some(handshake),
        }
    }

    /// The handshake in flight, to be polled.
    pub fn handshake_mut(&mut self) -> (handshake: Option<&mut H>)
        ensures
            match old(self).state() {
                State::Listening => handshake is None && *final(self) == *old(self),
                State::Handshaking(current) => {
                    &&& handshake matches Some(h)
                    &&& *h == current
                    &&& final(self).state() == State::Handshaking(*final(h))
                    &&& final(self).same_session(*old(self))
                },
            },
    {
        match &mut self.state {
            State::Listening => None,
            State::Handshaking(handshake) => Some(handshake),
        }
    }

    /// The acceptor that starts a handshake on a raw connection: the
    /// listener's own, which no transition replaces.
    pub fn acceptor(&self) -> (acceptor: &TlsAcceptor)
        ensures
            *acceptor == self.session_acceptor(),
    {
        &self.acceptor
    }

    /// What the listener's session configuration was built with.
    pub fn session(&self) -> (settings: &SessionSettings)
        ensures
            settings@ == self.settings(),
    {
        &self.settings
    }
}

/// Whether `event` reports on `operation`.
pub open spec fn reports_on<H, C, E>(event: AcceptEvent<H, C, E>, operation: Awaited) -> bool {
    match event {
        AcceptEvent::TransportPending => operation == Awaited::Transport,
        AcceptEvent::TransportFailed(_) => operation == Awaited::Transport,
        AcceptEvent::Connected(_) => operation == Awaited::Transport,
        AcceptEvent::HandshakePending => operation == Awaited::Handshake,
        AcceptEvent::HandshakeFinished(_) => operation == Awaited::Handshake,
    }
}

/// A handshake that resolves, well or badly, hands its result to the caller
/// and leaves the listener listening: a failed handshake costs one connection,
/// never the listener, which waits on the transport again.
pub proof fn lemma_handshake_outcome_resumes_listening<H, C, E>(handshake: H, result: Result<C, E>)
    ensures
        transition(State::Handshaking(handshake), AcceptEvent::HandshakeFinished(result)) == (
            State::<H>::Listening,
            AcceptStep::<H, C, E>::Ready(result),
        ),
        awaited(
            transition(State::Handshaking(handshake), AcceptEvent::HandshakeFinished(result)).0,
        ) == Awaited::Transport,
{
}

/// A listening listener takes the next connection, whatever came before: a
/// handshake that finished, one that failed, or one that was abandoned.
pub proof fn lemma_listening_accepts<H, C, E>(handshake: H)
    ensures
        transition(State::<H>::Listening, AcceptEvent::<H, C, E>::Connected(handshake)) == (
            State::Handshaking(handshake),
            AcceptStep::<H, C, E>::PollHandshake,
        ),
{
}

/// A transport failure is handed to the caller as it is, and the listener
/// does not move.
pub proof fn lemma_transport_failure_keeps_state<H, C, E>(error: E)
    ensures
        transition(State::<H>::Listening, AcceptEvent::<H, C, E>::TransportFailed(error)) == (
            State::<H>::Listening,
            AcceptStep::<H, C, E>::Ready(Err(error)),
        ),
{
}

/// While a handshake is in flight nothing but its own resolution ends it: no
/// other event starts a second handshake or drops the first.
pub proof fn lemma_one_handshake_in_flight<H, C, E>(handshake: H, event: AcceptEvent<H, C, E>)
    requires
        !(event is HandshakeFinished),
    ensures
        transition(State::Handshaking(handshake), event).0 == State::Handshaking(handshake),
{
}

/// An event is refused exactly when it does not report on the operation that
/// the listener waits on; it then comes back as it was, and the listener does
/// not move.
pub proof fn lemma_unexpected_events<H, C, E>(state: State<H>, event: AcceptEvent<H, C, E>)
    ensures
        transition(state, event).1 is Unexpected <==> !reports_on(event, awaited(state)),
        !reports_on(event, awaited(state)) ==> transition(state, event) == (
            state,
            AcceptStep::Unexpected(event),
        ),
{
}

/// A listener suspends without moving: "not ready" from either operation
/// leaves the state as it was.
pub proof fn lemma_suspension_keeps_state<H, C, E>(state: State<H>, event: AcceptEvent<H, C, E>)
    requires
        transition(state, event).1 is Suspend,
    ensures
        transition(state, event).0 == state,
{
}

/// A certificate chain that does not parse, or holds no certificate, never
/// yields a listener: binding fails on it with `MalformedCertificate`,
/// whatever the rest of the configuration holds.
pub proof fn lemma_malformed_chain_never_binds(c: Config<Vec<u8>>)
    requires
        chain_outcome(pem_sections(c.cert_chain@)) is Err,
    ensures
        bind_outcome(c) is Err,
        bind_outcome(c)->Err_0 is MalformedCertificate,
{
}

/// Every listener that binding yields has a session that obeys the policy:
/// the client-authentication mode follows from the presence of a CA bundle
/// and the "mandatory" flag, so that client certificates are requested
/// exactly when there are trust anchors; the resumption cache holds 1024
/// sessions; the protocols offered are `h2` and then `http/1.1`; session
/// tickets are on.
pub proof fn lemma_bound_session_policy(c: Config<Vec<u8>>)
    requires
        bind_outcome(c) is Ok,
    ensures
        bind_outcome(c)->Ok_0.client_auth == resolved_mode(c.ca_certs.is_some(), c.mandatory_mtls),
        bind_outcome(c)->Ok_0.session_cache_capacity == 1024,
        bind_outcome(c)->Ok_0.alpn_protocols == alpn_preference(),
        bind_outcome(c)->Ok_0.prefer_server_order == c.prefer_server_order,
        bind_outcome(c)->Ok_0.session_tickets,
        bind_outcome(c)->Ok_0.well_formed(),
{
}

} // verus!
