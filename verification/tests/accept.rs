use std::collections::VecDeque;
use std::future::Future;
use std::io;
use std::pin::Pin;
use std::sync::{Arc, Mutex};
use std::task::{Context, Poll, Wake, Waker};

use rcgen::{
    BasicConstraints, CertificateParams, DnType, ExtendedKeyUsagePurpose, IsCa, KeyPair,
    KeyUsagePurpose,
};
use tls_listener::credentials::{load_certs, load_private_key};
use tls_listener::listener::{AcceptEvent, AcceptStep, Awaited, Config, TlsListener};
use tokio::io::{AsyncRead, AsyncWrite, ReadBuf};
use tokio_rustls::rustls::{
    Certificate, ClientConfig, PrivateKey, RootCertStore, ServerName, SupportedCipherSuite,
    ALL_CIPHER_SUITES,
};
use tokio_rustls::server::TlsStream;
use tokio_rustls::{Accept, Connect, TlsConnector};


/// A certificate authority, and a server and a client certified by it, made
/// for one test. Certificates and keys are PEM text.
struct World {
    ca: String,
    server: (String, String),
    client: (String, String),
}

fn authority() -> (rcgen::Certificate, KeyPair) {
    let key = KeyPair::generate().unwrap();
    let mut params = CertificateParams::new(Vec::<String>::new()).unwrap();
    params.is_ca = IsCa::Ca(BasicConstraints::Unconstrained);
    params.distinguished_name.push(DnType::CommonName, "Test Root CA");
    params.key_usages = vec![KeyUsagePurpose::KeyCertSign, KeyUsagePurpose::DigitalSignature];
    let certificate = params.self_signed(&key).unwrap();
    (certificate, key)
}

fn issue(
    authority: &(rcgen::Certificate, KeyPair),
    name: &str,
    usage: ExtendedKeyUsagePurpose,
) -> (String, String) {
    let key = KeyPair::generate().unwrap();
    let mut params = CertificateParams::new(vec![name.to_string()]).unwrap();
    params.distinguished_name.push(DnType::CommonName, name);
    params.extended_key_usages = vec![usage];
    let certificate = params.signed_by(&key, &authority.0, &authority.1).unwrap();
    (certificate.pem(), key.serialize_pem())
}

fn world() -> World {
    let authority = authority();
    World {
        ca: authority.0.pem(),
        server: issue(&authority, "localhost", ExtendedKeyUsagePurpose::ServerAuth),
        client: issue(&authority, "client.test", ExtendedKeyUsagePurpose::ClientAuth),
    }
}

type Queue = Arc<Mutex<VecDeque<u8>>>;

/// One end of a connection held in memory.
struct Pipe {
    incoming: Queue,
    outgoing: Queue,
}

fn connection() -> (Pipe, Pipe) {
    let up: Queue = Arc::new(Mutex::new(VecDeque::new()));
    let down: Queue = Arc::new(Mutex::new(VecDeque::new()));
    (Pipe { incoming: up.clone(), outgoing: down.clone() }, Pipe { incoming: down, outgoing: up })
}

impl AsyncRead for Pipe {
    fn poll_read(
        self: Pin<&mut Self>,
        _cx: &mut Context<'_>,
        buf: &mut ReadBuf<'_>,
    ) -> Poll<io::Result<()>> {
        let mut queue = self.incoming.lock().unwrap();
        if queue.is_empty() {
            return Poll::Pending;
        }
        while buf.remaining() > 0 {
            match queue.pop_front() {
                Some(byte) => buf.put_slice(&[byte]),
                None => break,
            }
        }
        Poll::Ready(Ok(()))
    }
}

impl AsyncWrite for Pipe {
    fn poll_write(
        self: Pin<&mut Self>,
        _cx: &mut Context<'_>,
        buf: &[u8],
    ) -> Poll<io::Result<usize>> {
        self.outgoing.lock().unwrap().extend(buf.iter().copied());
        Poll::Ready(Ok(buf.len()))
    }

    fn poll_flush(self: Pin<&mut Self>, _cx: &mut Context<'_>) -> Poll<io::Result<()>> {
        Poll::Ready(Ok(()))
    }

    fn poll_shutdown(self: Pin<&mut Self>, _cx: &mut Context<'_>) -> Poll<io::Result<()>> {
        Poll::Ready(Ok(()))
    }
}

struct Idle;

impl Wake for Idle {
    fn wake(self: Arc<Self>) {}
}

type Listener = TlsListener<Accept<Pipe>>;
type Step = AcceptStep<Accept<Pipe>, TlsStream<Pipe>, io::Error>;

fn listener(world: &World, ca: Option<&str>, mandatory: bool) -> Listener {
    let suites: Vec<&'static SupportedCipherSuite> = ALL_CIPHER_SUITES.iter().collect();
    let bound = TlsListener::bind(Config {
        cert_chain: world.server.0.as_bytes().to_vec(),
        private_key: world.server.1.as_bytes().to_vec(),
        ciphersuites: suites,
        prefer_server_order: false,
        ca_certs: ca.map(|text| text.as_bytes().to_vec()),
        mandatory_mtls: mandatory,
    });
    match bound {
        Ok(listener) => listener,
        Err(e) => panic!("no listener: {:?}", e),
    }
}

fn connect(world: &World, pipe: Pipe, with_certificate: bool) -> Connect<Pipe> {
    let mut roots = RootCertStore::empty();
    for der in load_certs(world.ca.as_bytes()).unwrap() {
        roots.add(&Certificate(der)).unwrap();
    }
    let builder = ClientConfig::builder().with_safe_defaults().with_root_certificates(roots);
    let config = if with_certificate {
        let chain: Vec<Certificate> =
            load_certs(world.client.0.as_bytes()).unwrap().into_iter().map(Certificate).collect();
        let key = PrivateKey(load_private_key(world.client.1.as_bytes()).unwrap());
        builder.with_single_cert(chain, key).unwrap()
    } else {
        builder.with_no_client_auth()
    };
    let name = ServerName::try_from("localhost").unwrap();
    TlsConnector::from(Arc::new(config)).connect(name, pipe)
}

/// Polls the operation that the listener waits on, once, and hands it the
/// event. `arriving` is the raw connection that the transport has ready.
fn poll_once(listener: &mut Listener, arriving: &mut Option<Pipe>, cx: &mut Context<'_>) -> Step {
    let event = match listener.awaits() {
        Awaited::Transport => match arriving.take() {
            Some(pipe) => AcceptEvent::Connected(listener.acceptor().accept(pipe)),
            None => AcceptEvent::TransportPending,
        },
        Awaited::Handshake => match Pin::new(listener.handshake_mut().unwrap()).poll(cx) {
            Poll::Pending => AcceptEvent::HandshakePending,
            Poll::Ready(result) => AcceptEvent::HandshakeFinished(result),
        },
    };
    listener.poll_accept(event)
}

/// Accepts one connection from a client, and gives what the listener yields.
fn accept(
    world: &World,
    listener: &mut Listener,
    with_certificate: bool,
) -> io::Result<TlsStream<Pipe>> {
    let waker = Waker::from(Arc::new(Idle));
    let mut cx = Context::from_waker(&waker);
    let (server_end, client_end) = connection();
    let mut arriving = Some(server_end);
    let mut client = Some(connect(world, client_end, with_certificate));
    let mut streams = Vec::new();
    for _ in 0..1000 {
        if let Some(connecting) = client.as_mut() {
            if let Poll::Ready(result) = Pin::new(connecting).poll(&mut cx) {
                client = None;
                streams.push(result);
            }
        }
        match poll_once(listener, &mut arriving, &mut cx) {
            AcceptStep::Ready(result) => return result,
            AcceptStep::Suspend | AcceptStep::PollHandshake => {}
            AcceptStep::Unexpected(_) => panic!("an event out of turn"),
        }
    }
    panic!("the handshake did not settle");
}

fn peer_certificates(stream: &TlsStream<Pipe>) -> Option<Vec<Vec<u8>>> {
    Some(stream.get_ref().1.peer_certificates()?.iter().map(|c| c.0.clone()).collect())
}

#[test]
fn the_listener_yields_a_negotiated_connection() {
    let world = world();
    let mut listener = listener(&world, None, false);
    let stream = accept(&world, &mut listener, false).unwrap();
    assert_eq!(peer_certificates(&stream), None);
    assert_eq!(stream.get_ref().1.alpn_protocol(), None);
    assert_eq!(listener.awaits(), Awaited::Transport);
}

#[test]
fn nothing_arriving_suspends_the_listener() {
    let world = world();
    let waker = Waker::from(Arc::new(Idle));
    let mut cx = Context::from_waker(&waker);
    let mut listener = listener(&world, None, false);
    let step = poll_once(&mut listener, &mut None, &mut cx);
    assert!(matches!(step, AcceptStep::Suspend));
    assert_eq!(listener.awaits(), Awaited::Transport);
}

#[test]
fn a_silent_client_suspends_the_handshake() {
    let world = world();
    let waker = Waker::from(Arc::new(Idle));
    let mut cx = Context::from_waker(&waker);
    let mut listener = listener(&world, None, false);
    let (server_end, _client_end) = connection();
    let step = poll_once(&mut listener, &mut Some(server_end), &mut cx);
    assert!(matches!(step, AcceptStep::PollHandshake));
    for _ in 0..3 {
        let step = poll_once(&mut listener, &mut None, &mut cx);
        assert!(matches!(step, AcceptStep::Suspend));
        assert_eq!(listener.awaits(), Awaited::Handshake);
    }
}

#[test]
fn a_rejected_client_costs_one_connection_not_the_listener() {
    let world = world();
    let mut listener = listener(&world, Some(&world.ca), true);
    let refused = accept(&world, &mut listener, false);
    assert!(refused.is_err());
    assert_eq!(listener.awaits(), Awaited::Transport);
    let stream = accept(&world, &mut listener, true).unwrap();
    assert_eq!(peer_certificates(&stream), Some(load_certs(world.client.0.as_bytes()).unwrap()));
    assert_eq!(listener.awaits(), Awaited::Transport);
}

#[test]
fn an_anonymous_client_is_accepted_when_certificates_are_optional() {
    let world = world();
    let mut listener = listener(&world, Some(&world.ca), false);
    let stream = accept(&world, &mut listener, false).unwrap();
    assert_eq!(peer_certificates(&stream), None);
    let stream = accept(&world, &mut listener, true).unwrap();
    assert_eq!(peer_certificates(&stream), Some(load_certs(world.client.0.as_bytes()).unwrap()));
}

#[test]
fn abandoned_handshakes_release_their_connections() {
    let world = world();
    let waker = Waker::from(Arc::new(Idle));
    let mut cx = Context::from_waker(&waker);
    let mut listener = listener(&world, None, false);
    for _ in 0..200 {
        let (server_end, client_end) = connection();
        let held = client_end.incoming.clone();
        assert_eq!(Arc::strong_count(&held), 3);
        let step = poll_once(&mut listener, &mut Some(server_end), &mut cx);
        assert!(matches!(step, AcceptStep::PollHandshake));
        let step = poll_once(&mut listener, &mut None, &mut cx);
        assert!(matches!(step, AcceptStep::Suspend));
        assert_eq!(Arc::strong_count(&held), 3);
        drop(listener.abandon());
        assert_eq!(Arc::strong_count(&held), 2);
        assert_eq!(listener.awaits(), Awaited::Transport);
    }
    let stream = accept(&world, &mut listener, false).unwrap();
    assert_eq!(peer_certificates(&stream), None);
}
