use bigtable_rs::config::Config;
use bigtable_rs::endpoint::{
    adapt_endpoints, configure_endpoint, emulator_channel, is_emulator_address, secured,
    service_endpoints, ChannelPlan,
};
use bigtable_rs::error::Error;
use hyper_util::rt::TokioIo;
use std::future::Future;
use std::sync::{Arc, Mutex};
use std::time::Duration;
use tokio::io::{AsyncReadExt, DuplexStream};
use tokio::time::{timeout, Instant};
use tonic::body::Body;
use tonic::codegen::http::{Request, Uri};
use tonic::transport::{Certificate, Channel, ClientTlsConfig, Endpoint};
use tower::{Service, ServiceExt};

const PEM: &str = "-----BEGIN CERTIFICATE-----\nAAAA\n-----END CERTIFICATE-----\n";
const PREFACE: usize = 24;
const HEADERS: u8 = 1;
const PING: u8 = 6;

fn run<T>(test: impl Future<Output = T>) -> T {
    tokio::runtime::Builder::new_current_thread()
        .enable_time()
        .start_paused(true)
        .build()
        .unwrap()
        .block_on(test)
}

/// A channel to an in-memory peer, and the peer's end once the channel has connected.
fn connect(endpoint: &Endpoint) -> (Channel, Arc<Mutex<Option<DuplexStream>>>) {
    let peer = Arc::new(Mutex::new(None));
    let slot = peer.clone();
    let connector = tower::service_fn(move |_: Uri| {
        let slot = slot.clone();
        async move {
            let (ours, theirs) = tokio::io::duplex(1 << 16);
            *slot.lock().unwrap() = Some(theirs);
            Ok::<_, std::io::Error>(TokioIo::new(ours))
        }
    });
    (endpoint.connect_with_connector_lazy(connector), peer)
}

fn send(mut channel: Channel) -> tokio::task::JoinHandle<Result<(), tonic::transport::Error>> {
    tokio::spawn(async move {
        let request = Request::builder().uri("/test").body(Body::empty()).unwrap();
        channel.ready().await?.call(request).await.map(|_| ())
    })
}

async fn connected_peer(peer: &Arc<Mutex<Option<DuplexStream>>>) -> DuplexStream {
    loop {
        let stream = peer.lock().unwrap().take();
        if let Some(stream) = stream {
            return stream;
        }
        tokio::task::yield_now().await;
    }
}

/// Reads HTTP/2 frames until one of the wanted type comes.
async fn wait_for_frame(peer: &mut DuplexStream, wanted: u8) {
    loop {
        let mut header = [0u8; 9];
        peer.read_exact(&mut header).await.unwrap();
        let len = u32::from_be_bytes([0, header[0], header[1], header[2]]) as usize;
        let mut payload = vec![0u8; len];
        peer.read_exact(&mut payload).await.unwrap();
        if header[3] == wanted {
            return;
        }
    }
}

async fn skip_preface(peer: &mut DuplexStream) {
    let mut preface = [0u8; PREFACE];
    peer.read_exact(&mut preface).await.unwrap();
    assert!(preface.starts_with(b"PRI * HTTP/2.0"));
}

fn plain() -> Endpoint {
    Endpoint::from_static("http://peer")
}

#[test]
fn a_configured_endpoint_pings_every_minute_while_idle() {
    run(async {
        let (channel, peer) = connect(&configure_endpoint(plain(), None));
        let call = send(channel.clone());
        let mut peer = connected_peer(&peer).await;
        skip_preface(&mut peer).await;
        wait_for_frame(&mut peer, HEADERS).await;
        call.abort();
        let begin = Instant::now();
        timeout(Duration::from_secs(300), wait_for_frame(&mut peer, PING)).await.unwrap();
        let waited = begin.elapsed();
        assert!(waited >= Duration::from_secs(59), "{:?}", waited);
        assert!(waited <= Duration::from_secs(61), "{:?}", waited);
        drop(channel);
    });
}

#[test]
fn an_unconfigured_endpoint_does_not_ping() {
    run(async {
        let (channel, peer) = connect(&plain());
        let call = send(channel.clone());
        let mut peer = connected_peer(&peer).await;
        skip_preface(&mut peer).await;
        wait_for_frame(&mut peer, HEADERS).await;
        call.abort();
        assert!(timeout(Duration::from_secs(300), wait_for_frame(&mut peer, PING)).await.is_err());
        drop(channel);
    });
}

#[test]
fn a_request_is_given_up_after_the_timeout() {
    run(async {
        let limit = Duration::from_millis(700);
        let (channel, peer) = connect(&configure_endpoint(plain(), Some(limit)));
        let begin = Instant::now();
        let call = send(channel);
        let _peer = connected_peer(&peer).await;
        let reply = timeout(Duration::from_secs(300), call).await.unwrap().unwrap();
        assert!(reply.is_err());
        assert!(begin.elapsed() >= limit);
        assert!(begin.elapsed() < Duration::from_secs(2));
    });
}

#[test]
fn without_a_timeout_the_endpoint_keeps_its_own() {
    run(async {
        let own = plain().timeout(Duration::from_secs(5));
        let (channel, peer) = connect(&configure_endpoint(own, None));
        let begin = Instant::now();
        let call = send(channel);
        let _peer = connected_peer(&peer).await;
        assert!(timeout(Duration::from_secs(300), call).await.unwrap().unwrap().is_err());
        assert!(begin.elapsed() >= Duration::from_secs(5));
        assert!(begin.elapsed() < Duration::from_secs(7));
    });
}

#[test]
fn emulator_addresses_are_recognised() {
    assert!(is_emulator_address("localhost:8086"));
    assert!(is_emulator_address("[::1]:8086"));
    assert!(is_emulator_address("unix:///tmp/any path"));
    assert!(!is_emulator_address("any path"));
    assert!(!is_emulator_address(""));
}

#[test]
fn an_emulator_endpoint_is_configured() {
    run(async {
        let limit = Duration::from_secs(4);
        let ChannelPlan::Single(endpoint) = emulator_channel("localhost:8086", Some(limit)) else {
            panic!("not a single endpoint");
        };
        let (channel, peer) = connect(&endpoint);
        let begin = Instant::now();
        let call = send(channel);
        let _peer = connected_peer(&peer).await;
        assert!(timeout(Duration::from_secs(300), call).await.unwrap().unwrap().is_err());
        assert!(begin.elapsed() >= limit);
        assert!(begin.elapsed() < Duration::from_secs(6));
    });
}

fn service_endpoint(concurrency_limit: usize) -> Endpoint {
    let config: Config<u8, fn(Endpoint) -> Endpoint, u8> =
        Config { concurrency_limit, ..Config::default() };
    service_endpoints(&config, &PEM.as_bytes().to_vec()).unwrap().remove(0)
}

#[test]
fn a_service_endpoint_opens_tls_for_the_service() {
    run(async {
        let (channel, peer) = connect(&service_endpoint(1));
        let call = send(channel);
        let mut peer = connected_peer(&peer).await;
        let mut hello = vec![0u8; 4096];
        let len = peer.read(&mut hello).await.unwrap();
        hello.truncate(len);
        assert_eq!(hello[0], 0x16);
        let name = b"bigtable.googleapis.com";
        assert!(hello.windows(name.len()).any(|window| window == name));
        call.abort();
    });
}

#[test]
fn what_the_tls_setup_returned_is_handed_on() {
    let broken = "-----BEGIN CERTIFICATE-----\n!!!!\n-----END CERTIFICATE-----\n";
    let refused = || {
        let tls = ClientTlsConfig::new().ca_certificate(Certificate::from_pem(broken));
        Channel::from_static("https://elsewhere").tls_config(tls)
    };
    let failure = format!("{:?}", refused().unwrap_err());
    match secured(refused()) {
        Err(Error::TransportError(reported)) => assert_eq!(format!("{:?}", reported), failure),
        _ => panic!("no transport error"),
    }
    let endpoint = secured(Ok(Channel::from_static("https://elsewhere"))).unwrap();
    assert_eq!(endpoint.uri().to_string(), "https://elsewhere/");
}

#[test]
fn a_service_endpoint_limits_the_open_requests() {
    run(async {
        let (channel, peer) = connect(&service_endpoint(0));
        let call = send(channel);
        tokio::time::sleep(Duration::from_secs(1)).await;
        assert!(peer.lock().unwrap().is_none());
        call.abort();
    });
}

#[test]
fn an_adapter_sees_configured_endpoints() {
    fn slower(endpoint: Endpoint) -> Endpoint {
        assert_eq!(endpoint.uri().to_string(), "http://peer/");
        endpoint.connect_timeout(Duration::from_secs(9))
    }
    run(async {
        let config: Config<u8, fn(Endpoint) -> Endpoint, u8> = Config {
            timeout: Some(Duration::from_secs(2)),
            endpoint_cb: Some(slower),
            ..Config::default()
        };
        let endpoints = adapt_endpoints(vec![plain(), plain()], &config);
        assert_eq!(endpoints.len(), 2);
        for endpoint in endpoints {
            assert_eq!(endpoint.get_connect_timeout(), Some(Duration::from_secs(9)));
            let (channel, peer) = connect(&endpoint);
            let begin = Instant::now();
            let call = send(channel);
            let _peer = connected_peer(&peer).await;
            assert!(timeout(Duration::from_secs(300), call).await.unwrap().unwrap().is_err());
            assert!(begin.elapsed() >= Duration::from_secs(2));
            assert!(begin.elapsed() < Duration::from_secs(4));
        }
    });
}
