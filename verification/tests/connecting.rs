use bigtable_rs::config::{ClientType, Config};
use bigtable_rs::connect::{Answer, Connecting, ConnectionPlan, Question};
use bigtable_rs::endpoint::ChannelPlan;
use bigtable_rs::error::Error;
use bigtable_rs::table::BigTableConnection;
use std::sync::atomic::{AtomicUsize, Ordering};
use std::time::Duration;
use tonic::transport::{Certificate, Channel, ClientTlsConfig, Endpoint};
use tower::layer::util::Identity;
use tower::ServiceBuilder;

type EndpointAdapter = fn(Endpoint) -> Endpoint;
type ServiceAdapter = fn(ServiceBuilder<Identity>) -> ServiceBuilder<Identity>;
type Dialogue = Connecting<&'static str, EndpointAdapter, ServiceAdapter>;
type Plan = ConnectionPlan<&'static str, ServiceAdapter>;

const PEM: &str = "-----BEGIN CERTIFICATE-----\nAAAA\n-----END CERTIFICATE-----\n";
const BROKEN_PEM: &str = "-----BEGIN CERTIFICATE-----\n!!!!\n-----END CERTIFICATE-----\n";

fn host(name: &str) -> Answer<&'static str> {
    Answer::EmulatorHost(Some(name.to_string()))
}

fn no_host() -> Answer<&'static str> {
    Answer::EmulatorHost(None)
}

fn certificate(pem: &str) -> Answer<&'static str> {
    Answer::RootCertificate(pem.as_bytes().to_vec())
}

fn no_provider() -> Answer<&'static str> {
    Answer::TokenProvider(Err(gcp_auth::Error::Io("no credentials", std::io::Error::other("x"))))
}

fn begun(channel_size: usize, timeout: Option<Duration>) -> Dialogue {
    BigTableConnection::new("p", "i", None, channel_size, timeout)
}

fn configured(config: Config<&'static str, EndpointAdapter, ServiceAdapter>) -> Dialogue {
    BigTableConnection::from_config("p", "i", ClientType::Admin, config)
}

fn plan(dialogue: Dialogue) -> Plan {
    assert_eq!(dialogue.question(), None);
    match dialogue {
        Connecting::Planned(plan) => plan,
        _ => panic!("no plan"),
    }
}

fn balanced(channel: ChannelPlan) -> Vec<Endpoint> {
    match channel {
        ChannelPlan::Balanced(endpoints) => endpoints,
        _ => panic!("not balanced"),
    }
}

#[test]
fn an_emulator_is_asked_for_first() {
    assert_eq!(begun(4, None).question(), Some(Question::EmulatorHost));
    let dialogue: Dialogue =
        BigTableConnection::new_with_token_provider("p", "i", ClientType::Admin, 1, None, "given");
    assert_eq!(dialogue.question(), Some(Question::EmulatorHost));
    assert_eq!(configured(Config::default()).question(), Some(Question::EmulatorHost));
}

#[test]
fn an_emulator_host_is_connected_to_over_http() {
    let plan = plan(begun(4, Some(Duration::from_secs(10))).answer(host("localhost:8086")));
    let ChannelPlan::Single(endpoint) = plan.channel else {
        panic!("not a single endpoint");
    };
    assert_eq!(endpoint.uri().to_string(), "http://localhost:8086/");
    assert_eq!(plan.token_provider, None);
    assert_eq!(plan.client_type, ClientType::ReadWrite);
    assert!(plan.tonic_cb.is_none());
    assert_eq!(plan.table_prefix, "projects/p/instances/i/tables/");
    assert_eq!(plan.timeout, Some(Duration::from_secs(10)));
}

#[test]
fn an_emulator_socket_is_connected_to_by_its_path() {
    let plan = plan(begun(4, None).answer(host("unix:///path/to/unix.sock")));
    let ChannelPlan::Socket { path, endpoint } = plan.channel else {
        panic!("not a socket");
    };
    assert_eq!(path, "/path/to/unix.sock");
    assert_eq!(endpoint.uri().to_string(), "http://[::]:50051/");
}

#[test]
fn an_emulator_wins_over_a_configuration() {
    fn service(builder: ServiceBuilder<Identity>) -> ServiceBuilder<Identity> {
        builder
    }
    let config = Config {
        max_grpc_connections: 8,
        timeout: Some(Duration::from_secs(3)),
        token_provider: Some("given"),
        tonic_cb: Some(service as ServiceAdapter),
        ..Config::default()
    };
    let plan = plan(configured(config).answer(host("localhost:8086")));
    assert!(matches!(plan.channel, ChannelPlan::Single(_)));
    assert_eq!(plan.token_provider, None);
    assert!(plan.tonic_cb.is_none());
    assert_eq!(plan.client_type, ClientType::Admin);
    assert_eq!(plan.timeout, Some(Duration::from_secs(3)));
}

#[test]
fn an_emulator_host_that_is_no_address_ends_the_dialogue() {
    let dialogue = begun(1, None).answer(host("not a host"));
    assert!(matches!(dialogue, Connecting::InvalidEmulatorAddress));
    assert_eq!(dialogue.question(), None);
}

#[test]
fn an_emulator_can_be_planned_for_directly() {
    let plan: Plan =
        BigTableConnection::new_with_emulator("localhost:1", "p", "i", ClientType::ReadOnly, None);
    assert!(matches!(plan.channel, ChannelPlan::Single(_)));
    assert_eq!(plan.client_type, ClientType::ReadOnly);
    assert_eq!(plan.table_prefix, "projects/p/instances/i/tables/");
    let tried: Option<Plan> =
        BigTableConnection::try_new_with_emulator("unix://", "p", "i", ClientType::ReadOnly, None);
    assert!(matches!(tried.unwrap().channel, ChannelPlan::Socket { path, .. } if path.is_empty()));
    let tried: Option<Plan> =
        BigTableConnection::try_new_with_emulator("a b", "p", "i", ClientType::ReadOnly, None);
    assert!(tried.is_none());
}

#[test]
fn without_an_emulator_a_new_connection_goes_to_the_service() {
    let timeout = Some(Duration::from_secs(10));
    let dialogue = begun(3, timeout).answer(no_host());
    assert_eq!(dialogue.question(), Some(Question::TokenProvider));
    let dialogue = dialogue.answer(Answer::TokenProvider(Ok("found")));
    assert_eq!(dialogue.question(), Some(Question::EmulatorHost));
    let dialogue = dialogue.answer(no_host());
    assert_eq!(dialogue.question(), Some(Question::RootCertificate));
    let plan = plan(dialogue.answer(certificate(PEM)));
    let endpoints = balanced(plan.channel);
    assert_eq!(endpoints.len(), 3);
    for endpoint in endpoints {
        assert_eq!(endpoint.uri().to_string(), "https://bigtable.googleapis.com/");
    }
    assert_eq!(plan.token_provider, Some("found"));
    assert_eq!(plan.client_type, ClientType::ReadWrite);
    assert!(plan.tonic_cb.is_none());
    assert_eq!(plan.table_prefix, "projects/p/instances/i/tables/");
    assert_eq!(plan.timeout, timeout);
}

#[test]
fn an_emulator_that_appears_later_is_still_respected() {
    let dialogue = begun(3, None)
        .answer(no_host())
        .answer(Answer::TokenProvider(Ok("found")))
        .answer(host("localhost:8086"));
    assert_eq!(plan(dialogue).token_provider, None);
}

#[test]
fn a_given_token_provider_is_used() {
    let dialogue: Dialogue =
        BigTableConnection::new_with_token_provider("p", "i", ClientType::ReadOnly, 2, None, "given");
    let plan = plan(dialogue.answer(no_host()).answer(certificate(PEM)));
    assert_eq!(plan.token_provider, Some("given"));
    assert_eq!(plan.client_type, ClientType::ReadOnly);
    assert_eq!(balanced(plan.channel).len(), 2);
}

#[test]
fn a_configuration_without_a_provider_asks_for_one_last() {
    let dialogue = configured(Config::default()).answer(no_host()).answer(certificate(PEM));
    assert_eq!(dialogue.question(), Some(Question::TokenProvider));
    let plan = plan(dialogue.answer(Answer::TokenProvider(Ok("found"))));
    assert_eq!(plan.token_provider, Some("found"));
    assert_eq!(balanced(plan.channel).len(), 1);
}

#[test]
fn there_is_at_least_one_connection() {
    let config = Config { max_grpc_connections: 0, token_provider: Some("given"), ..Config::default() };
    let plan = plan(configured(config).answer(no_host()).answer(certificate(PEM)));
    assert_eq!(balanced(plan.channel).len(), 1);
}

#[test]
fn the_endpoint_adapter_is_applied_to_every_endpoint() {
    static CALLS: AtomicUsize = AtomicUsize::new(0);
    fn elsewhere(endpoint: Endpoint) -> Endpoint {
        assert_eq!(endpoint.uri().to_string(), "https://bigtable.googleapis.com/");
        CALLS.fetch_add(1, Ordering::SeqCst);
        Endpoint::from_static("http://elsewhere")
    }
    let config = Config {
        max_grpc_connections: 4,
        token_provider: Some("given"),
        endpoint_cb: Some(elsewhere as EndpointAdapter),
        ..Config::default()
    };
    let plan = plan(configured(config).answer(no_host()).answer(certificate(PEM)));
    assert_eq!(CALLS.load(Ordering::SeqCst), 4);
    for endpoint in balanced(plan.channel) {
        assert_eq!(endpoint.uri().to_string(), "http://elsewhere/");
    }
}

#[test]
fn the_service_adapter_reaches_the_plan() {
    fn service(builder: ServiceBuilder<Identity>) -> ServiceBuilder<Identity> {
        builder
    }
    let config = Config {
        token_provider: Some("given"),
        tonic_cb: Some(service as ServiceAdapter),
        ..Config::default()
    };
    let plan = plan(configured(config).answer(no_host()).answer(certificate(PEM)));
    assert!(plan.tonic_cb.is_some());
}

#[test]
fn a_broken_root_certificate_is_a_transport_error() {
    let dialogue = configured(Config::default()).answer(no_host()).answer(certificate(BROKEN_PEM));
    assert_eq!(dialogue.question(), None);
    assert!(matches!(dialogue, Connecting::Failed(Error::TransportError(_))));
}

#[test]
fn the_failure_of_the_tls_setup_is_handed_on() {
    let failure = Channel::from_static("https://bigtable.googleapis.com")
        .tls_config(
            ClientTlsConfig::new()
                .ca_certificate(Certificate::from_pem(BROKEN_PEM))
                .domain_name("bigtable.googleapis.com"),
        )
        .unwrap_err();
    let dialogue = configured(Config::default())
        .answer(no_host())
        .answer(certificate(BROKEN_PEM))
        .answer(no_provider());
    match dialogue {
        Connecting::Failed(Error::TransportError(reported)) => {
            assert_eq!(format!("{:?}", reported), format!("{:?}", failure));
        }
        _ => panic!("no transport error"),
    }
}

#[test]
fn a_plan_settles_what_the_client_is_built_with() {
    let config = Config {
        token_provider: Some("given"),
        timeout: Some(Duration::from_secs(7)),
        max_grpc_connections: 3,
        ..Config::default()
    };
    let plan = plan(configured(config).answer(no_host()).answer(certificate(PEM)));
    let client = plan.client_settings();
    assert_eq!(balanced(client.channel).len(), 3);
    assert_eq!(client.settings.token_provider, Some("given"));
    assert_eq!(client.settings.scopes, ClientType::Admin.scopes());
    assert_eq!(client.settings.max_decoding_message_size, 67108864);
    assert_eq!(client.settings.max_encoding_message_size, 67108864);
    assert_eq!(client.table_prefix, "projects/p/instances/i/tables/");
    assert_eq!(client.timeout, Some(Duration::from_secs(7)));
}

#[test]
fn the_service_adapter_is_applied_when_the_client_is_settled() {
    static CALLS: AtomicUsize = AtomicUsize::new(0);
    fn service(builder: ServiceBuilder<Identity>) -> ServiceBuilder<Identity> {
        CALLS.fetch_add(1, Ordering::SeqCst);
        builder
    }
    let config = Config {
        token_provider: Some("given"),
        tonic_cb: Some(service as ServiceAdapter),
        ..Config::default()
    };
    let plan = plan(configured(config).answer(no_host()).answer(certificate(PEM)));
    assert_eq!(CALLS.load(Ordering::SeqCst), 0);
    let client = plan.client_settings();
    assert_eq!(CALLS.load(Ordering::SeqCst), 1);
    assert_eq!(client.settings.token_provider, Some("given"));
}

#[test]
fn the_client_of_an_emulator_carries_no_token() {
    let config = Config { token_provider: Some("given"), ..Config::default() };
    let client = plan(configured(config).answer(host("localhost:8086"))).client_settings();
    assert_eq!(client.settings.token_provider, None);
    assert!(matches!(client.channel, ChannelPlan::Single(_)));
    assert_eq!(client.table_prefix, "projects/p/instances/i/tables/");
}

#[test]
fn a_missing_token_provider_is_an_auth_error() {
    let dialogue = begun(1, None).answer(no_host()).answer(no_provider());
    assert!(matches!(dialogue, Connecting::Failed(Error::GCPAuthError(_))));
    let dialogue = configured(Config::default())
        .answer(no_host())
        .answer(certificate(PEM))
        .answer(no_provider());
    assert!(matches!(dialogue, Connecting::Failed(Error::GCPAuthError(_))));
}

#[test]
fn an_answer_to_another_question_changes_nothing() {
    let dialogue = begun(1, None).answer(certificate(PEM)).answer(no_provider());
    assert_eq!(dialogue.question(), Some(Question::EmulatorHost));
    let dialogue = dialogue.answer(host("localhost:8086")).answer(no_provider());
    assert_eq!(plan(dialogue).table_prefix, "projects/p/instances/i/tables/");
}
