use bigtable_rs::client::{create_client, MAX_MESSAGE_SIZE};
use bigtable_rs::config::{ClientType, Config};
use std::cell::Cell;
use tower::layer::util::Identity;
use tower::ServiceBuilder;

type Adapter = fn(ServiceBuilder<Identity>) -> ServiceBuilder<Identity>;

#[test]
fn each_client_type_asks_for_its_scope() {
    assert_eq!(
        ClientType::ReadOnly.scopes(),
        "https://www.googleapis.com/auth/bigtable.data.readonly"
    );
    assert_eq!(ClientType::ReadWrite.scopes(), "https://www.googleapis.com/auth/bigtable.data");
    assert_eq!(ClientType::Admin.scopes(), "https://www.googleapis.com/auth/bigtable.admin");
}

#[test]
fn access_is_read_write_by_default() {
    assert_eq!(ClientType::default(), ClientType::ReadWrite);
}

#[test]
fn a_default_config_asks_for_one_connection() {
    let config: Config<u8, u8, u8> = Config::default();
    assert_eq!(config.concurrency_limit, 100);
    assert_eq!(config.timeout, None);
    assert_eq!(config.max_grpc_connections, 1);
    assert_eq!(config.token_provider, None);
    assert_eq!(config.endpoint_cb, None);
    assert_eq!(config.tonic_cb, None);
}

#[test]
fn a_client_is_built_with_its_scope_and_message_sizes() {
    let settings = create_client(Some("provider"), ClientType::Admin, None::<Adapter>);
    assert_eq!(settings.token_provider, Some("provider"));
    assert_eq!(settings.scopes, "https://www.googleapis.com/auth/bigtable.admin");
    assert_eq!(settings.max_decoding_message_size, 67108864);
    assert_eq!(settings.max_encoding_message_size, 67108864);
    assert_eq!(MAX_MESSAGE_SIZE, 67108864);
    assert_eq!(settings.builder.service("channel"), "channel");
}

#[test]
fn a_service_adapter_is_applied_once() {
    let calls = Cell::new(0);
    let settings = create_client(
        None::<u8>,
        ClientType::ReadOnly,
        Some(|builder: ServiceBuilder<Identity>| {
            calls.set(calls.get() + 1);
            builder
        }),
    );
    assert_eq!(calls.get(), 1);
    assert_eq!(settings.token_provider, None);
    assert_eq!(settings.scopes, "https://www.googleapis.com/auth/bigtable.data.readonly");
}
