//! What the operations come to when they are put together.
use crate::client::create_client;
use crate::config::{ClientType, Config};
use crate::connect::{Answer, Connecting, ConnectionPlan, PlannedClient, Question};
use crate::endpoint::{
    adapt_endpoints, configure_endpoint, emulator_channel, is_emulator_address, secured,
    service_endpoints, ChannelPlan,
};
use crate::error::{rpc_result, Error};
use crate::outside::{EndpointSettings, TlsSettings};
use crate::table::BigTableConnection;
use crate::util::get_row_range_from_prefix;
use crate::v2::{ReadRowsRequest, RowRange};
use gcp_auth::Error as AuthFailure;
use std::time::Duration;
use tonic::transport::Endpoint;
use tonic::transport::Error as TransportFailure;
use tower::layer::util::Identity;
use tower::ServiceBuilder;
use vstd::prelude::*;

verus! {

/// Without an emulator, and with a usable root certificate, a configuration leads to a plan over as
/// many endpoints as it asks for, but at least one. Each is for Bigtable's data service, verifies
/// its name, limits the open requests, is pinged every minute, idle or not, and has the timeout of
/// the configuration. Where the configuration has an endpoint callback, each endpoint of the plan
/// is itself what the callback returned for such an endpoint. Tokens come from the provider of the
/// configuration, or else from the one that was found.
pub proof fn configured_connection_reaches_the_service<P, E: Fn(Endpoint) -> Endpoint, S>(
    project_id: &str,
    instance_name: &str,
    client_type: ClientType,
    config: Config<P, E, S>,
    certificate: Vec<u8>,
    found: P,
    begun: Connecting<P, E, S>,
    uncertified: Connecting<P, E, S>,
    certified: Connecting<P, E, S>,
    planned: Connecting<P, E, S>,
)
    requires
        call_ensures(
            BigTableConnection::<()>::from_config::<P, E, S>,
            (project_id, instance_name, client_type, config),
            begun,
        ),
        call_ensures(
            Connecting::<P, E, S>::answer,
            (begun, Answer::EmulatorHost(None)),
            uncertified,
        ),
        call_ensures(
            Connecting::<P, E, S>::answer,
            (uncertified, Answer::RootCertificate(certificate)),
            certified,
        ),
        call_ensures(
            Connecting::<P, E, S>::answer,
            (certified, Answer::TokenProvider(Ok(found))),
            planned,
        ),
        crate::outside::tls_accepted(certificate@, "bigtable.googleapis.com"@),
    ensures
        planned matches Connecting::Planned(plan) && {
            &&& plan.channel matches ChannelPlan::Balanced(endpoints) && {
                &&& endpoints@.len() == if config.max_grpc_connections == 0 {
                    1
                } else {
                    config.max_grpc_connections as int
                }
                &&& match crate::outside::parsed_uri("https://bigtable.googleapis.com"@) {
                    Some(uri) => match config.endpoint_cb {
                        Some(adapter) => forall|i: int|
                            #![trigger endpoints@[i]]
                            0 <= i < endpoints@.len() ==> exists|given: Endpoint|
                                adapter.ensures((given,), endpoints@[i])
                                    && #[trigger] crate::outside::endpoint_settings(given) == (
                                EndpointSettings {
                                    address: crate::outside::Address::Uri(uri),
                                    concurrency_limit: Some(config.concurrency_limit),
                                    tls: Some(
                                        TlsSettings {
                                            ca_certificate: certificate@,
                                            domain_name: "bigtable.googleapis.com"@,
                                        },
                                    ),
                                    http2_keep_alive_interval: Some(crate::outside::duration_from_secs(60)),
                                    keep_alive_while_idle: Some(true),
                                    timeout: config.timeout,
                                }),
                        None => forall|i: int|
                            0 <= i < endpoints@.len() ==> crate::outside::endpoint_settings(
                                #[trigger] endpoints@[i],
                            ) == (EndpointSettings {
                                address: crate::outside::Address::Uri(uri),
                                concurrency_limit: Some(config.concurrency_limit),
                                tls: Some(
                                    TlsSettings {
                                        ca_certificate: certificate@,
                                        domain_name: "bigtable.googleapis.com"@,
                                    },
                                ),
                                http2_keep_alive_interval: Some(crate::outside::duration_from_secs(60)),
                                keep_alive_while_idle: Some(true),
                                timeout: config.timeout,
                            }),
                    },
                    None => false,
                }
            }
            &&& plan.token_provider == match config.token_provider {
                Some(given) => Some(given),
                None => Some(found),
            }
            &&& plan.client_type == client_type
            &&& plan.tonic_cb == config.tonic_cb
            &&& plan.table_prefix@
                == "projects/"@ + project_id@ + "/instances/"@ + instance_name@ + "/tables/"@
            &&& plan.timeout == config.timeout
        },
{
    let target = uncertified->Uncertified_target;
    let endpoints = choose|endpoints: Vec<Endpoint>|
        crate::endpoint::are_service_endpoints(endpoints@, config, certificate@)
            && #[trigger] crate::connect::is_certified(certified, target, config, endpoints);
    assert(crate::connect::is_certified(certified, target, config, endpoints));
    assert(crate::endpoint::is_adapted_service_endpoint(endpoints@[0], config, certificate@));
}

/// The endpoint callback has the last word. What it makes true of every endpoint that is ready for
/// Bigtable's data service, with the keep-alive settings and the timeout of the configuration, is
/// true of every endpoint of the plan.
pub proof fn endpoint_callback_has_the_last_word<P, E: Fn(Endpoint) -> Endpoint, S>(
    project_id: &str,
    instance_name: &str,
    client_type: ClientType,
    config: Config<P, E, S>,
    certificate: Vec<u8>,
    found: P,
    begun: Connecting<P, E, S>,
    uncertified: Connecting<P, E, S>,
    certified: Connecting<P, E, S>,
    planned: Connecting<P, E, S>,
    adapter: E,
    wanted: spec_fn(Endpoint) -> bool,
)
    requires
        call_ensures(
            BigTableConnection::<()>::from_config::<P, E, S>,
            (project_id, instance_name, client_type, config),
            begun,
        ),
        call_ensures(
            Connecting::<P, E, S>::answer,
            (begun, Answer::EmulatorHost(None)),
            uncertified,
        ),
        call_ensures(
            Connecting::<P, E, S>::answer,
            (uncertified, Answer::RootCertificate(certificate)),
            certified,
        ),
        call_ensures(
            Connecting::<P, E, S>::answer,
            (certified, Answer::TokenProvider(Ok(found))),
            planned,
        ),
        crate::outside::tls_accepted(certificate@, "bigtable.googleapis.com"@),
        config.endpoint_cb == Some(adapter),
        crate::outside::parsed_uri("https://bigtable.googleapis.com"@) matches Some(uri) ==> forall|
            given: Endpoint,
            adapted: Endpoint,
        |
            #![trigger crate::outside::endpoint_settings(given), wanted(adapted)]
            adapter.ensures((given,), adapted) && crate::outside::endpoint_settings(given) == (
            EndpointSettings {
                address: crate::outside::Address::Uri(uri),
                concurrency_limit: Some(config.concurrency_limit),
                tls: Some(
                    TlsSettings {
                        ca_certificate: certificate@,
                        domain_name: "bigtable.googleapis.com"@,
                    },
                ),
                http2_keep_alive_interval: Some(crate::outside::duration_from_secs(60)),
                keep_alive_while_idle: Some(true),
                timeout: config.timeout,
            }) ==> wanted(adapted),
    ensures
        planned matches Connecting::Planned(plan) && {
            &&& plan.channel matches ChannelPlan::Balanced(endpoints) && forall|i: int|
                0 <= i < endpoints@.len() ==> wanted(#[trigger] endpoints@[i])
        },
{
    configured_connection_reaches_the_service(
        project_id,
        instance_name,
        client_type,
        config,
        certificate,
        found,
        begun,
        uncertified,
        certified,
        planned,
    );
    let endpoints = planned->Planned_0.channel->Balanced_0;
    assert forall|i: int| 0 <= i < endpoints@.len() implies wanted(#[trigger] endpoints@[i]) by {
        let endpoint = endpoints@[i];
    }
}

/// A timeout and a keep-alive interval that the endpoint callback sets are those of every endpoint
/// of the plan, whatever the configuration says of them.
pub proof fn endpoint_callback_overrides<P, E: Fn(Endpoint) -> Endpoint, S>(
    project_id: &str,
    instance_name: &str,
    client_type: ClientType,
    config: Config<P, E, S>,
    certificate: Vec<u8>,
    found: P,
    begun: Connecting<P, E, S>,
    uncertified: Connecting<P, E, S>,
    certified: Connecting<P, E, S>,
    planned: Connecting<P, E, S>,
    adapter: E,
    timeout: Option<Duration>,
    interval: Option<Duration>,
)
    requires
        call_ensures(
            BigTableConnection::<()>::from_config::<P, E, S>,
            (project_id, instance_name, client_type, config),
            begun,
        ),
        call_ensures(
            Connecting::<P, E, S>::answer,
            (begun, Answer::EmulatorHost(None)),
            uncertified,
        ),
        call_ensures(
            Connecting::<P, E, S>::answer,
            (uncertified, Answer::RootCertificate(certificate)),
            certified,
        ),
        call_ensures(
            Connecting::<P, E, S>::answer,
            (certified, Answer::TokenProvider(Ok(found))),
            planned,
        ),
        crate::outside::tls_accepted(certificate@, "bigtable.googleapis.com"@),
        config.endpoint_cb == Some(adapter),
        forall|given: Endpoint, adapted: Endpoint| #[trigger]
            adapter.ensures((given,), adapted) ==> {
                &&& crate::outside::endpoint_settings(adapted).timeout == timeout
                &&& crate::outside::endpoint_settings(adapted).http2_keep_alive_interval == interval
            },
    ensures
        planned matches Connecting::Planned(plan) && {
            &&& plan.channel matches ChannelPlan::Balanced(endpoints) && forall|i: int|
                0 <= i < endpoints@.len() ==> {
                    &&& crate::outside::endpoint_settings(#[trigger] endpoints@[i]).timeout
                        == timeout
                    &&& crate::outside::endpoint_settings(endpoints@[i]).http2_keep_alive_interval
                        == interval
                }
        },
{
    endpoint_callback_has_the_last_word(
        project_id,
        instance_name,
        client_type,
        config,
        certificate,
        found,
        begun,
        uncertified,
        certified,
        planned,
        adapter,
        |endpoint: Endpoint|
            {
                &&& crate::outside::endpoint_settings(endpoint).timeout == timeout
                &&& crate::outside::endpoint_settings(endpoint).http2_keep_alive_interval
                    == interval
            },
    );
}

/// Endpoints are configured before the callback sees them, and what it returns is kept.
pub proof fn adapted_endpoints_come_from_the_callback<P, E: Fn(Endpoint) -> Endpoint, S>(
    endpoints: Vec<Endpoint>,
    config: Config<P, E, S>,
    adapter: E,
    adapted: Vec<Endpoint>,
    i: int,
)
    requires
        call_ensures(adapt_endpoints::<P, E, S>, (endpoints, &config), adapted),
        config.endpoint_cb == Some(adapter),
        0 <= i < endpoints@.len(),
    ensures
        adapted@.len() == endpoints@.len(),
        exists|given: Endpoint|
            adapter.ensures((given,), adapted@[i]) && {
                let before = crate::outside::endpoint_settings(endpoints@[i]);
                let after = #[trigger] crate::outside::endpoint_settings(given);
                &&& after.http2_keep_alive_interval == Some(crate::outside::duration_from_secs(60))
                &&& after.keep_alive_while_idle == Some(true)
                &&& config.timeout is Some ==> after.timeout == config.timeout
                &&& config.timeout is None ==> after.timeout == before.timeout
                &&& after.address == before.address
                &&& after.concurrency_limit == before.concurrency_limit
                &&& after.tls == before.tls
            },
{
    let endpoint = adapted@[i];
}

/// What is configured stays configured when it is configured again, and the later timeout, if there
/// is one, holds. The rest of an endpoint stays as it was.
pub proof fn later_configuration_holds(
    endpoint: Endpoint,
    first: Option<Duration>,
    second: Option<Duration>,
    once: Endpoint,
    twice: Endpoint,
)
    requires
        call_ensures(configure_endpoint, (endpoint, first), once),
        call_ensures(configure_endpoint, (once, second), twice),
    ensures
        ({
            let before = crate::outside::endpoint_settings(endpoint);
            let after = crate::outside::endpoint_settings(twice);
            &&& after.http2_keep_alive_interval == Some(crate::outside::duration_from_secs(60))
            &&& after.keep_alive_while_idle == Some(true)
            &&& after.timeout == if second is Some {
                second
            } else if first is Some {
                first
            } else {
                before.timeout
            }
            &&& after.address == before.address
            &&& after.concurrency_limit == before.concurrency_limit
            &&& after.tls == before.tls
        }),
        second is None || second == first ==> crate::outside::endpoint_settings(twice)
            == crate::outside::endpoint_settings(once),
{
}

/// The client of a planned connection is built with the plan's provider, whatever the access: a
/// connection to the service always has one. It asks for the scope of the access, and keeps the
/// names of the instance and the timeout.
pub proof fn service_client_is_authenticated<
    P,
    E: Fn(Endpoint) -> Endpoint,
    S: FnOnce(ServiceBuilder<Identity>) -> ServiceBuilder<Identity>,
>(
    project_id: &str,
    instance_name: &str,
    client_type: ClientType,
    config: Config<P, E, S>,
    certificate: Vec<u8>,
    found: P,
    begun: Connecting<P, E, S>,
    uncertified: Connecting<P, E, S>,
    certified: Connecting<P, E, S>,
    planned: Connecting<P, E, S>,
    plan: ConnectionPlan<P, S>,
    client: PlannedClient<P>,
)
    requires
        call_ensures(
            BigTableConnection::<()>::from_config::<P, E, S>,
            (project_id, instance_name, client_type, config),
            begun,
        ),
        call_ensures(
            Connecting::<P, E, S>::answer,
            (begun, Answer::EmulatorHost(None)),
            uncertified,
        ),
        call_ensures(
            Connecting::<P, E, S>::answer,
            (uncertified, Answer::RootCertificate(certificate)),
            certified,
        ),
        call_ensures(
            Connecting::<P, E, S>::answer,
            (certified, Answer::TokenProvider(Ok(found))),
            planned,
        ),
        crate::outside::tls_accepted(certificate@, "bigtable.googleapis.com"@),
        planned == Connecting::<P, E, S>::Planned(plan),
        call_ensures(ConnectionPlan::<P, S>::client_settings, (plan,), client),
    ensures
        client.settings.token_provider == match config.token_provider {
            Some(given) => Some(given),
            None => Some(found),
        },
        client.settings.scopes@ == match client_type {
            ClientType::ReadOnly => "https://www.googleapis.com/auth/bigtable.data.readonly"@,
            ClientType::ReadWrite => "https://www.googleapis.com/auth/bigtable.data"@,
            ClientType::Admin => "https://www.googleapis.com/auth/bigtable.admin"@,
        },
        client.settings.max_decoding_message_size == 64 * 1024 * 1024,
        client.settings.max_encoding_message_size == 64 * 1024 * 1024,
        client.channel == plan.channel,
        client.table_prefix@
            == "projects/"@ + project_id@ + "/instances/"@ + instance_name@ + "/tables/"@,
        client.timeout == config.timeout,
        match config.tonic_cb {
            Some(adapter) => exists|new: ServiceBuilder<Identity>|
                #[trigger] call_ensures(ServiceBuilder::<Identity>::new, (), new)
                    && adapter.ensures((new,), client.settings.builder),
            None => call_ensures(ServiceBuilder::<Identity>::new, (), client.settings.builder),
        },
{
    configured_connection_reaches_the_service(
        project_id,
        instance_name,
        client_type,
        config,
        certificate,
        found,
        begun,
        uncertified,
        certified,
        planned,
    );
}

/// A client is built with the provider that it is given, if it is given one, whatever the access.
/// What the callback makes true of every new builder is true of the builder of the client.
pub proof fn service_callback_is_applied<
    P,
    S: FnOnce(ServiceBuilder<Identity>) -> ServiceBuilder<Identity>,
>(
    token_provider: Option<P>,
    client_type: ClientType,
    adapter: S,
    settings: crate::client::ClientSettings<P>,
    wanted: spec_fn(ServiceBuilder<Identity>) -> bool,
)
    requires
        call_ensures(create_client::<P, S>, (token_provider, client_type, Some(adapter)), settings),
        forall|new: ServiceBuilder<Identity>, builder: ServiceBuilder<Identity>|
            #![trigger call_ensures(ServiceBuilder::<Identity>::new, (), new), wanted(builder)]
            call_ensures(ServiceBuilder::<Identity>::new, (), new) && adapter.ensures(
                (new,),
                builder,
            ) ==> wanted(builder),
    ensures
        wanted(settings.builder),
        settings.token_provider == token_provider,
        settings.scopes@ == match client_type {
            ClientType::ReadOnly => "https://www.googleapis.com/auth/bigtable.data.readonly"@,
            ClientType::ReadWrite => "https://www.googleapis.com/auth/bigtable.data"@,
            ClientType::Admin => "https://www.googleapis.com/auth/bigtable.admin"@,
        },
        settings.max_decoding_message_size == 64 * 1024 * 1024,
        settings.max_encoding_message_size == 64 * 1024 * 1024,
{
}

/// A connection with a given token provider lets 100 requests be open at a time on each of its
/// endpoints, of which there are as many as asked for, but at least one.
pub proof fn token_provider_connection_reaches_the_service<P, E: Fn(Endpoint) -> Endpoint, S>(
    project_id: &str,
    instance_name: &str,
    client_type: ClientType,
    channel_size: usize,
    timeout: Option<Duration>,
    token_provider: P,
    certificate: Vec<u8>,
    begun: Connecting<P, E, S>,
    uncertified: Connecting<P, E, S>,
    planned: Connecting<P, E, S>,
)
    requires
        call_ensures(
            BigTableConnection::<()>::new_with_token_provider::<P, E, S>,
            (project_id, instance_name, client_type, channel_size, timeout, token_provider),
            begun,
        ),
        call_ensures(
            Connecting::<P, E, S>::answer,
            (begun, Answer::EmulatorHost(None)),
            uncertified,
        ),
        call_ensures(
            Connecting::<P, E, S>::answer,
            (uncertified, Answer::RootCertificate(certificate)),
            planned,
        ),
        crate::outside::tls_accepted(certificate@, "bigtable.googleapis.com"@),
    ensures
        planned matches Connecting::Planned(plan) && {
            &&& plan.channel matches ChannelPlan::Balanced(endpoints) && {
                &&& endpoints@.len() == if channel_size == 0 {
                    1
                } else {
                    channel_size as int
                }
                &&& match crate::outside::parsed_uri("https://bigtable.googleapis.com"@) {
                    Some(uri) => forall|i: int|
                        0 <= i < endpoints@.len() ==> crate::outside::endpoint_settings(
                            #[trigger] endpoints@[i],
                        ) == (EndpointSettings {
                            address: crate::outside::Address::Uri(uri),
                            concurrency_limit: Some(100),
                            tls: Some(
                                TlsSettings {
                                    ca_certificate: certificate@,
                                    domain_name: "bigtable.googleapis.com"@,
                                },
                            ),
                            http2_keep_alive_interval: Some(crate::outside::duration_from_secs(60)),
                            keep_alive_while_idle: Some(true),
                            timeout: timeout,
                        }),
                    None => false,
                }
            }
            &&& plan.token_provider == Some(token_provider)
            &&& plan.client_type == client_type
            &&& plan.tonic_cb is None
            &&& plan.table_prefix@
                == "projects/"@ + project_id@ + "/instances/"@ + instance_name@ + "/tables/"@
            &&& plan.timeout == timeout
        },
{
    let target = uncertified->Uncertified_target;
    let config = uncertified->Uncertified_config;
    let endpoints = choose|endpoints: Vec<Endpoint>|
        crate::endpoint::are_service_endpoints(endpoints@, config, certificate@)
            && #[trigger] crate::connect::is_certified(planned, target, config, endpoints);
    assert(crate::connect::is_certified(planned, target, config, endpoints));
    assert(crate::endpoint::is_adapted_service_endpoint(endpoints@[0], config, certificate@));
}

/// Without an emulator, a new connection goes on with the provider that was found as one that was
/// given the provider, with 100 open requests at a time and read-write access by default. Without a
/// provider it fails with the reason for that.
pub proof fn new_connection_needs_a_provider<P, E: Fn(Endpoint) -> Endpoint, S>(
    project_id: &str,
    instance_name: &str,
    client_type: Option<ClientType>,
    channel_size: usize,
    timeout: Option<Duration>,
    token_provider: P,
    reason: AuthFailure,
    begun: Connecting<P, E, S>,
    asked: Connecting<P, E, S>,
    provided: Connecting<P, E, S>,
    refused: Connecting<P, E, S>,
)
    requires
        call_ensures(
            BigTableConnection::<()>::new::<P, E, S>,
            (project_id, instance_name, client_type, channel_size, timeout),
            begun,
        ),
        call_ensures(
            Connecting::<P, E, S>::answer,
            (begun, Answer::EmulatorHost(None)),
            asked,
        ),
        call_ensures(
            Connecting::<P, E, S>::answer,
            (asked, Answer::TokenProvider(Ok(token_provider))),
            provided,
        ),
        call_ensures(
            Connecting::<P, E, S>::answer,
            (asked, Answer::TokenProvider(Err(reason))),
            refused,
        ),
    ensures
        provided matches Connecting::Configured { target, config } && {
            &&& target.project_id@ == project_id@
            &&& target.instance_name@ == instance_name@
            &&& target.client_type == match client_type {
                Some(client_type) => client_type,
                None => ClientType::ReadWrite,
            }
            &&& config.concurrency_limit == 100
            &&& config.timeout == timeout
            &&& config.max_grpc_connections == channel_size
            &&& config.token_provider == Some(token_provider)
            &&& config.endpoint_cb is None
            &&& config.tonic_cb is None
        },
        refused == Connecting::<P, E, S>::Failed(Error::GCPAuthError(reason)),
{
}

/// An emulator that the environment names is connected to, over HTTP at its host and port or at the
/// path of its Unix domain socket, with or without a timeout, and without access tokens. That holds
/// of a new connection and of a configured one. A name that is no address ends the dialogue.
pub proof fn emulator_is_connected_to<P, E: Fn(Endpoint) -> Endpoint, S>(
    project_id: &str,
    instance_name: &str,
    client_type: Option<ClientType>,
    channel_size: usize,
    timeout: Option<Duration>,
    access: ClientType,
    config: Config<P, E, S>,
    host: String,
    begun: Connecting<P, E, S>,
    configured: Connecting<P, E, S>,
    next: Connecting<P, E, S>,
    next_configured: Connecting<P, E, S>,
)
    requires
        call_ensures(
            BigTableConnection::<()>::new::<P, E, S>,
            (project_id, instance_name, client_type, channel_size, timeout),
            begun,
        ),
        call_ensures(
            BigTableConnection::<()>::from_config::<P, E, S>,
            (project_id, instance_name, access, config),
            configured,
        ),
        call_ensures(
            Connecting::<P, E, S>::answer,
            (begun, Answer::EmulatorHost(Some(host))),
            next,
        ),
        call_ensures(
            Connecting::<P, E, S>::answer,
            (configured, Answer::EmulatorHost(Some(host))),
            next_configured,
        ),
    ensures
        if "unix://"@.is_prefix_of(host@)
            || crate::outside::parsed_uri("http://"@ + host@) is Some {
            next matches Connecting::Planned(plan) && {
                &&& match plan.channel {
                    ChannelPlan::Socket { path, endpoint } => {
                        &&& host@ == "unix://"@ + path@
                        &&& crate::outside::parsed_uri("http://[::]:50051"@) matches Some(uri)
                            && crate::outside::endpoint_settings(endpoint) == (EndpointSettings {
                                address: crate::outside::Address::Uri(uri),
                                concurrency_limit: None,
                                tls: None,
                                http2_keep_alive_interval: Some(crate::outside::duration_from_secs(60)),
                                keep_alive_while_idle: Some(true),
                                timeout: timeout,
                            })
                    },
                    ChannelPlan::Single(endpoint) => {
                        &&& !"unix://"@.is_prefix_of(host@)
                        &&& crate::outside::parsed_uri("http://"@ + host@) matches Some(uri)
                            && crate::outside::endpoint_settings(endpoint) == (EndpointSettings {
                                address: crate::outside::Address::Uri(uri),
                                concurrency_limit: None,
                                tls: None,
                                http2_keep_alive_interval: Some(crate::outside::duration_from_secs(60)),
                                keep_alive_while_idle: Some(true),
                                timeout: timeout,
                            })
                    },
                    ChannelPlan::Balanced(_) => false,
                }
                &&& plan.token_provider is None
                &&& plan.client_type == match client_type {
                    Some(client_type) => client_type,
                    None => ClientType::ReadWrite,
                }
                &&& plan.tonic_cb is None
                &&& plan.table_prefix@
                    == "projects/"@ + project_id@ + "/instances/"@ + instance_name@ + "/tables/"@
                &&& plan.timeout == timeout
            }
        } else {
            next is InvalidEmulatorAddress
        },
        if "unix://"@.is_prefix_of(host@)
            || crate::outside::parsed_uri("http://"@ + host@) is Some {
            next_configured matches Connecting::Planned(plan) && {
                &&& match plan.channel {
                    ChannelPlan::Socket { path, endpoint } => {
                        &&& host@ == "unix://"@ + path@
                        &&& crate::outside::parsed_uri("http://[::]:50051"@) matches Some(uri)
                            && crate::outside::endpoint_settings(endpoint) == (EndpointSettings {
                                address: crate::outside::Address::Uri(uri),
                                concurrency_limit: None,
                                tls: None,
                                http2_keep_alive_interval: Some(crate::outside::duration_from_secs(60)),
                                keep_alive_while_idle: Some(true),
                                timeout: config.timeout,
                            })
                    },
                    ChannelPlan::Single(endpoint) => {
                        &&& !"unix://"@.is_prefix_of(host@)
                        &&& crate::outside::parsed_uri("http://"@ + host@) matches Some(uri)
                            && crate::outside::endpoint_settings(endpoint) == (EndpointSettings {
                                address: crate::outside::Address::Uri(uri),
                                concurrency_limit: None,
                                tls: None,
                                http2_keep_alive_interval: Some(crate::outside::duration_from_secs(60)),
                                keep_alive_while_idle: Some(true),
                                timeout: config.timeout,
                            })
                    },
                    ChannelPlan::Balanced(_) => false,
                }
                &&& plan.token_provider is None
                &&& plan.client_type == access
                &&& plan.tonic_cb is None
                &&& plan.table_prefix@
                    == "projects/"@ + project_id@ + "/instances/"@ + instance_name@ + "/tables/"@
                &&& plan.timeout == config.timeout
            }
        } else {
            next_configured is InvalidEmulatorAddress
        },
{
    if "unix://"@.is_prefix_of(host@) {
        crate::endpoint::lemma_text_after_prefix("unix://"@, host@);
    }
}

/// The endpoint of an emulator that is named by host and port leads to what `http://` followed by
/// that name spells. Another name that spells another URI leads elsewhere, with any timeout.
pub proof fn emulator_address_is_respected(
    first: &str,
    second: &str,
    timeout: Option<Duration>,
    other_timeout: Option<Duration>,
    first_plan: ChannelPlan,
    second_plan: ChannelPlan,
)
    requires
        call_ensures(emulator_channel, (first, timeout), first_plan),
        call_ensures(emulator_channel, (second, other_timeout), second_plan),
        !"unix://"@.is_prefix_of(first@),
        !"unix://"@.is_prefix_of(second@),
    ensures
        first_plan is Single,
        second_plan is Single,
        crate::outside::parsed_uri("http://"@ + first@) matches Some(uri)
            && crate::outside::endpoint_settings(first_plan->Single_0).address
            == crate::outside::Address::Uri(uri),
        crate::outside::endpoint_settings(first_plan->Single_0).address
            == crate::outside::endpoint_settings(second_plan->Single_0).address
            <==> crate::outside::parsed_uri("http://"@ + first@) == crate::outside::parsed_uri(
            "http://"@ + second@,
        ),
        crate::outside::endpoint_settings(first_plan->Single_0).timeout == timeout,
{
    if let ChannelPlan::Socket { path, .. } = first_plan {
        assert(("unix://"@ + path@).subrange(0, "unix://"@.len() as int) =~= "unix://"@);
    }
    if let ChannelPlan::Socket { path, .. } = second_plan {
        assert(("unix://"@ + path@).subrange(0, "unix://"@.len() as int) =~= "unix://"@);
    }
}

/// The client of an emulator carries no token and passes through no layer of the user's. It asks
/// for the scope of its access all the same, and keeps the names of the instance and the timeout.
pub proof fn emulator_client_needs_no_token<
    P,
    S: FnOnce(ServiceBuilder<Identity>) -> ServiceBuilder<Identity>,
>(
    address: &str,
    project_id: &str,
    instance_name: &str,
    client_type: ClientType,
    timeout: Option<Duration>,
    plan: ConnectionPlan<P, S>,
    client: PlannedClient<P>,
)
    requires
        call_ensures(
            BigTableConnection::<()>::new_with_emulator::<P, S>,
            (address, project_id, instance_name, client_type, timeout),
            plan,
        ),
        call_ensures(ConnectionPlan::<P, S>::client_settings, (plan,), client),
    ensures
        match client.channel {
            ChannelPlan::Socket { path, endpoint } => {
                &&& address@ == "unix://"@ + path@
                &&& crate::outside::parsed_uri("http://[::]:50051"@) matches Some(uri)
                    && crate::outside::endpoint_settings(endpoint) == (EndpointSettings {
                        address: crate::outside::Address::Uri(uri),
                        concurrency_limit: None,
                        tls: None,
                        http2_keep_alive_interval: Some(crate::outside::duration_from_secs(60)),
                        keep_alive_while_idle: Some(true),
                        timeout: timeout,
                    })
            },
            ChannelPlan::Single(endpoint) => {
                &&& !"unix://"@.is_prefix_of(address@)
                &&& crate::outside::parsed_uri("http://"@ + address@) matches Some(uri)
                    && crate::outside::endpoint_settings(endpoint) == (EndpointSettings {
                        address: crate::outside::Address::Uri(uri),
                        concurrency_limit: None,
                        tls: None,
                        http2_keep_alive_interval: Some(crate::outside::duration_from_secs(60)),
                        keep_alive_while_idle: Some(true),
                        timeout: timeout,
                    })
            },
            ChannelPlan::Balanced(_) => false,
        },
        client.settings.token_provider is None,
        call_ensures(ServiceBuilder::<Identity>::new, (), client.settings.builder),
        client.settings.scopes@ == match client_type {
            ClientType::ReadOnly => "https://www.googleapis.com/auth/bigtable.data.readonly"@,
            ClientType::ReadWrite => "https://www.googleapis.com/auth/bigtable.data"@,
            ClientType::Admin => "https://www.googleapis.com/auth/bigtable.admin"@,
        },
        client.table_prefix@
            == "projects/"@ + project_id@ + "/instances/"@ + instance_name@ + "/tables/"@,
        client.timeout == timeout,
{
}

/// A root certificate of which no TLS configuration can be made ends a configured connection with
/// the failure that setting up TLS on a new endpoint of the service returned. Where a provider is
/// needed and none is found, the connection fails with the reason for that.
pub proof fn configured_connection_fails<P, E: Fn(Endpoint) -> Endpoint, S>(
    project_id: &str,
    instance_name: &str,
    client_type: ClientType,
    config: Config<P, E, S>,
    certificate: Vec<u8>,
    reason: AuthFailure,
    begun: Connecting<P, E, S>,
    uncertified: Connecting<P, E, S>,
    certified: Connecting<P, E, S>,
    last: Connecting<P, E, S>,
)
    requires
        call_ensures(
            BigTableConnection::<()>::from_config::<P, E, S>,
            (project_id, instance_name, client_type, config),
            begun,
        ),
        call_ensures(
            Connecting::<P, E, S>::answer,
            (begun, Answer::EmulatorHost(None)),
            uncertified,
        ),
        call_ensures(
            Connecting::<P, E, S>::answer,
            (uncertified, Answer::RootCertificate(certificate)),
            certified,
        ),
        call_ensures(
            Connecting::<P, E, S>::answer,
            (certified, Answer::TokenProvider(Err(reason))),
            last,
        ),
    ensures
        !crate::outside::tls_accepted(certificate@, "bigtable.googleapis.com"@) ==> {
            &&& last == certified
            &&& certified matches Connecting::Failed(Error::TransportError(failure))
                && exists|endpoint: Endpoint|
                #[trigger] crate::endpoint::is_tls_outcome(endpoint, certificate, Err(failure)) && {
                    &&& crate::outside::parsed_uri("https://bigtable.googleapis.com"@) matches Some(
                        uri,
                    ) && crate::outside::endpoint_settings(endpoint) == (EndpointSettings {
                        address: crate::outside::Address::Uri(uri),
                        concurrency_limit: Some(config.concurrency_limit),
                        tls: None,
                        http2_keep_alive_interval: None,
                        keep_alive_while_idle: None,
                        timeout: None,
                    })
                }
        },
        crate::outside::tls_accepted(certificate@, "bigtable.googleapis.com"@) ==> if config
            .token_provider is Some {
            last is Planned && last == certified
        } else {
            last == Connecting::<P, E, S>::Failed(Error::GCPAuthError(reason))
        },
{
    let target = uncertified->Uncertified_target;
    if crate::outside::tls_accepted(certificate@, "bigtable.googleapis.com"@) {
        let endpoints = choose|endpoints: Vec<Endpoint>|
            crate::endpoint::are_service_endpoints(endpoints@, config, certificate@)
                && #[trigger] crate::connect::is_certified(certified, target, config, endpoints);
        assert(crate::connect::is_certified(certified, target, config, endpoints));
    }
}

/// An answer that was not asked for changes nothing, and neither does any answer at the end.
pub proof fn unasked_answers_are_ignored<P, E: Fn(Endpoint) -> Endpoint, S>(
    state: Connecting<P, E, S>,
    answer: Answer<P>,
    next: Connecting<P, E, S>,
)
    requires
        call_ensures(Connecting::<P, E, S>::answer, (state, answer), next),
        match state {
            Connecting::Undecided { .. } => !(answer is EmulatorHost),
            Connecting::Unauthenticated { .. } => !(answer is TokenProvider),
            Connecting::Configured { .. } => !(answer is EmulatorHost),
            Connecting::Uncertified { .. } => !(answer is RootCertificate),
            Connecting::Unprovided { .. } => !(answer is TokenProvider),
            Connecting::Planned(_) => true,
            Connecting::InvalidEmulatorAddress => true,
            Connecting::Failed(_) => true,
        },
    ensures
        next == state,
{
}

/// Any callback may be given that takes any argument, and so may none.
pub proof fn callbacks_are_welcome<
    P,
    E: Fn(Endpoint) -> Endpoint,
    S: FnOnce(ServiceBuilder<Identity>) -> ServiceBuilder<Identity>,
>(
    config: Config<P, E, S>,
    target: crate::connect::Target,
)
    requires
        match config.endpoint_cb {
            Some(adapter) => forall|endpoint: Endpoint| #[trigger] adapter.requires((endpoint,)),
            None => true,
        },
        match config.tonic_cb {
            Some(adapter) => forall|builder: ServiceBuilder<Identity>| #[trigger]
                adapter.requires((builder,)),
            None => true,
        },
    ensures
        crate::endpoint::takes_any_endpoint(config.endpoint_cb),
        crate::client::takes_any_builder(config.tonic_cb),
        (Connecting::<P, E, S>::Configured { target, config }).takes_any_endpoint(),
        (Connecting::<P, E, S>::Uncertified { target, config }).takes_any_endpoint(),
        forall|state: Connecting<P, E, S>|
            !(state is Configured) && !(state is Uncertified)
                ==> #[trigger] state.takes_any_endpoint(),
{
}

/// Where an emulator can be addressed so, and only there, it may be connected to so.
pub proof fn emulator_addresses_are_welcome(address: Seq<char>)
    ensures
        crate::endpoint::emulator_address(address) <==> "unix://"@.is_prefix_of(address)
            || crate::outside::parsed_uri("http://"@ + address) is Some,
{
}

/// The endpoints of the service are made or refused alike for any two configurations. Those with
/// the same limit, timeout and no callback have the same settings, however many there are.
pub proof fn service_endpoints_are_alike<P, E: Fn(Endpoint) -> Endpoint, S>(
    first: Config<P, E, S>,
    second: Config<P, E, S>,
    certificate: Vec<u8>,
    first_made: Result<Vec<Endpoint>, Error>,
    second_made: Result<Vec<Endpoint>, Error>,
)
    requires
        call_ensures(service_endpoints::<P, E, S>, (&first, &certificate), first_made),
        call_ensures(service_endpoints::<P, E, S>, (&second, &certificate), second_made),
    ensures
        first_made is Ok <==> second_made is Ok,
        first.concurrency_limit == second.concurrency_limit && first.timeout == second.timeout
            && first.endpoint_cb is None && second.endpoint_cb is None ==> match (
            first_made,
            second_made,
        ) {
            (Ok(a), Ok(b)) => forall|i: int, j: int|
                0 <= i < a@.len() && 0 <= j < b@.len() ==> crate::outside::endpoint_settings(
                    #[trigger] a@[i],
                ) == crate::outside::endpoint_settings(#[trigger] b@[j]),
            _ => true,
        },
{
}

/// The question that is asked first is whether there is an emulator. The token provider and the
/// root certificate are asked for only where there is none, and the end asks for nothing.
pub proof fn questions_are_asked_in_turn<P, E: Fn(Endpoint) -> Endpoint, S>(
    state: Connecting<P, E, S>,
    question: Option<Question>,
)
    requires
        call_ensures(Connecting::<P, E, S>::question, (&state,), question),
    ensures
        question == Some(Question::EmulatorHost) <==> state is Undecided || state is Configured,
        question == Some(Question::TokenProvider) <==> state is Unauthenticated
            || state is Unprovided,
        question == Some(Question::RootCertificate) <==> state is Uncertified,
        question is None <==> state is Planned || state is InvalidEmulatorAddress
            || state is Failed,
{
}

/// An emulator can be planned for directly wherever its address is recognised, and nowhere else.
/// The plan is then the one that is made without asking.
pub proof fn recognised_emulators_are_planned_for<P, S>(
    address: &str,
    project_id: &str,
    instance_name: &str,
    client_type: ClientType,
    timeout: Option<Duration>,
    recognised: bool,
    tried: Option<ConnectionPlan<P, S>>,
)
    requires
        call_ensures(is_emulator_address, (address,), recognised),
        call_ensures(
            BigTableConnection::<()>::try_new_with_emulator::<P, S>,
            (address, project_id, instance_name, client_type, timeout),
            tried,
        ),
    ensures
        recognised <==> "unix://"@.is_prefix_of(address@) || crate::outside::parsed_uri(
            "http://"@ + address@,
        ) is Some,
        tried is Some <==> recognised,
        match tried {
            Some(plan) => {
                &&& match plan.channel {
                    ChannelPlan::Socket { path, endpoint } => {
                        &&& address@ == "unix://"@ + path@
                        &&& crate::outside::parsed_uri("http://[::]:50051"@) matches Some(uri)
                            && crate::outside::endpoint_settings(endpoint) == (EndpointSettings {
                                address: crate::outside::Address::Uri(uri),
                                concurrency_limit: None,
                                tls: None,
                                http2_keep_alive_interval: Some(crate::outside::duration_from_secs(60)),
                                keep_alive_while_idle: Some(true),
                                timeout: timeout,
                            })
                    },
                    ChannelPlan::Single(endpoint) => {
                        &&& !"unix://"@.is_prefix_of(address@)
                        &&& crate::outside::parsed_uri("http://"@ + address@) matches Some(uri)
                            && crate::outside::endpoint_settings(endpoint) == (EndpointSettings {
                                address: crate::outside::Address::Uri(uri),
                                concurrency_limit: None,
                                tls: None,
                                http2_keep_alive_interval: Some(crate::outside::duration_from_secs(60)),
                                keep_alive_while_idle: Some(true),
                                timeout: timeout,
                            })
                    },
                    ChannelPlan::Balanced(_) => false,
                }
                &&& plan.token_provider is None
                &&& plan.client_type == client_type
                &&& plan.tonic_cb is None
                &&& plan.table_prefix@
                    == "projects/"@ + project_id@ + "/instances/"@ + instance_name@ + "/tables/"@
                &&& plan.timeout == timeout
            },
            None => true,
        },
{
}

/// Each access has the scope of its own.
pub proof fn scopes_follow_the_access(client_type: ClientType, scope: &'static str)
    requires
        call_ensures(ClientType::scopes, (&client_type,), scope),
    ensures
        scope@ == match client_type {
            ClientType::ReadOnly => "https://www.googleapis.com/auth/bigtable.data.readonly"@,
            ClientType::ReadWrite => "https://www.googleapis.com/auth/bigtable.data"@,
            ClientType::Admin => "https://www.googleapis.com/auth/bigtable.admin"@,
        },
{
}

/// A failed call is reported with the status that it came back with, a failed TLS setup with the
/// failure that it returned, and what succeeds is handed on.
pub proof fn results_are_handed_on<T>(
    reply: Result<T, tonic::Status>,
    reported: Result<T, Error>,
    outcome: Result<Endpoint, TransportFailure>,
    ready: Result<Endpoint, Error>,
)
    requires
        call_ensures(rpc_result::<T>, (reply,), reported),
        call_ensures(secured, (outcome,), ready),
    ensures
        match reply {
            Ok(value) => reported == Ok::<T, Error>(value),
            Err(status) => reported == Err::<T, Error>(Error::RpcError(status)),
        },
        match outcome {
            Ok(endpoint) => ready == Ok::<Endpoint, Error>(endpoint),
            Err(failure) => ready == Err::<Endpoint, Error>(Error::TransportError(failure)),
        },
{
}

/// A message says what kind of error it is about, and ends with the detail that the error carries,
/// if it shows one. A timeout is given in seconds, in decimal notation.
pub proof fn messages_tell_the_error(error: Error, text: String)
    requires
        call_ensures(Error::message, (&error,), text),
    ensures
        match error {
            Error::AccessTokenError(detail) => text@ == "AccessToken error: "@ + detail@,
            Error::CertificateError(detail) => text@ == "Certificate error: "@ + detail@,
            Error::IoError(err) => exists|shown: String|
                vstd::string::to_string_from_display_ensures::<std::io::Error>(&err, shown)
                    && text@ == "I/O Error: "@ + #[trigger] shown@,
            Error::TransportError(err) => exists|shown: String|
                vstd::string::to_string_from_display_ensures::<TransportFailure>(&err, shown)
                    && text@ == "Transport error: "@ + #[trigger] shown@,
            Error::ChunkError(_) => text@ == "Chunk error"@,
            Error::RowNotFound => text@ == "Row not found"@,
            Error::RowWriteFailed => text@ == "Row write failed"@,
            Error::ObjectNotFound(detail) => text@ == "Object not found: "@ + detail@,
            Error::ObjectCorrupt(detail) => text@ == "Object is corrupt: "@ + detail@,
            Error::RpcError(err) => exists|shown: String|
                vstd::string::to_string_from_display_ensures::<tonic::Status>(&err, shown)
                    && text@ == "RPC error: "@ + #[trigger] shown@,
            Error::TimeoutError(seconds) => exists|number: Seq<char>|
                text@ == #[trigger] ("Timeout error after "@ + number) + " seconds"@
                    && crate::error::spelled_number(number) == seconds && number.len() > 0
                    && (seconds > 0 ==> number[0] != '0') && forall|i: int|
                    0 <= i < number.len() ==> '0' <= #[trigger] number[i] <= '9',
            Error::GCPAuthError(err) => exists|shown: String|
                vstd::string::to_string_from_display_ensures::<AuthFailure>(&err, shown)
                    && text@ == "GCPAuthError error: "@ + #[trigger] shown@,
        },
{
    if let Error::TimeoutError(seconds) = error {
        let number = crate::error::decimal(seconds as nat);
        crate::error::decimal_notation_spells_the_number(seconds as nat);
        assert(text@ == ("Timeout error after "@ + number) + " seconds"@);
    }
}

/// The range of a prefix begins with the prefix itself, holds every key that goes on from it, and
/// no key before it or after all of those. A longer prefix has a range within that of a shorter
/// one.
pub proof fn prefix_ranges_nest(
    prefix: Vec<u8>,
    longer: Vec<u8>,
    range: RowRange,
    inner: RowRange,
    key: Seq<u8>,
)
    requires
        call_ensures(get_row_range_from_prefix, (prefix,), range),
        call_ensures(get_row_range_from_prefix, (longer,), inner),
    ensures
        range.contains(key) <==> prefix@.len() <= key.len() && forall|i: int|
            0 <= i < prefix@.len() ==> #[trigger] key[i] == prefix@[i],
        range.contains(prefix@),
        prefix@.is_prefix_of(longer@) && inner.contains(key) ==> range.contains(key),
{
    let len = prefix@.len() as int;
    if prefix@.is_prefix_of(key) {
        assert forall|i: int| 0 <= i < len implies #[trigger] key[i] == prefix@[i] by {
            assert(key.subrange(0, len)[i] == key[i]);
        }
    }
    if len <= key.len() && forall|i: int| 0 <= i < len ==> #[trigger] key[i] == prefix@[i] {
        assert(key.subrange(0, len) =~= prefix@);
    }
    assert(prefix@.subrange(0, len) =~= prefix@);
    if prefix@.is_prefix_of(longer@) && inner.contains(key) {
        assert(longer@.is_prefix_of(key));
        assert(key.subrange(0, len) =~= prefix@) by {
            assert forall|i: int| 0 <= i < len implies key[i] == prefix@[i] by {
                assert(longer@.subrange(0, len)[i] == longer@[i]);
                assert(key.subrange(0, longer@.len() as int)[i] == key[i]);
            }
        }
    }
}

/// A request for a prefix asks for the rows whose keys start with the prefix, whatever rows it
/// asked for before. So the last prefix counts, and the rest of the request stays as it was.
pub proof fn last_prefix_counts<F, O>(
    request: ReadRowsRequest<F, O>,
    first: Vec<u8>,
    second: Vec<u8>,
    once: ReadRowsRequest<F, O>,
    twice: ReadRowsRequest<F, O>,
    key: Seq<u8>,
)
    requires
        call_ensures(ReadRowsRequest::<F, O>::with_prefix, (request, first), once),
        call_ensures(ReadRowsRequest::<F, O>::with_prefix, (once, second), twice),
    ensures
        once.rows matches Some(rows) && (rows.contains(key) <==> first@.is_prefix_of(key)),
        twice.rows matches Some(rows) && (rows.contains(key) <==> second@.is_prefix_of(key)),
        twice.table_name == request.table_name,
        twice.app_profile_id == request.app_profile_id,
        twice.filter == request.filter,
        twice.rows_limit == request.rows_limit,
        twice.options == request.options,
{
}

} // verus!
