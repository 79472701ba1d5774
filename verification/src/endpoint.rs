//! The endpoints that a channel is opened to.
use crate::config::Config;
use crate::error::Error;
use crate::outside::{
    channel_from_shared, endpoint_tls_config, strip_prefix, EndpointSettings, TlsSettings,
    SERVICE_URI, UNUSED_URI,
};
use std::time::Duration;
use tonic::transport::Channel;
use tonic::transport::Endpoint;
use tonic::transport::Error as TransportFailure;
use vstd::prelude::*;

verus! {

/// The name that the certificate of Bigtable's data service carries.
pub const SERVICE_DOMAIN: &'static str = "bigtable.googleapis.com";

/// An endpoint's settings with a keep-alive ping every minute, idle or not, and with the request
/// timeout, if there is one.
pub open spec fn configured(
    settings: EndpointSettings,
    timeout: Option<Duration>,
) -> EndpointSettings {
    EndpointSettings {
        http2_keep_alive_interval: Some(crate::outside::duration_from_secs(60)),
        keep_alive_while_idle: Some(true),
        timeout: if timeout is Some {
            timeout
        } else {
            settings.timeout
        },
        ..settings
    }
}

/// Configures the endpoint with the keep-alive settings and the request timeout.
pub fn configure_endpoint(endpoint: Endpoint, timeout: Option<Duration>) -> (res: Endpoint)
    ensures
        crate::outside::endpoint_settings(res) == configured(
            crate::outside::endpoint_settings(endpoint),
            timeout,
        ),
        crate::outside::endpoint_settings(res) == (EndpointSettings {
            http2_keep_alive_interval: Some(crate::outside::duration_from_secs(60)),
            keep_alive_while_idle: Some(true),
            timeout: match timeout {
                Some(_) => timeout,
                None => crate::outside::endpoint_settings(endpoint).timeout,
            },
            ..crate::outside::endpoint_settings(endpoint)
        }),
{
    let endpoint = endpoint
        .http2_keep_alive_interval(Duration::from_secs(60))
        .keep_alive_while_idle(true);
    match timeout {
        Some(timeout) => endpoint.timeout(timeout),
        None => endpoint,
    }
}

/// What a connection is opened with.
pub enum ChannelPlan {
    /// A connection to the Unix domain socket at `path`. The address of the endpoint is not used.
    Socket { path: String, endpoint: Endpoint },
    /// A connection to an endpoint.
    Single(Endpoint),
    /// Connections to all the endpoints, which share the load.
    Balanced(Vec<Endpoint>),
}

/// The path in an emulator address of the form `unix://path`.
pub open spec fn socket_path(address: Seq<char>) -> Option<Seq<char>> {
    if "unix://"@.is_prefix_of(address) {
        Some(address.skip("unix://"@.len() as int))
    } else {
        None
    }
}

/// Whether an emulator can be addressed so: by the path of a Unix domain socket, or by what makes
/// a URI when `http://` is put before it.
pub open spec fn emulator_address(address: Seq<char>) -> bool {
    socket_path(address) is Some || crate::outside::parsed_uri("http://"@ + address) is Some
}

/// Whether `plan` opens a connection to the emulator at `address`.
pub open spec fn is_emulator_channel(
    plan: ChannelPlan,
    address: Seq<char>,
    timeout: Option<Duration>,
) -> bool {
    match socket_path(address) {
        Some(path) => plan matches ChannelPlan::Socket { path: planned, endpoint } && planned@
            == path && configured_from(endpoint, UNUSED_URI@, timeout),
        None => plan matches ChannelPlan::Single(endpoint) && configured_from(
            endpoint,
            "http://"@ + address,
            timeout,
        ),
    }
}

/// Whether `endpoint` is a new endpoint for the URI `text`, configured.
pub open spec fn configured_from(
    endpoint: Endpoint,
    text: Seq<char>,
    timeout: Option<Duration>,
) -> bool {
    crate::outside::fresh_settings(crate::outside::parsed_uri(text)) matches Some(settings)
        && crate::outside::endpoint_settings(endpoint) == configured(settings, timeout)
}

/// A text that is made of `prefix` and `rest` starts with `prefix`, and `rest` follows it.
proof fn lemma_prefix_is_followed(prefix: Seq<char>, rest: Seq<char>, text: Seq<char>)
    requires
        text == prefix + rest,
    ensures
        prefix.is_prefix_of(text),
        text.skip(prefix.len() as int) == rest,
{
    assert(text.subrange(0, prefix.len() as int) =~= prefix);
    assert(text.skip(prefix.len() as int) =~= rest);
}

/// A text that starts with `prefix` is made of `prefix` and what follows it.
pub proof fn lemma_text_after_prefix(prefix: Seq<char>, text: Seq<char>)
    requires
        prefix.is_prefix_of(text),
    ensures
        text == prefix + text.skip(prefix.len() as int),
{
    assert(text =~= prefix + text.skip(prefix.len() as int)) by {
        assert(text.subrange(0, prefix.len() as int) == prefix);
    }
}

fn http_uri(address: &str) -> (res: String)
    ensures
        res@ == "http://"@ + address@,
{
    let mut uri = "http://".to_owned();
    uri.append(address);
    uri
}

/// The connection to the emulator at `address`, which is the path of a Unix domain socket, in the
/// form `unix://path`, or a host and a port.
pub fn emulator_channel(address: &str, timeout: Option<Duration>) -> (res: ChannelPlan)
    requires
        emulator_address(address@),
    ensures
        is_emulator_channel(res, address@, timeout),
        match res {
            ChannelPlan::Socket { path, endpoint } => {
                &&& address@ == "unix://"@ + path@
                &&& crate::outside::parsed_uri("http://[::]:50051"@) matches Some(uri)
                    && crate::outside::endpoint_settings(endpoint) == (EndpointSettings {
                    address: crate::outside::Address::Uri(uri),
                    concurrency_limit: None,
                    tls: None,
                    http2_keep_alive_interval: Some(crate::outside::duration_from_secs(60)),
                    keep_alive_while_idle: Some(true),
                    timeout: timeout,
                })
            },
            ChannelPlan::Single(endpoint) => {
                &&& !"unix://"@.is_prefix_of(address@)
                &&& crate::outside::parsed_uri("http://"@ + address@) matches Some(uri)
                    && crate::outside::endpoint_settings(endpoint) == (EndpointSettings {
                    address: crate::outside::Address::Uri(uri),
                    concurrency_limit: None,
                    tls: None,
                    http2_keep_alive_interval: Some(crate::outside::duration_from_secs(60)),
                    keep_alive_while_idle: Some(true),
                    timeout: timeout,
                })
            },
            ChannelPlan::Balanced(_) => false,
        },
{
    match strip_prefix(address, "unix://") {
        Some(path) => {
            proof {
                lemma_prefix_is_followed("unix://"@, path@, address@);
            }
            let endpoint = configure_endpoint(Endpoint::from_static(UNUSED_URI), timeout);
            ChannelPlan::Socket { path: path.to_owned(), endpoint }
        },
        None => {
            match channel_from_shared(http_uri(address)) {
                Ok(endpoint) => ChannelPlan::Single(configure_endpoint(endpoint, timeout)),
                Err(_) => vstd::pervasive::unreached(),
            }
        },
    }
}

/// Whether an emulator can be addressed so.
pub fn is_emulator_address(address: &str) -> (res: bool)
    ensures
        res == emulator_address(address@),
        res == ("unix://"@.is_prefix_of(address@) || crate::outside::parsed_uri(
            "http://"@ + address@,
        ) is Some),
{
    match strip_prefix(address, "unix://") {
        Some(path) => {
            proof {
                lemma_prefix_is_followed("unix://"@, path@, address@);
            }
            true
        },
        None => channel_from_shared(http_uri(address)).is_ok(),
    }
}

/// The settings of an endpoint that leads to Bigtable's data service, with a limit to the requests
/// that are open at a time, and that trusts the server that `ca_certificate` vouches for.
pub open spec fn secured_settings(
    concurrency_limit: usize,
    ca_certificate: Seq<u8>,
) -> Option<EndpointSettings> {
    match crate::outside::fresh_settings(crate::outside::parsed_uri(SERVICE_URI@)) {
        Some(settings) => Some(
            EndpointSettings {
                concurrency_limit: Some(concurrency_limit),
                tls: Some(TlsSettings { ca_certificate, domain_name: SERVICE_DOMAIN@ }),
                ..settings
            },
        ),
        None => None,
    }
}

/// Whether `endpoint` has these settings.
pub open spec fn is_secured(
    endpoint: Endpoint,
    concurrency_limit: usize,
    ca_certificate: Seq<u8>,
) -> bool {
    secured_settings(concurrency_limit, ca_certificate) == Some(
        crate::outside::endpoint_settings(endpoint),
    )
}

/// Whether `endpoint` has these settings, configured.
pub open spec fn is_service_endpoint(
    endpoint: Endpoint,
    concurrency_limit: usize,
    ca_certificate: Seq<u8>,
    timeout: Option<Duration>,
) -> bool {
    secured_settings(concurrency_limit, ca_certificate) matches Some(settings)
        && crate::outside::endpoint_settings(endpoint) == configured(settings, timeout)
}

/// Whether `endpoint` is a new endpoint for Bigtable's data service, with a limit to the requests
/// that are open at a time.
pub open spec fn is_unsecured(endpoint: Endpoint, concurrency_limit: usize) -> bool {
    crate::outside::fresh_settings(crate::outside::parsed_uri(SERVICE_URI@)) matches Some(settings)
        && crate::outside::endpoint_settings(endpoint) == (EndpointSettings {
        concurrency_limit: Some(concurrency_limit),
        ..settings
    })
}

/// Whether `outcome` is what setting up TLS on `endpoint`, for a server that `ca_certificate`
/// vouches for, can return.
pub closed spec fn is_tls_outcome(
    endpoint: Endpoint,
    ca_certificate: Vec<u8>,
    outcome: Result<Endpoint, TransportFailure>,
) -> bool {
    call_ensures(endpoint_tls_config, (endpoint, &ca_certificate, SERVICE_DOMAIN), outcome)
}

/// What setting up TLS can return is an endpoint that verifies the name of the service and is
/// otherwise unchanged where the endpoint leads to a URI and `ca_certificate` is usable, and a
/// failure elsewhere.
pub proof fn tls_outcome_follows_the_certificate(
    endpoint: Endpoint,
    ca_certificate: Vec<u8>,
    outcome: Result<Endpoint, TransportFailure>,
)
    requires
        is_tls_outcome(endpoint, ca_certificate, outcome),
    ensures
        outcome is Ok <==> crate::outside::endpoint_settings(endpoint).address is Uri
            && crate::outside::tls_accepted(ca_certificate@, "bigtable.googleapis.com"@),
        outcome matches Ok(ready) ==> crate::outside::endpoint_settings(ready) == (
        EndpointSettings {
            tls: Some(
                TlsSettings {
                    ca_certificate: ca_certificate@,
                    domain_name: "bigtable.googleapis.com"@,
                },
            ),
            ..crate::outside::endpoint_settings(endpoint)
        }),
{
}

/// What setting up TLS can return is what `Endpoint::tls_config` returns for the name of the
/// service.
pub(crate) proof fn tls_outcome_is_of_the_service(
    endpoint: Endpoint,
    ca_certificate: Vec<u8>,
    outcome: Result<Endpoint, TransportFailure>,
)
    ensures
        is_tls_outcome(endpoint, ca_certificate, outcome) <==> call_ensures(
            endpoint_tls_config,
            (endpoint, &ca_certificate, "bigtable.googleapis.com"),
            outcome,
        ),
{
}

/// Whether `failure` is what setting up TLS on a new endpoint of the service can fail with.
pub open spec fn is_tls_failure(
    failure: TransportFailure,
    concurrency_limit: usize,
    ca_certificate: Vec<u8>,
) -> bool {
    exists|endpoint: Endpoint|
        is_unsecured(endpoint, concurrency_limit) && #[trigger] is_tls_outcome(
            endpoint,
            ca_certificate,
            Err(failure),
        )
}

/// Hands on what setting up TLS returned: the endpoint, or the failure as a transport error.
pub fn secured(outcome: Result<Endpoint, TransportFailure>) -> (res: Result<Endpoint, Error>)
    ensures
        res == match outcome {
            Ok(endpoint) => Ok::<Endpoint, Error>(endpoint),
            Err(failure) => Err(Error::TransportError(failure)),
        },
{
    match outcome {
        Ok(endpoint) => Ok(endpoint),
        Err(failure) => Err(Error::from(failure)),
    }
}

/// Whether `adapted` is what `adapter` makes of `endpoint`; without an adapter it is `endpoint`.
pub open spec fn is_adapted<E: Fn(Endpoint) -> Endpoint>(
    adapter: Option<E>,
    endpoint: Endpoint,
    adapted: Endpoint,
) -> bool {
    match adapter {
        Some(adapter) => adapter.ensures((endpoint,), adapted),
        None => adapted == endpoint,
    }
}

/// Whether `adapter`, if there is one, takes any endpoint.
pub open spec fn takes_any_endpoint<E: Fn(Endpoint) -> Endpoint>(adapter: Option<E>) -> bool {
    adapter matches Some(adapter) ==> forall|endpoint: Endpoint| #[trigger]
        adapter.requires((endpoint,))
}

/// Whether `endpoints` are what `config` asks for: as many as there are to be connections, but at
/// least one, each for Bigtable's data service, configured and then adapted.
pub open spec fn are_service_endpoints<P, E: Fn(Endpoint) -> Endpoint, S>(
    endpoints: Seq<Endpoint>,
    config: Config<P, E, S>,
    ca_certificate: Seq<u8>,
) -> bool {
    &&& endpoints.len() == if config.max_grpc_connections == 0 {
        1
    } else {
        config.max_grpc_connections as nat
    }
    &&& forall|i: int|
        0 <= i < endpoints.len() ==> is_adapted_service_endpoint(
            #[trigger] endpoints[i],
            config,
            ca_certificate,
        )
}

/// Whether `adapted` is an endpoint for Bigtable's data service, configured and then adapted.
pub open spec fn is_adapted_service_endpoint<P, E: Fn(Endpoint) -> Endpoint, S>(
    adapted: Endpoint,
    config: Config<P, E, S>,
    ca_certificate: Seq<u8>,
) -> bool {
    exists|endpoint: Endpoint|
        is_service_endpoint(endpoint, config.concurrency_limit, ca_certificate, config.timeout)
            && #[trigger] is_adapted(config.endpoint_cb, endpoint, adapted)
}

/// Whether `adapted` is what becomes of `endpoint` when it is configured and then adapted.
pub open spec fn is_adapted_from<P, E: Fn(Endpoint) -> Endpoint, S>(
    endpoint: Endpoint,
    config: Config<P, E, S>,
    adapted: Endpoint,
) -> bool {
    exists|between: Endpoint|
        crate::outside::endpoint_settings(between) == configured(
            crate::outside::endpoint_settings(endpoint),
            config.timeout,
        ) && #[trigger] is_adapted(config.endpoint_cb, between, adapted)
}

/// Configures each endpoint, and then adapts it as `config` says.
pub fn adapt_endpoints<P, E: Fn(Endpoint) -> Endpoint, S>(
    endpoints: Vec<Endpoint>,
    config: &Config<P, E, S>,
) -> (res: Vec<Endpoint>)
    requires
        takes_any_endpoint(config.endpoint_cb),
    ensures
        res@.len() == endpoints@.len(),
        forall|i: int|
            0 <= i < res@.len() ==> is_adapted_from(endpoints@[i], *config, #[trigger] res@[i]),
        config.endpoint_cb is None ==> forall|i: int|
            0 <= i < res@.len() ==> crate::outside::endpoint_settings(#[trigger] res@[i]) == (
            EndpointSettings {
                http2_keep_alive_interval: Some(crate::outside::duration_from_secs(60)),
                keep_alive_while_idle: Some(true),
                timeout: match config.timeout {
                    Some(_) => config.timeout,
                    None => crate::outside::endpoint_settings(endpoints@[i]).timeout,
                },
                ..crate::outside::endpoint_settings(endpoints@[i])
            }),
        match config.endpoint_cb {
            Some(adapter) => forall|i: int|
            #![trigger res@[i]]
            0 <= i < res@.len() ==> exists|given: Endpoint|
                adapter.ensures((given,), res@[i])
                    && #[trigger] crate::outside::endpoint_settings(given) == (EndpointSettings {
                    http2_keep_alive_interval: Some(crate::outside::duration_from_secs(60)),
                    keep_alive_while_idle: Some(true),
                    timeout: match config.timeout {
                        Some(_) => config.timeout,
                        None => crate::outside::endpoint_settings(endpoints@[i]).timeout,
                    },
                    ..crate::outside::endpoint_settings(endpoints@[i])
                }),
            None => true,
        },
{
    let ghost given = endpoints@;
    let mut res: Vec<Endpoint> = Vec::new();
    for endpoint in iter: endpoints
        invariant
            takes_any_endpoint(config.endpoint_cb),
            iter.seq() == given,
            res@.len() == iter.index(),
            forall|i: int|
                0 <= i < res@.len() ==> is_adapted_from(given[i], *config, #[trigger] res@[i]),
    {
        let between = configure_endpoint(endpoint, config.timeout);
        let adapted = match &config.endpoint_cb {
            Some(adapter) => adapter(between),
            None => between,
        };
        assert(is_adapted(config.endpoint_cb, between, adapted));
        res.push(adapted);
    }
    res
}

/// The endpoints of the connections to Bigtable's data service.
///
/// The server must prove its name with a certificate that `ca_certificate`, PEM encoded, vouches
/// for. Fails where no TLS configuration can be made of it, with the failure that setting it up
/// returned.
pub fn service_endpoints<P, E: Fn(Endpoint) -> Endpoint, S>(
    config: &Config<P, E, S>,
    ca_certificate: &Vec<u8>,
) -> (res: Result<Vec<Endpoint>, Error>)
    requires
        takes_any_endpoint(config.endpoint_cb),
    ensures
        match res {
            Ok(endpoints) => crate::outside::tls_accepted(ca_certificate@, SERVICE_DOMAIN@)
                && are_service_endpoints(endpoints@, *config, ca_certificate@),
            Err(err) => !crate::outside::tls_accepted(ca_certificate@, SERVICE_DOMAIN@)
                && (err matches Error::TransportError(failure) && is_tls_failure(
                failure,
                config.concurrency_limit,
                *ca_certificate,
            )),
        },
        res is Ok <==> crate::outside::tls_accepted(ca_certificate@, "bigtable.googleapis.com"@),
        res matches Ok(endpoints) ==> endpoints@.len() == if config.max_grpc_connections == 0 {
            1
        } else {
            config.max_grpc_connections as int
        },
        match res {
            Ok(endpoints) => match crate::outside::parsed_uri("https://bigtable.googleapis.com"@) {
                Some(uri) => match config.endpoint_cb {
                    Some(adapter) => forall|i: int|
                        #![trigger endpoints@[i]]
                        0 <= i < endpoints@.len() ==> exists|given: Endpoint|
                            adapter.ensures((given,), endpoints@[i])
                                && #[trigger] crate::outside::endpoint_settings(given) == (
                            EndpointSettings {
                                address: crate::outside::Address::Uri(uri),
                                concurrency_limit: Some(config.concurrency_limit),
                                tls: Some(
                                    TlsSettings {
                                        ca_certificate: ca_certificate@,
                                        domain_name: "bigtable.googleapis.com"@,
                                    },
                                ),
                                http2_keep_alive_interval: Some(crate::outside::duration_from_secs(60)),
                                keep_alive_while_idle: Some(true),
                                timeout: config.timeout,
                            }),
                    None => forall|i: int|
                        0 <= i < endpoints@.len() ==> crate::outside::endpoint_settings(
                            #[trigger] endpoints@[i],
                        ) == (EndpointSettings {
                            address: crate::outside::Address::Uri(uri),
                            concurrency_limit: Some(config.concurrency_limit),
                            tls: Some(
                                TlsSettings {
                                    ca_certificate: ca_certificate@,
                                    domain_name: "bigtable.googleapis.com"@,
                                },
                            ),
                            http2_keep_alive_interval: Some(crate::outside::duration_from_secs(60)),
                            keep_alive_while_idle: Some(true),
                            timeout: config.timeout,
                        }),
                },
                None => false,
            },
            Err(_) => true,
        },
        res matches Err(err) ==> (err matches Error::TransportError(failure)
            && exists|endpoint: Endpoint|
                #[trigger] is_tls_outcome(endpoint, *ca_certificate, Err(failure)) && {
                    &&& crate::outside::parsed_uri("https://bigtable.googleapis.com"@) matches Some(
                        uri,
                    ) && crate::outside::endpoint_settings(endpoint) == (EndpointSettings {
                        address: crate::outside::Address::Uri(uri),
                        concurrency_limit: Some(config.concurrency_limit),
                        tls: None,
                        http2_keep_alive_interval: None,
                        keep_alive_while_idle: None,
                        timeout: None,
                    })
                }),
{
    let count: usize = if config.max_grpc_connections == 0 {
        1
    } else {
        config.max_grpc_connections
    };
    let mut ready: Vec<Endpoint> = Vec::new();
    while ready.len() < count
        invariant
            ready@.len() <= count,
            forall|i: int|
                0 <= i < ready@.len() ==> #[trigger] is_secured(
                    ready@[i],
                    config.concurrency_limit,
                    ca_certificate@,
                ),
            ready@.len() > 0 ==> crate::outside::tls_accepted(ca_certificate@, SERVICE_DOMAIN@),
        decreases count - ready@.len(),
    {
        let endpoint = Channel::from_static(SERVICE_URI)
            .concurrency_limit(config.concurrency_limit);
        let outcome = endpoint_tls_config(endpoint, ca_certificate, SERVICE_DOMAIN);
        assert(is_unsecured(endpoint, config.concurrency_limit));
        assert(is_tls_outcome(endpoint, *ca_certificate, outcome));
        match secured(outcome) {
            Ok(endpoint) => {
                assert(is_secured(endpoint, config.concurrency_limit, ca_certificate@));
                ready.push(endpoint);
            },
            Err(err) => {
                return Err(err);
            },
        }
    }
    let endpoints = adapt_endpoints(ready, config);
    proof {
        assert forall|i: int| 0 <= i < endpoints@.len() implies is_adapted_service_endpoint(
            #[trigger] endpoints@[i],
            *config,
            ca_certificate@,
        ) by {
            assert(is_secured(ready@[i], config.concurrency_limit, ca_certificate@));
            assert(is_adapted_from(ready@[i], *config, endpoints@[i]));
            let endpoint = choose|endpoint: Endpoint|
                crate::outside::endpoint_settings(endpoint) == configured(
                    crate::outside::endpoint_settings(ready@[i]),
                    config.timeout,
                ) && #[trigger] is_adapted(config.endpoint_cb, endpoint, endpoints@[i]);
            assert(is_adapted(config.endpoint_cb, endpoint, endpoints@[i]));
        }
        assert(is_secured(ready@[0], config.concurrency_limit, ca_certificate@));
    }
    Ok(endpoints)
}

} // verus!
