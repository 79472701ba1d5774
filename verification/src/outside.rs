//! What is taken on trust: the outside types that are carried through, and the outside functions
//! that are called, each with what it is known to do.
use gcp_auth::Error as AuthFailure;
use std::time::Duration;
use tonic::codegen::http::uri::InvalidUri;
use tonic::transport::Certificate;
use tonic::transport::Channel;
use tonic::transport::ClientTlsConfig;
use tonic::transport::Endpoint;
use tonic::transport::Error as TransportFailure;
use tower::layer::util::Identity;
use tower::ServiceBuilder;
use vstd::prelude::*;

verus! {

/// The builder of a gRPC channel.
#[verifier::external_type_specification]
#[verifier::external_body]
pub struct ExEndpoint(tonic::transport::Endpoint);

/// Why a text is not a URI.
#[verifier::external_type_specification]
#[verifier::external_body]
pub struct ExInvalidUri(tonic::codegen::http::uri::InvalidUri);

/// Why the transport failed.
#[verifier::external_type_specification]
#[verifier::external_body]
pub struct ExTransportFailure(TransportFailure);

/// The status with which a remote procedure call failed.
#[verifier::external_type_specification]
#[verifier::external_body]
pub struct ExStatus(tonic::Status);

/// Why no access token could be had.
#[verifier::external_type_specification]
#[verifier::external_body]
pub struct ExAuthFailure(AuthFailure);

/// Why an input or output operation failed.
#[verifier::external_type_specification]
#[verifier::external_body]
pub struct ExIoFailure(std::io::Error);

/// The builder of a stack of service layers.
#[verifier::external_type_specification]
#[verifier::external_body]
#[verifier::reject_recursive_types(L)]
pub struct ExServiceBuilder<L>(tower::ServiceBuilder<L>);

/// The layer that changes nothing.
#[verifier::external_type_specification]
#[verifier::external_body]
pub struct ExIdentity(tower::layer::util::Identity);

/// Where an endpoint leads.
pub enum Address {
    /// To the host of a URI, given in the URI's normal form.
    Uri(Seq<char>),
    /// To the Unix domain socket at a path.
    Socket(Seq<char>),
}

/// How an endpoint proves who the server is.
pub struct TlsSettings {
    /// The certificate authority, PEM encoded.
    pub ca_certificate: Seq<u8>,
    /// The name that the server's certificate must carry.
    pub domain_name: Seq<char>,
}

/// The settings of an endpoint.
pub struct EndpointSettings {
    pub address: Address,
    pub concurrency_limit: Option<usize>,
    pub tls: Option<TlsSettings>,
    pub http2_keep_alive_interval: Option<Duration>,
    pub keep_alive_while_idle: Option<bool>,
    pub timeout: Option<Duration>,
}

/// The settings that an endpoint holds.
pub uninterp spec fn endpoint_settings(endpoint: Endpoint) -> EndpointSettings;

/// The normal form of the URI that a text spells, or `None` if it spells none.
pub uninterp spec fn parsed_uri(text: Seq<char>) -> Option<Seq<char>>;

/// Whether a PEM text and a domain name make a usable TLS configuration.
pub uninterp spec fn tls_accepted(ca_certificate: Seq<u8>, domain_name: Seq<char>) -> bool;

/// The duration of a whole number of seconds.
pub uninterp spec fn duration_from_secs(secs: u64) -> Duration;

/// The address of Bigtable's data service.
pub const SERVICE_URI: &'static str = "https://bigtable.googleapis.com";

/// The address of an endpoint whose connector does not look at it.
pub const UNUSED_URI: &'static str = "http://[::]:50051";

/// The settings of an endpoint that was just made for a URI, if there is one.
pub open spec fn fresh_settings(uri: Option<Seq<char>>) -> Option<EndpointSettings> {
    match uri {
        Some(uri) => Some(
            EndpointSettings {
                address: Address::Uri(uri),
                concurrency_limit: None,
                tls: None,
                http2_keep_alive_interval: None,
                keep_alive_while_idle: None,
                timeout: None,
            },
        ),
        None => None,
    }
}

/// `Duration::from_secs` is a function of its argument; a duration is opaque here.
pub assume_specification[ std::time::Duration::from_secs ](secs: u64) -> (res: Duration)
    ensures
        res == duration_from_secs(secs),
;

/// `Channel::from_static` parses the text as a URI, and makes an endpoint for it that has no
/// further setting. It panics where the text is not a URI; the text admitted here is one.
pub assume_specification[ tonic::transport::Channel::from_static ](
    s: &'static str,
) -> (res: Endpoint)
    requires
        s@ == SERVICE_URI@,
    ensures
        Some(endpoint_settings(res)) == fresh_settings(parsed_uri(s@)),
;

/// `Endpoint::from_static` does what `Channel::from_static` does on a text that does not start
/// with `unix:`. It panics where the text is not a URI; the text admitted here is one.
pub assume_specification[ tonic::transport::Endpoint::from_static ](
    s: &'static str,
) -> (res: Endpoint)
    requires
        s@ == UNUSED_URI@,
    ensures
        Some(endpoint_settings(res)) == fresh_settings(parsed_uri(s@)),
;

/// `Channel::from_shared` parses the text as a URI: it makes an endpoint for it that has no
/// further setting, or fails where the text is not a URI.
#[verifier::external_body]
pub(crate) fn channel_from_shared(text: String) -> (res: Result<Endpoint, InvalidUri>)
    ensures
        match res {
            Ok(endpoint) => fresh_settings(parsed_uri(text@)) == Some(endpoint_settings(endpoint)),
            Err(_) => fresh_settings(parsed_uri(text@)) is None,
        },
{
    Channel::from_shared(text)
}

/// `Endpoint::concurrency_limit` sets the concurrency limit and keeps the other settings.
pub assume_specification[ tonic::transport::Endpoint::concurrency_limit ](
    endpoint: Endpoint,
    limit: usize,
) -> (res: Endpoint)
    ensures
        endpoint_settings(res) == (EndpointSettings {
            concurrency_limit: Some(limit),
            ..endpoint_settings(endpoint)
        }),
;

/// `Endpoint::tls_config`, given a `ClientTlsConfig` with one certificate authority and a domain
/// name, sets the TLS configuration and keeps the other settings. It fails where the endpoint
/// leads to a Unix domain socket, and where the PEM text or the domain name is malformed. Whether
/// it succeeds depends on nothing else: the root certificates of the machine are not consulted.
/// A failure is opaque here, so nothing more is said of it. (A cryptography provider that the
/// process installed, and that supports no version of TLS, would make it panic.)
#[verifier::external_body]
pub(crate) fn endpoint_tls_config(
    endpoint: Endpoint,
    ca_certificate: &Vec<u8>,
    domain_name: &str,
) -> (res: Result<Endpoint, TransportFailure>)
    ensures
        (res is Ok) == (endpoint_settings(endpoint).address is Uri && tls_accepted(
            ca_certificate@,
            domain_name@,
        )),
        res matches Ok(secured) ==> endpoint_settings(secured) == (EndpointSettings {
            tls: Some(
                TlsSettings { ca_certificate: ca_certificate@, domain_name: domain_name@ },
            ),
            ..endpoint_settings(endpoint)
        }),
{
    endpoint.tls_config(
        ClientTlsConfig::new()
            .ca_certificate(Certificate::from_pem(ca_certificate))
            .domain_name(domain_name),
    )
}

/// `Endpoint::http2_keep_alive_interval` sets the interval between HTTP/2 keep-alive pings and
/// keeps the other settings.
pub assume_specification[ tonic::transport::Endpoint::http2_keep_alive_interval ](
    endpoint: Endpoint,
    interval: Duration,
) -> (res: Endpoint)
    ensures
        endpoint_settings(res) == (EndpointSettings {
            http2_keep_alive_interval: Some(interval),
            ..endpoint_settings(endpoint)
        }),
;

/// `Endpoint::keep_alive_while_idle` sets whether pings are sent while no request is open, and
/// keeps the other settings.
pub assume_specification[ tonic::transport::Endpoint::keep_alive_while_idle ](
    endpoint: Endpoint,
    enabled: bool,
) -> (res: Endpoint)
    ensures
        endpoint_settings(res) == (EndpointSettings {
            keep_alive_while_idle: Some(enabled),
            ..endpoint_settings(endpoint)
        }),
;

/// `Endpoint::timeout` sets the time that a request may take and keeps the other settings.
pub assume_specification[ tonic::transport::Endpoint::timeout ](
    endpoint: Endpoint,
    dur: Duration,
) -> (res: Endpoint)
    ensures
        endpoint_settings(res) == (EndpointSettings {
            timeout: Some(dur),
            ..endpoint_settings(endpoint)
        }),
;

/// `ServiceBuilder::new` makes a builder that has no layer. A builder is opaque here, so nothing
/// is said of it.
pub assume_specification[ tower::ServiceBuilder::<tower::layer::util::Identity>::new ]() -> (res:
    ServiceBuilder<Identity>)
;

/// `str::strip_prefix` gives what follows `prefix` in `text`, or `None` where `text` does not
/// start with `prefix`.
#[verifier::external_body]
pub(crate) fn strip_prefix<'a>(text: &'a str, prefix: &str) -> (res: Option<&'a str>)
    ensures
        match res {
            Some(rest) => text@ == prefix@ + rest@,
            None => !prefix@.is_prefix_of(text@),
        },
{
    text.strip_prefix(prefix)
}

} // verus!
