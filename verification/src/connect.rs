//! How a connection comes about, as a dialogue: a [`Connecting`] asks what only the environment
//! can tell, takes the answers, and ends with a plan for the connection.
use crate::client::{create_client, ClientSettings};
use crate::config::{ClientType, Config};
use crate::endpoint::{emulator_channel, is_emulator_address, service_endpoints, ChannelPlan};
use crate::error::Error;
use crate::outside::EndpointSettings;
use crate::table::{get_table_prefix, BigTableConnection};
use gcp_auth::Error as AuthFailure;
use std::time::Duration;
use tonic::transport::Endpoint;
use tower::layer::util::Identity;
use tower::ServiceBuilder;
use vstd::prelude::*;

verus! {

/// The instance to connect to, and the access to ask for.
pub struct Target {
    pub project_id: String,
    pub instance_name: String,
    pub client_type: ClientType,
}

/// How to connect. `P` provides access tokens, and `S` adapts the stack of service layers.
pub struct ConnectionPlan<P, S> {
    /// What to open the channel with.
    pub channel: ChannelPlan,
    pub token_provider: Option<P>,
    pub client_type: ClientType,
    pub tonic_cb: Option<S>,
    /// What the full names of tables begin with.
    pub table_prefix: String,
    /// The time that reading rows may take.
    pub timeout: Option<Duration>,
}

/// Whether `plan` connects to the emulator at `address`, which asks for no access token.
pub open spec fn is_emulator_plan<P, S>(
    plan: ConnectionPlan<P, S>,
    address: Seq<char>,
    project_id: Seq<char>,
    instance_name: Seq<char>,
    client_type: ClientType,
    timeout: Option<Duration>,
) -> bool {
    &&& crate::endpoint::is_emulator_channel(plan.channel, address, timeout)
    &&& plan.token_provider is None
    &&& plan.client_type == client_type
    &&& plan.tonic_cb is None
    &&& plan.table_prefix@ == crate::table::table_prefix(project_id, instance_name)
    &&& plan.timeout == timeout
}

/// Whether `plan` connects to all of `endpoints`, with tokens from `token_provider`.
pub open spec fn is_service_plan<P, S>(
    plan: ConnectionPlan<P, S>,
    target: Target,
    endpoints: Vec<Endpoint>,
    token_provider: P,
    tonic_cb: Option<S>,
    timeout: Option<Duration>,
) -> bool {
    &&& plan.channel == ChannelPlan::Balanced(endpoints)
    &&& plan.token_provider == Some(token_provider)
    &&& plan.client_type == target.client_type
    &&& plan.tonic_cb == tonic_cb
    &&& plan.table_prefix@ == crate::table::table_prefix(
        target.project_id@,
        target.instance_name@,
    )
    &&& plan.timeout == timeout
}

impl<P, S> ConnectionPlan<P, S> {
    fn service(
        target: Target,
        endpoints: Vec<Endpoint>,
        token_provider: P,
        tonic_cb: Option<S>,
        timeout: Option<Duration>,
    ) -> (res: Self)
        ensures
            is_service_plan(res, target, endpoints, token_provider, tonic_cb, timeout),
    {
        ConnectionPlan {
            channel: ChannelPlan::Balanced(endpoints),
            token_provider: Some(token_provider),
            client_type: target.client_type,
            tonic_cb,
            table_prefix: get_table_prefix(
                target.project_id.as_str(),
                target.instance_name.as_str(),
            ),
            timeout,
        }
    }
}

/// What is left to be done: to open the channel, to build the client on it, and to keep the client
/// with the prefix and the timeout.
pub struct PlannedClient<P> {
    /// What to open the channel with.
    pub channel: ChannelPlan,
    /// What to build the client with.
    pub settings: ClientSettings<P>,
    /// What the full names of tables begin with.
    pub table_prefix: String,
    /// The time that reading rows may take.
    pub timeout: Option<Duration>,
}

/// Whether `client` is what `plan` asks for.
pub open spec fn is_planned_client<
    P,
    S: FnOnce(ServiceBuilder<Identity>) -> ServiceBuilder<Identity>,
>(
    plan: ConnectionPlan<P, S>,
    client: PlannedClient<P>,
) -> bool {
    &&& client.channel == plan.channel
    &&& crate::client::is_adapted_builder(plan.tonic_cb, client.settings.builder)
    &&& client.settings.token_provider == plan.token_provider
    &&& client.settings.scopes@ == crate::config::scope_of(plan.client_type)
    &&& client.settings.max_decoding_message_size == 67108864
    &&& client.settings.max_encoding_message_size == 67108864
    &&& client.table_prefix == plan.table_prefix
    &&& client.timeout == plan.timeout
}

impl<P, S: FnOnce(ServiceBuilder<Identity>) -> ServiceBuilder<Identity>> ConnectionPlan<P, S> {
    /// Settles what the client is built with, and hands on the rest of the plan.
    pub fn client_settings(self) -> (res: PlannedClient<P>)
        requires
            crate::client::takes_any_builder(self.tonic_cb),
        ensures
            is_planned_client(self, res),
            res.channel == self.channel,
            res.settings.token_provider == self.token_provider,
            res.settings.scopes@ == match self.client_type {
                ClientType::ReadOnly => "https://www.googleapis.com/auth/bigtable.data.readonly"@,
                ClientType::ReadWrite => "https://www.googleapis.com/auth/bigtable.data"@,
                ClientType::Admin => "https://www.googleapis.com/auth/bigtable.admin"@,
            },
            match self.tonic_cb {
                Some(adapter) => exists|new: ServiceBuilder<Identity>|
                    #[trigger] call_ensures(ServiceBuilder::<Identity>::new, (), new)
                        && adapter.ensures((new,), res.settings.builder),
                None => call_ensures(ServiceBuilder::<Identity>::new, (), res.settings.builder),
            },
            res.settings.max_decoding_message_size == 67108864,
            res.settings.max_encoding_message_size == 67108864,
            res.table_prefix == self.table_prefix,
            res.timeout == self.timeout,
    {
        PlannedClient {
            channel: self.channel,
            settings: create_client(self.token_provider, self.client_type, self.tonic_cb),
            table_prefix: self.table_prefix,
            timeout: self.timeout,
        }
    }
}

/// What only the environment can tell.
#[derive(Debug, Clone, Copy, PartialEq, Eq, Structural)]
pub enum Question {
    /// What is the value of the `BIGTABLE_EMULATOR_HOST` variable?
    EmulatorHost,
    /// What are the root certificates, PEM encoded?
    RootCertificate,
    /// Who provides access tokens?
    TokenProvider,
}

/// The answer to a [`Question`].
pub enum Answer<P> {
    EmulatorHost(Option<String>),
    RootCertificate(Vec<u8>),
    TokenProvider(Result<P, AuthFailure>),
}

impl<P> Answer<P> {
    /// Whether this is an answer to `question`, if one is open.
    pub open spec fn fits(self, question: Option<Question>) -> bool {
        match question {
            Some(Question::EmulatorHost) => self is EmulatorHost,
            Some(Question::RootCertificate) => self is RootCertificate,
            Some(Question::TokenProvider) => self is TokenProvider,
            None => false,
        }
    }
}

/// A connection that comes about. `P` provides access tokens, `E` adapts an endpoint, and `S`
/// adapts the stack of service layers.
pub enum Connecting<P, E, S> {
    /// Is there an emulator to connect to?
    Undecided { target: Target, channel_size: usize, timeout: Option<Duration> },
    /// There is none; who provides access tokens?
    Unauthenticated { target: Target, channel_size: usize, timeout: Option<Duration> },
    /// Is there an emulator to connect to, whatever the configuration says?
    Configured { target: Target, config: Config<P, E, S> },
    /// There is none; what are the root certificates?
    Uncertified { target: Target, config: Config<P, E, S> },
    /// The endpoints are made; who provides access tokens?
    Unprovided {
        target: Target,
        endpoints: Vec<Endpoint>,
        tonic_cb: Option<S>,
        timeout: Option<Duration>,
    },
    /// The plan is made.
    Planned(ConnectionPlan<P, S>),
    /// There is an emulator, but at no valid address.
    InvalidEmulatorAddress,
    /// There will be no connection.
    Failed(Error),
}

/// Whether the dialogue ends so where there is an emulator at `address`.
pub open spec fn is_emulated<P, E, S>(
    state: Connecting<P, E, S>,
    target: Target,
    address: Seq<char>,
    timeout: Option<Duration>,
) -> bool {
    if crate::endpoint::emulator_address(address) {
        state matches Connecting::Planned(plan) && is_emulator_plan(
            plan,
            address,
            target.project_id@,
            target.instance_name@,
            target.client_type,
            timeout,
        )
    } else {
        state is InvalidEmulatorAddress
    }
}

/// Whether the dialogue goes on so once the endpoints are made.
pub open spec fn is_certified<P, E, S>(
    state: Connecting<P, E, S>,
    target: Target,
    config: Config<P, E, S>,
    endpoints: Vec<Endpoint>,
) -> bool {
    match config.token_provider {
        Some(token_provider) => state matches Connecting::Planned(plan) && is_service_plan(
            plan,
            target,
            endpoints,
            token_provider,
            config.tonic_cb,
            config.timeout,
        ),
        None => state == (Connecting::<P, E, S>::Unprovided {
            target,
            endpoints,
            tonic_cb: config.tonic_cb,
            timeout: config.timeout,
        }),
    }
}

/// The configuration of a connection that is given nothing but its size, its timeout and the
/// provider of its tokens.
pub open spec fn provider_config<P, E, S>(
    channel_size: usize,
    timeout: Option<Duration>,
    token_provider: P,
) -> Config<P, E, S> {
    Config {
        concurrency_limit: 100,
        timeout,
        max_grpc_connections: channel_size,
        token_provider: Some(token_provider),
        endpoint_cb: None,
        tonic_cb: None,
    }
}

impl<P, E, S> Connecting<P, E, S> {
    /// The question that is open, if the dialogue has not ended.
    pub open spec fn open_question(self) -> Option<Question> {
        match self {
            Connecting::Undecided { .. } => Some(Question::EmulatorHost),
            Connecting::Unauthenticated { .. } => Some(Question::TokenProvider),
            Connecting::Configured { .. } => Some(Question::EmulatorHost),
            Connecting::Uncertified { .. } => Some(Question::RootCertificate),
            Connecting::Unprovided { .. } => Some(Question::TokenProvider),
            _ => None,
        }
    }

    fn get_provider_config(
        channel_size: usize,
        timeout: Option<Duration>,
        token_provider: P,
    ) -> (res: Config<P, E, S>)
        ensures
            res == provider_config::<P, E, S>(channel_size, timeout, token_provider),
    {
        Config {
            concurrency_limit: 100,
            timeout,
            max_grpc_connections: channel_size,
            token_provider: Some(token_provider),
            endpoint_cb: None,
            tonic_cb: None,
        }
    }

    fn emulated(address: &str, target: Target, timeout: Option<Duration>) -> (res: Self)
        ensures
            is_emulated(res, target, address@, timeout),
    {
        match BigTableConnection::try_new_with_emulator(
            address,
            target.project_id.as_str(),
            target.instance_name.as_str(),
            target.client_type,
            timeout,
        ) {
            Some(plan) => Connecting::Planned(plan),
            None => Connecting::InvalidEmulatorAddress,
        }
    }

    /// The question that is open, if the dialogue has not ended.
    pub fn question(&self) -> (res: Option<Question>)
        ensures
            res == self.open_question(),
            match *self {
                Connecting::Undecided { .. } => res == Some(Question::EmulatorHost),
                Connecting::Unauthenticated { .. } => res == Some(Question::TokenProvider),
                Connecting::Configured { .. } => res == Some(Question::EmulatorHost),
                Connecting::Uncertified { .. } => res == Some(Question::RootCertificate),
                Connecting::Unprovided { .. } => res == Some(Question::TokenProvider),
                Connecting::Planned(_) => res is None,
                Connecting::InvalidEmulatorAddress => res is None,
                Connecting::Failed(_) => res is None,
            },
    {
        match self {
            Connecting::Undecided { .. } => Some(Question::EmulatorHost),
            Connecting::Unauthenticated { .. } => Some(Question::TokenProvider),
            Connecting::Configured { .. } => Some(Question::EmulatorHost),
            Connecting::Uncertified { .. } => Some(Question::RootCertificate),
            Connecting::Unprovided { .. } => Some(Question::TokenProvider),
            _ => None,
        }
    }
}

/// How to begin. There is no client yet, so `()` stands for it.
impl BigTableConnection<()> {
    /// Begins to connect to the instance `instance_name`. By default, read-write access is asked
    /// for. Use the `client_type` parameter to specify different access levels.
    ///
    /// The BIGTABLE_EMULATOR_HOST environment variable is respected.
    ///
    /// `channel_size` defines the number of connections established to Bigtable, and the requests
    /// are load balanced onto all of them.
    pub fn new<P, E, S>(
        project_id: &str,
        instance_name: &str,
        client_type: Option<ClientType>,
        channel_size: usize,
        timeout: Option<Duration>,
    ) -> (res: Connecting<P, E, S>)
        ensures
            res matches Connecting::Undecided { target, channel_size: size, timeout: limit } && {
                &&& target.project_id@ == project_id@
                &&& target.instance_name@ == instance_name@
                &&& target.client_type == match client_type {
                    Some(client_type) => client_type,
                    None => ClientType::ReadWrite,
                }
                &&& size == channel_size
                &&& limit == timeout
            },
    {
        Connecting::Undecided {
            target: Target {
                project_id: project_id.to_owned(),
                instance_name: instance_name.to_owned(),
                client_type: client_type.unwrap_or_default(),
            },
            channel_size,
            timeout,
        }
    }

    /// Begins to connect to the instance `instance_name`, with access tokens from
    /// `token_provider`.
    ///
    /// The BIGTABLE_EMULATOR_HOST environment variable is respected.
    ///
    /// `channel_size` defines the number of connections established to Bigtable, and the requests
    /// are load balanced onto all of them.
    pub fn new_with_token_provider<P, E, S>(
        project_id: &str,
        instance_name: &str,
        client_type: ClientType,
        channel_size: usize,
        timeout: Option<Duration>,
        token_provider: P,
    ) -> (res: Connecting<P, E, S>)
        ensures
            res matches Connecting::Configured { target, config } && {
                &&& target.project_id@ == project_id@
                &&& target.instance_name@ == instance_name@
                &&& target.client_type == client_type
                &&& config == provider_config::<P, E, S>(channel_size, timeout, token_provider)
                &&& config == (Config::<P, E, S> {
                    concurrency_limit: 100,
                    timeout,
                    max_grpc_connections: channel_size,
                    token_provider: Some(token_provider),
                    endpoint_cb: None,
                    tonic_cb: None,
                })
            },
    {
        Self::from_config(
            project_id,
            instance_name,
            client_type,
            Connecting::get_provider_config(channel_size, timeout, token_provider),
        )
    }

    /// Begins to connect to the instance `instance_name`, as `config` says.
    ///
    /// The BIGTABLE_EMULATOR_HOST environment variable is respected.
    pub fn from_config<P, E, S>(
        project_id: &str,
        instance_name: &str,
        client_type: ClientType,
        config: Config<P, E, S>,
    ) -> (res: Connecting<P, E, S>)
        ensures
            res matches Connecting::Configured { target, config: given } && {
                &&& target.project_id@ == project_id@
                &&& target.instance_name@ == instance_name@
                &&& target.client_type == client_type
                &&& given == config
            },
    {
        Connecting::Configured {
            target: Target {
                project_id: project_id.to_owned(),
                instance_name: instance_name.to_owned(),
                client_type,
            },
            config,
        }
    }

    /// Plans a connection to the emulator at `emulator_endpoint`. This is usually covered by
    /// [`Self::new`] or [`Self::new_with_token_provider`], which both support the
    /// `BIGTABLE_EMULATOR_HOST` env variable. However, this function can also be used directly, in
    /// case setting `BIGTABLE_EMULATOR_HOST` is inconvenient.
    pub fn new_with_emulator<P, S>(
        emulator_endpoint: &str,
        project_id: &str,
        instance_name: &str,
        client_type: ClientType,
        timeout: Option<Duration>,
    ) -> (res: ConnectionPlan<P, S>)
        requires
            crate::endpoint::emulator_address(emulator_endpoint@),
        ensures
            is_emulator_plan(
                res,
                emulator_endpoint@,
                project_id@,
                instance_name@,
                client_type,
                timeout,
            ),
            match res.channel {
                ChannelPlan::Socket { path, endpoint } => {
                    &&& emulator_endpoint@ == "unix://"@ + path@
                    &&& crate::outside::parsed_uri("http://[::]:50051"@) matches Some(uri)
                        && crate::outside::endpoint_settings(endpoint) == (EndpointSettings {
                            address: crate::outside::Address::Uri(uri),
                            concurrency_limit: None,
                            tls: None,
                            http2_keep_alive_interval: Some(crate::outside::duration_from_secs(60)),
                            keep_alive_while_idle: Some(true),
                            timeout: timeout,
                        })
                },
                ChannelPlan::Single(endpoint) => {
                    &&& !"unix://"@.is_prefix_of(emulator_endpoint@)
                    &&& crate::outside::parsed_uri("http://"@ + emulator_endpoint@) matches Some(uri)
                        && crate::outside::endpoint_settings(endpoint) == (EndpointSettings {
                            address: crate::outside::Address::Uri(uri),
                            concurrency_limit: None,
                            tls: None,
                            http2_keep_alive_interval: Some(crate::outside::duration_from_secs(60)),
                            keep_alive_while_idle: Some(true),
                            timeout: timeout,
                        })
                },
                ChannelPlan::Balanced(_) => false,
            },
            res.token_provider is None,
            res.client_type == client_type,
            res.tonic_cb is None,
            res.table_prefix@
                == "projects/"@ + project_id@ + "/instances/"@ + instance_name@ + "/tables/"@,
            res.timeout == timeout,
    {
        ConnectionPlan {
            channel: emulator_channel(emulator_endpoint, timeout),
            token_provider: None,
            client_type,
            tonic_cb: None,
            table_prefix: get_table_prefix(project_id, instance_name),
            timeout,
        }
    }

    /// Plans a connection to the emulator at `emulator_endpoint`, if that is an address.
    pub fn try_new_with_emulator<P, S>(
        emulator_endpoint: &str,
        project_id: &str,
        instance_name: &str,
        client_type: ClientType,
        timeout: Option<Duration>,
    ) -> (res: Option<ConnectionPlan<P, S>>)
        ensures
            res is Some <==> crate::endpoint::emulator_address(emulator_endpoint@),
            res matches Some(plan) ==> is_emulator_plan(
                plan,
                emulator_endpoint@,
                project_id@,
                instance_name@,
                client_type,
                timeout,
            ),
            res is Some <==> ("unix://"@.is_prefix_of(emulator_endpoint@)
                || crate::outside::parsed_uri("http://"@ + emulator_endpoint@) is Some),
            res matches Some(plan) ==> {
                &&& match plan.channel {
                    ChannelPlan::Socket { path, endpoint } => {
                        &&& emulator_endpoint@ == "unix://"@ + path@
                        &&& crate::outside::parsed_uri("http://[::]:50051"@) matches Some(uri)
                            && crate::outside::endpoint_settings(endpoint) == (EndpointSettings {
                                address: crate::outside::Address::Uri(uri),
                                concurrency_limit: None,
                                tls: None,
                                http2_keep_alive_interval: Some(crate::outside::duration_from_secs(60)),
                                keep_alive_while_idle: Some(true),
                                timeout: timeout,
                            })
                    },
                    ChannelPlan::Single(endpoint) => {
                        &&& !"unix://"@.is_prefix_of(emulator_endpoint@)
                        &&& crate::outside::parsed_uri("http://"@ + emulator_endpoint@) matches Some(uri)
                            && crate::outside::endpoint_settings(endpoint) == (EndpointSettings {
                                address: crate::outside::Address::Uri(uri),
                                concurrency_limit: None,
                                tls: None,
                                http2_keep_alive_interval: Some(crate::outside::duration_from_secs(60)),
                                keep_alive_while_idle: Some(true),
                                timeout: timeout,
                            })
                    },
                    ChannelPlan::Balanced(_) => false,
                }
                &&& plan.token_provider is None
                &&& plan.client_type == client_type
                &&& plan.tonic_cb is None
                &&& plan.table_prefix@
                    == "projects/"@ + project_id@ + "/instances/"@ + instance_name@ + "/tables/"@
                &&& plan.timeout == timeout
            },
    {
        if is_emulator_address(emulator_endpoint) {
            Some(
                Self::new_with_emulator(
                    emulator_endpoint,
                    project_id,
                    instance_name,
                    client_type,
                    timeout,
                ),
            )
        } else {
            None
        }
    }
}

impl<P, E: Fn(Endpoint) -> Endpoint, S> Connecting<P, E, S> {
    /// Whether the endpoint adapter, if there is one, takes any endpoint.
    pub open spec fn takes_any_endpoint(self) -> bool {
        match self {
            Connecting::Configured { config, .. } => crate::endpoint::takes_any_endpoint(
                config.endpoint_cb,
            ),
            Connecting::Uncertified { config, .. } => crate::endpoint::takes_any_endpoint(
                config.endpoint_cb,
            ),
            _ => true,
        }
    }

    /// Whether `answer` leads to `next`. An answer to another question than the open one changes
    /// nothing.
    pub open spec fn leads_to(self, answer: Answer<P>, next: Self) -> bool {
        match (self, answer) {
            (
                Connecting::Undecided { target, channel_size, timeout },
                Answer::EmulatorHost(host),
            ) => match host {
                Some(address) => is_emulated(next, target, address@, timeout),
                None => next == (Connecting::<P, E, S>::Unauthenticated {
                    target,
                    channel_size,
                    timeout,
                }),
            },
            (
                Connecting::Unauthenticated { target, channel_size, timeout },
                Answer::TokenProvider(provider),
            ) => match provider {
                Ok(token_provider) => next == (Connecting::<P, E, S>::Configured {
                    target,
                    config: provider_config(channel_size, timeout, token_provider),
                }),
                Err(err) => next == Connecting::<P, E, S>::Failed(Error::GCPAuthError(err)),
            },
            (Connecting::Configured { target, config }, Answer::EmulatorHost(host)) => match host {
                Some(address) => is_emulated(next, target, address@, config.timeout),
                None => next == (Connecting::<P, E, S>::Uncertified { target, config }),
            },
            (Connecting::Uncertified { target, config }, Answer::RootCertificate(certificate)) => {
                if crate::outside::tls_accepted(
                    certificate@,
                    crate::endpoint::SERVICE_DOMAIN@,
                ) {
                    exists|endpoints: Vec<Endpoint>|
                        crate::endpoint::are_service_endpoints(endpoints@, config, certificate@)
                            && #[trigger] is_certified(next, target, config, endpoints)
                } else {
                    next matches Connecting::Failed(Error::TransportError(failure))
                        && crate::endpoint::is_tls_failure(
                        failure,
                        config.concurrency_limit,
                        certificate,
                    )
                }
            },
            (
                Connecting::Unprovided { target, endpoints, tonic_cb, timeout },
                Answer::TokenProvider(provider),
            ) => match provider {
                Ok(token_provider) => next matches Connecting::Planned(plan) && is_service_plan(
                    plan,
                    target,
                    endpoints,
                    token_provider,
                    tonic_cb,
                    timeout,
                ),
                Err(err) => next == Connecting::<P, E, S>::Failed(Error::GCPAuthError(err)),
            },
            _ => next == self,
        }
    }

    /// Takes an answer. An answer to another question than the open one changes nothing.
    pub fn answer(self, answer: Answer<P>) -> (res: Self)
        requires
            self.takes_any_endpoint(),
        ensures
            self.leads_to(answer, res),
            res.takes_any_endpoint(),
    {
        match (self, answer) {
            (
                Connecting::Undecided { target, channel_size, timeout },
                Answer::EmulatorHost(host),
            ) => match host {
                Some(address) => Self::emulated(address.as_str(), target, timeout),
                None => Connecting::Unauthenticated { target, channel_size, timeout },
            },
            (
                Connecting::Unauthenticated { target, channel_size, timeout },
                Answer::TokenProvider(provider),
            ) => match provider {
                Ok(token_provider) => Connecting::Configured {
                    target,
                    config: Self::get_provider_config(channel_size, timeout, token_provider),
                },
                Err(err) => Connecting::Failed(Error::from(err)),
            },
            (Connecting::Configured { target, config }, Answer::EmulatorHost(host)) => match host {
                Some(address) => Self::emulated(address.as_str(), target, config.timeout),
                None => Connecting::Uncertified { target, config },
            },
            (Connecting::Uncertified { target, config }, Answer::RootCertificate(certificate)) => {
                match service_endpoints(&config, &certificate) {
                    Ok(endpoints) => {
                        let ghost given = config;
                        let next = match config.token_provider {
                            Some(token_provider) => Connecting::Planned(
                                ConnectionPlan::service(
                                    target,
                                    endpoints,
                                    token_provider,
                                    config.tonic_cb,
                                    config.timeout,
                                ),
                            ),
                            None => Connecting::Unprovided {
                                target,
                                endpoints,
                                tonic_cb: config.tonic_cb,
                                timeout: config.timeout,
                            },
                        };
                        assert(is_certified(next, target, given, endpoints));
                        next
                    },
                    Err(err) => Connecting::Failed(err),
                }
            },
            (
                Connecting::Unprovided { target, endpoints, tonic_cb, timeout },
                Answer::TokenProvider(provider),
            ) => match provider {
                Ok(token_provider) => Connecting::Planned(
                    ConnectionPlan::service(target, endpoints, token_provider, tonic_cb, timeout),
                ),
                Err(err) => Connecting::Failed(Error::from(err)),
            },
            (state, _) => state,
        }
    }
}

/// Whether `states` is a dialogue in which `answers` are given, one after the other.
pub open spec fn is_dialogue<P, E: Fn(Endpoint) -> Endpoint, S>(
    states: Seq<Connecting<P, E, S>>,
    answers: Seq<Answer<P>>,
) -> bool {
    &&& states.len() == answers.len() + 1
    &&& forall|i: int|
        0 <= i < answers.len() ==> states[i].leads_to(#[trigger] answers[i], states[i + 1])
}

/// Whether every answer of a dialogue is for the question that is open when it is given.
pub open spec fn answers_fit<P, E: Fn(Endpoint) -> Endpoint, S>(
    states: Seq<Connecting<P, E, S>>,
    answers: Seq<Answer<P>>,
) -> bool {
    forall|i: int|
        0 <= i < answers.len() ==> (#[trigger] answers[i]).fits(states[i].open_question())
}

impl<P, E, S> Connecting<P, E, S> {
    /// Whether what is known so far concerns the given instance, access and timeout.
    pub open spec fn concerns(
        self,
        project_id: Seq<char>,
        instance_name: Seq<char>,
        client_type: ClientType,
        timeout: Option<Duration>,
    ) -> bool {
        match self {
            Connecting::Undecided { target, timeout: limit, .. } => target.is_for(
                project_id,
                instance_name,
                client_type,
            ) && limit == timeout,
            Connecting::Unauthenticated { target, timeout: limit, .. } => target.is_for(
                project_id,
                instance_name,
                client_type,
            ) && limit == timeout,
            Connecting::Configured { target, config } => target.is_for(
                project_id,
                instance_name,
                client_type,
            ) && config.timeout == timeout,
            Connecting::Uncertified { target, config } => target.is_for(
                project_id,
                instance_name,
                client_type,
            ) && config.timeout == timeout,
            Connecting::Unprovided { target, timeout: limit, .. } => target.is_for(
                project_id,
                instance_name,
                client_type,
            ) && limit == timeout,
            Connecting::Planned(plan) => {
                &&& plan.table_prefix@ == crate::table::table_prefix(project_id, instance_name)
                &&& plan.client_type == client_type
                &&& plan.timeout == timeout
            },
            Connecting::InvalidEmulatorAddress => true,
            Connecting::Failed(_) => true,
        }
    }

    /// How many answers it takes at most until the dialogue ends.
    pub open spec fn answers_left(self) -> nat {
        match self {
            Connecting::Undecided { .. } => 5,
            Connecting::Unauthenticated { .. } => 4,
            Connecting::Configured { .. } => 3,
            Connecting::Uncertified { .. } => 2,
            Connecting::Unprovided { .. } => 1,
            _ => 0,
        }
    }
}

impl Target {
    /// Whether this is the given instance and access.
    pub open spec fn is_for(
        self,
        project_id: Seq<char>,
        instance_name: Seq<char>,
        client_type: ClientType,
    ) -> bool {
        &&& self.project_id@ == project_id
        &&& self.instance_name@ == instance_name
        &&& self.client_type == client_type
    }
}

/// A dialogue without its last step is a dialogue.
proof fn lemma_shorter_dialogue<P, E: Fn(Endpoint) -> Endpoint, S>(
    states: Seq<Connecting<P, E, S>>,
    answers: Seq<Answer<P>>,
)
    requires
        is_dialogue(states, answers),
        answers.len() > 0,
    ensures
        is_dialogue(states.drop_last(), answers.drop_last()),
{
    assert forall|i: int| 0 <= i < answers.len() - 1 implies states.drop_last()[i].leads_to(
        #[trigger] answers.drop_last()[i],
        states.drop_last()[i + 1],
    ) by {
        assert(states[i].leads_to(answers[i], states[i + 1]));
    }
}

/// However a dialogue goes, a plan at its end is for the instance, the access and the timeout that
/// it began with. So a table has the same full name over every kind of connection.
pub proof fn dialogue_keeps_its_subject<P, E: Fn(Endpoint) -> Endpoint, S>(
    states: Seq<Connecting<P, E, S>>,
    answers: Seq<Answer<P>>,
    project_id: Seq<char>,
    instance_name: Seq<char>,
    client_type: ClientType,
    timeout: Option<Duration>,
)
    requires
        is_dialogue(states, answers),
        states[0].concerns(project_id, instance_name, client_type, timeout),
    ensures
        forall|i: int|
            0 <= i < states.len() ==> (#[trigger] states[i]).concerns(
                project_id,
                instance_name,
                client_type,
                timeout,
            ),
    decreases answers.len(),
{
    if answers.len() > 0 {
        let last = answers.len() - 1;
        assert(states[last].leads_to(answers[last], states[last + 1]));
        lemma_shorter_dialogue(states, answers);
        dialogue_keeps_its_subject(
            states.drop_last(),
            answers.drop_last(),
            project_id,
            instance_name,
            client_type,
            timeout,
        );
        assert forall|i: int| 0 <= i < states.len() implies (#[trigger] states[i]).concerns(
            project_id,
            instance_name,
            client_type,
            timeout,
        ) by {
            if i <= last {
                assert(states[i] == states.drop_last()[i]);
            } else {
                assert(states[last] == states.drop_last()[last]);
                assert(states[last].concerns(project_id, instance_name, client_type, timeout));
            }
        }
    }
}

/// Each answer to the open question brings the end nearer, and a dialogue that was given as many
/// such answers as it takes at most has ended.
pub proof fn dialogue_ends<P, E: Fn(Endpoint) -> Endpoint, S>(
    states: Seq<Connecting<P, E, S>>,
    answers: Seq<Answer<P>>,
)
    requires
        is_dialogue(states, answers),
        answers_fit(states, answers),
    ensures
        states.last().answers_left() + answers.len() <= states[0].answers_left(),
        answers.len() == states[0].answers_left() ==> states.last().open_question() is None,
    decreases answers.len(),
{
    if answers.len() > 0 {
        let last = answers.len() - 1;
        assert(states[last].leads_to(answers[last], states[last + 1]));
        lemma_shorter_dialogue(states, answers);
        assert(answers_fit(states.drop_last(), answers.drop_last())) by {
            assert forall|i: int| 0 <= i < last implies (#[trigger] answers.drop_last()[i]).fits(
                states.drop_last()[i].open_question(),
            ) by {
                assert(answers[i].fits(states[i].open_question()));
            }
        }
        dialogue_ends(states.drop_last(), answers.drop_last());
        assert(states.drop_last().last() == states[last]);
        assert(answers[last] == answers.last());
    }
}

/// Wherever the emulator host is asked for, an emulator decides: the plan connects to it, without
/// access tokens, whatever the size of the channel or the rest of the configuration. An address
/// that is not one ends the dialogue without a plan.
pub proof fn emulator_host_decides<P, E: Fn(Endpoint) -> Endpoint, S>(
    state: Connecting<P, E, S>,
    host: String,
    next: Connecting<P, E, S>,
    project_id: Seq<char>,
    instance_name: Seq<char>,
    client_type: ClientType,
    timeout: Option<Duration>,
)
    requires
        state.open_question() == Some(Question::EmulatorHost),
        state.concerns(project_id, instance_name, client_type, timeout),
        state.leads_to(Answer::EmulatorHost(Some(host)), next),
    ensures
        crate::endpoint::emulator_address(host@) ==> (next matches Connecting::Planned(plan)
            && is_emulator_plan(
            plan,
            host@,
            project_id,
            instance_name,
            client_type,
            timeout,
        )),
        !crate::endpoint::emulator_address(host@) ==> next is InvalidEmulatorAddress,
        !"unix://"@.is_prefix_of(host@) ==> match crate::outside::parsed_uri("http://"@ + host@) {
            Some(uri) => next matches Connecting::Planned(plan) && (
            plan.channel matches ChannelPlan::Single(endpoint)
                && crate::outside::endpoint_settings(endpoint) == (EndpointSettings {
                    address: crate::outside::Address::Uri(uri),
                    concurrency_limit: None,
                    tls: None,
                    http2_keep_alive_interval: Some(crate::outside::duration_from_secs(60)),
                    keep_alive_while_idle: Some(true),
                    timeout: timeout,
                })),
            None => next is InvalidEmulatorAddress,
        },
{
}

/// Without an emulator, and with a token provider found, a connection that began with
/// [`BigTableConnection::new`] goes on as one that began with
/// [`BigTableConnection::new_with_token_provider`].
pub proof fn default_provider_is_a_token_provider<P, E: Fn(Endpoint) -> Endpoint, S>(
    target: Target,
    channel_size: usize,
    timeout: Option<Duration>,
    token_provider: P,
    asked: Connecting<P, E, S>,
    provided: Connecting<P, E, S>,
)
    requires
        (Connecting::<P, E, S>::Undecided { target, channel_size, timeout }).leads_to(
            Answer::EmulatorHost(None),
            asked,
        ),
        asked.leads_to(Answer::TokenProvider(Ok(token_provider)), provided),
    ensures
        provided == (Connecting::<P, E, S>::Configured {
            target,
            config: provider_config(channel_size, timeout, token_provider),
        }),
        provided == (Connecting::<P, E, S>::Configured {
            target,
            config: Config {
                concurrency_limit: 100,
                timeout,
                max_grpc_connections: channel_size,
                token_provider: Some(token_provider),
                endpoint_cb: None,
                tonic_cb: None,
            },
        }),
{
}

/// Without an emulator, a configured connection that gets a usable root certificate, and a token
/// provider where the configuration has none, is planned over as many endpoints of the service as
/// the configuration asks for, at least one, and with that provider. The provider of the
/// configuration is preferred.
pub proof fn service_connection_is_planned<P, E: Fn(Endpoint) -> Endpoint, S>(
    target: Target,
    config: Config<P, E, S>,
    certificate: Vec<u8>,
    found: P,
    uncertified: Connecting<P, E, S>,
    certified: Connecting<P, E, S>,
    planned: Connecting<P, E, S>,
)
    requires
        (Connecting::<P, E, S>::Configured { target, config }).leads_to(
            Answer::EmulatorHost(None),
            uncertified,
        ),
        uncertified.leads_to(Answer::RootCertificate(certificate), certified),
        certified.leads_to(Answer::TokenProvider(Ok(found)), planned),
        crate::outside::tls_accepted(certificate@, crate::endpoint::SERVICE_DOMAIN@),
    ensures
        config.token_provider is Some ==> planned == certified,
        planned matches Connecting::Planned(plan) && {
            &&& plan.channel matches ChannelPlan::Balanced(endpoints)
                && crate::endpoint::are_service_endpoints(endpoints@, config, certificate@)
                && endpoints@.len() >= 1
            &&& plan.token_provider == match config.token_provider {
                Some(given) => Some(given),
                None => Some(found),
            }
            &&& plan.client_type == target.client_type
            &&& plan.tonic_cb == config.tonic_cb
            &&& plan.timeout == config.timeout
        },
{
    let endpoints = choose|endpoints: Vec<Endpoint>|
        crate::endpoint::are_service_endpoints(endpoints@, config, certificate@)
            && #[trigger] is_certified(certified, target, config, endpoints);
    assert(is_certified(certified, target, config, endpoints));
}

/// Without an emulator, a configured connection that gets a root certificate of which no TLS
/// configuration can be made fails with the failure that setting it up returned. No answer changes
/// that.
pub proof fn refused_certificate_fails<P, E: Fn(Endpoint) -> Endpoint, S>(
    target: Target,
    config: Config<P, E, S>,
    certificate: Vec<u8>,
    answer: Answer<P>,
    uncertified: Connecting<P, E, S>,
    failed: Connecting<P, E, S>,
    next: Connecting<P, E, S>,
)
    requires
        (Connecting::<P, E, S>::Configured { target, config }).leads_to(
            Answer::EmulatorHost(None),
            uncertified,
        ),
        uncertified.leads_to(Answer::RootCertificate(certificate), failed),
        failed.leads_to(answer, next),
        !crate::outside::tls_accepted(certificate@, crate::endpoint::SERVICE_DOMAIN@),
    ensures
        failed matches Connecting::Failed(Error::TransportError(failure))
            && crate::endpoint::is_tls_failure(failure, config.concurrency_limit, certificate),
        next == failed,
{
}

/// A client asks for the scope of the access that the dialogue began with, and keeps the prefix of
/// the instance and the timeout.
pub proof fn client_keeps_its_subject<
    P,
    E,
    S: FnOnce(ServiceBuilder<Identity>) -> ServiceBuilder<Identity>,
>(
    plan: ConnectionPlan<P, S>,
    client: PlannedClient<P>,
    project_id: Seq<char>,
    instance_name: Seq<char>,
    client_type: ClientType,
    timeout: Option<Duration>,
)
    requires
        Connecting::<P, E, S>::Planned(plan).concerns(
            project_id,
            instance_name,
            client_type,
            timeout,
        ),
        is_planned_client(plan, client),
    ensures
        client.settings.scopes@ == crate::config::scope_of(client_type),
        client.settings.scopes@ == match client_type {
            ClientType::ReadOnly => "https://www.googleapis.com/auth/bigtable.data.readonly"@,
            ClientType::ReadWrite => "https://www.googleapis.com/auth/bigtable.data"@,
            ClientType::Admin => "https://www.googleapis.com/auth/bigtable.admin"@,
        },
        client.settings.token_provider == plan.token_provider,
        client.channel == plan.channel,
        client.table_prefix@ == crate::table::table_prefix(project_id, instance_name),
        client.table_prefix@
            == "projects/"@ + project_id + "/instances/"@ + instance_name + "/tables/"@,
        client.timeout == timeout,
{
}

/// The requests to an emulator carry no access token, and pass through no layer of the user's.
pub proof fn emulator_client_is_plain<
    P,
    S: FnOnce(ServiceBuilder<Identity>) -> ServiceBuilder<Identity>,
>(
    plan: ConnectionPlan<P, S>,
    client: PlannedClient<P>,
    address: Seq<char>,
    project_id: Seq<char>,
    instance_name: Seq<char>,
    client_type: ClientType,
    timeout: Option<Duration>,
)
    requires
        is_emulator_plan(plan, address, project_id, instance_name, client_type, timeout),
        is_planned_client(plan, client),
    ensures
        crate::endpoint::is_emulator_channel(client.channel, address, timeout),
        client.settings.token_provider is None,
        crate::client::is_adapted_builder(None::<S>, client.settings.builder),
{
}

} // verus!
