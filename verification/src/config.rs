//! What a connection is configured with.
use std::time::Duration;
use vstd::prelude::*;

verus! {

/// The access that a client asks for.
///
/// - `ReadOnly`: to read data
/// - `ReadWrite`: to read and write data (the default)
/// - `Admin`: to administer tables
#[derive(Debug, Clone, Copy, PartialEq, Eq, Structural)]
pub enum ClientType {
    ReadOnly,
    ReadWrite,
    Admin,
}

impl Default for ClientType {
    fn default() -> (res: Self)
        ensures
            res == ClientType::ReadWrite,
    {
        ClientType::ReadWrite
    }
}

/// The OAuth scope that grants the access of a client type.
pub open spec fn scope_of(client_type: ClientType) -> Seq<char> {
    match client_type {
        ClientType::ReadOnly => "https://www.googleapis.com/auth/bigtable.data.readonly"@,
        ClientType::ReadWrite => "https://www.googleapis.com/auth/bigtable.data"@,
        ClientType::Admin => "https://www.googleapis.com/auth/bigtable.admin"@,
    }
}

impl ClientType {
    /// The OAuth scope to ask a token provider for.
    pub fn scopes(&self) -> (res: &'static str)
        ensures
            res@ == scope_of(*self),
            res@ == match *self {
                ClientType::ReadOnly => "https://www.googleapis.com/auth/bigtable.data.readonly"@,
                ClientType::ReadWrite => "https://www.googleapis.com/auth/bigtable.data"@,
                ClientType::Admin => "https://www.googleapis.com/auth/bigtable.admin"@,
            },
    {
        match self {
            ClientType::ReadOnly => "https://www.googleapis.com/auth/bigtable.data.readonly",
            ClientType::ReadWrite => "https://www.googleapis.com/auth/bigtable.data",
            ClientType::Admin => "https://www.googleapis.com/auth/bigtable.admin",
        }
    }
}

/// Configuration for establishing a Bigtable connection.
///
/// `P` provides access tokens, `E` adapts an endpoint, and `S` adapts the stack of service layers.
#[derive(Debug, Clone)]
pub struct Config<P, E, S> {
    pub concurrency_limit: usize,
    pub timeout: Option<Duration>,
    pub max_grpc_connections: usize,
    pub token_provider: Option<P>,
    pub endpoint_cb: Option<E>,
    pub tonic_cb: Option<S>,
}

impl<P, E, S> Default for Config<P, E, S> {
    fn default() -> (res: Self)
        ensures
            res == (Config::<P, E, S> {
                concurrency_limit: 100,
                timeout: None,
                max_grpc_connections: 1,
                token_provider: None,
                endpoint_cb: None,
                tonic_cb: None,
            }),
    {
        Config {
            concurrency_limit: 100,
            timeout: None,
            max_grpc_connections: 1,
            token_provider: None,
            endpoint_cb: None,
            tonic_cb: None,
        }
    }
}

} // verus!
