//! What a client is built with, once the channel is open.
use crate::config::ClientType;
use tower::layer::util::Identity;
use tower::ServiceBuilder;
use vstd::prelude::*;

verus! {

/// The largest message that a client sends or accepts: 64 MB.
pub const MAX_MESSAGE_SIZE: usize = 64 * 1024 * 1024;

/// What a client is built with. `P` provides access tokens.
pub struct ClientSettings<P> {
    /// The service layers that lie around the authentication layer.
    pub builder: ServiceBuilder<Identity>,
    /// Where the authentication layer gets its tokens. Without it, requests carry none.
    pub token_provider: Option<P>,
    /// The OAuth scope that the authentication layer asks for.
    pub scopes: String,
    pub max_decoding_message_size: usize,
    pub max_encoding_message_size: usize,
}

/// Whether `builder` is a new builder, or what `adapter` makes of a new builder.
pub open spec fn is_adapted_builder<
    S: FnOnce(ServiceBuilder<Identity>) -> ServiceBuilder<Identity>,
>(
    adapter: Option<S>,
    builder: ServiceBuilder<Identity>,
) -> bool {
    match adapter {
        Some(adapter) => exists|new: ServiceBuilder<Identity>|
            call_ensures(ServiceBuilder::<Identity>::new, (), new) && #[trigger] adapter.ensures(
                (new,),
                builder,
            ),
        None => call_ensures(ServiceBuilder::<Identity>::new, (), builder),
    }
}

/// Whether `adapter`, if there is one, takes any builder.
pub open spec fn takes_any_builder<
    S: FnOnce(ServiceBuilder<Identity>) -> ServiceBuilder<Identity>,
>(
    adapter: Option<S>,
) -> bool {
    adapter matches Some(adapter) ==> forall|builder: ServiceBuilder<Identity>| #[trigger]
        adapter.requires((builder,))
}

/// Settles what a client is built with. The adapter is applied before any layer is added.
pub fn create_client<P, S: FnOnce(ServiceBuilder<Identity>) -> ServiceBuilder<Identity>>(
    token_provider: Option<P>,
    client_type: ClientType,
    cb: Option<S>,
) -> (res: ClientSettings<P>)
    requires
        takes_any_builder(cb),
    ensures
        is_adapted_builder(cb, res.builder),
        res.token_provider == token_provider,
        res.scopes@ == crate::config::scope_of(client_type),
        res.scopes@ == match client_type {
            ClientType::ReadOnly => "https://www.googleapis.com/auth/bigtable.data.readonly"@,
            ClientType::ReadWrite => "https://www.googleapis.com/auth/bigtable.data"@,
            ClientType::Admin => "https://www.googleapis.com/auth/bigtable.admin"@,
        },
        match cb {
            Some(adapter) => exists|new: ServiceBuilder<Identity>|
                #[trigger] call_ensures(ServiceBuilder::<Identity>::new, (), new)
                    && adapter.ensures((new,), res.builder),
            None => call_ensures(ServiceBuilder::<Identity>::new, (), res.builder),
        },
        res.max_decoding_message_size == 67108864,
        res.max_encoding_message_size == 67108864,
{
    let new = ServiceBuilder::new();
    let builder = match cb {
        Some(adapter) => adapter(new),
        None => new,
    };
    ClientSettings {
        builder,
        token_provider,
        scopes: client_type.scopes().to_owned(),
        max_decoding_message_size: MAX_MESSAGE_SIZE,
        max_encoding_message_size: MAX_MESSAGE_SIZE,
    }
}

} // verus!
