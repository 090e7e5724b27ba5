//! The service that stands in front of the primary: everything that the
//! handling of a request needs, put together once.

use vstd::prelude::*;
use hyper::Uri;
use libsql_replication::rpc::proxy::proxy_client::ProxyClient;
use tonic::transport::Channel;
use crate::auth::AuthStrategy;
use crate::gate::ForwardingGate;

verus! {

/// A connection of `tonic` to another node. Nothing is known of it here.
#[verifier::external_type_specification]
#[verifier::external_body]
pub struct ExChannel(tonic::transport::Channel);

/// A URI of `hyper`. Nothing is known of it here.
#[verifier::external_type_specification]
#[verifier::external_body]
pub struct ExUri(hyper::Uri);

/// The client of the primary's proxy service. Nothing is known of it here.
#[verifier::external_type_specification]
#[verifier::external_body]
#[verifier::reject_recursive_types(T)]
pub struct ExProxyClient<T>(libsql_replication::rpc::proxy::proxy_client::ProxyClient<T>);

/// `ProxyClient::with_origin`: the client that sends over `channel` and names
/// `uri` as the origin of its calls. Nothing is claimed of the client.
#[verifier::external_body]
fn client_with_origin(channel: Channel, uri: Uri) -> ProxyClient<Channel> {
    ProxyClient::with_origin(channel, uri)
}

/// The proxy service of a replica. `S` is the handle to the namespace store,
/// `A` the strategy of the whole deployment.
pub struct ReplicaProxyService<S, A> {
    client: ProxyClient<Channel>,
    user_auth_strategy: A,
    disable_namespaces: bool,
    namespaces: S,
}

impl<S, A: AuthStrategy> ReplicaProxyService<S, A> {
    /// The store handle that the service was made with.
    pub closed spec fn spec_namespaces(&self) -> &S {
        &self.namespaces
    }

    /// The strategy that the service was made with.
    pub closed spec fn spec_user_auth_strategy(&self) -> &A {
        &self.user_auth_strategy
    }

    /// The machine that decides on the service's requests.
    pub closed spec fn spec_gate(&self) -> ForwardingGate {
        ForwardingGate { disable_namespaces: self.disable_namespaces }
    }

    /// Puts a service together. The client to the primary is made of
    /// `channel` and `uri`; the rest is kept as it is given.
    pub fn new(
        channel: Channel,
        uri: Uri,
        namespaces: S,
        user_auth_strategy: A,
        disable_namespaces: bool,
    ) -> (service: Self)
        ensures
            *service.spec_namespaces() == namespaces,
            *service.spec_user_auth_strategy() == user_auth_strategy,
            service.spec_gate() == (ForwardingGate { disable_namespaces }),
    {
        let client = client_with_origin(channel, uri);
        Self { client, user_auth_strategy, disable_namespaces, namespaces }
    }

    /// The client to the primary. It is cheap to duplicate, and each call
    /// works on a duplicate of its own.
    pub fn client(&self) -> (client: &ProxyClient<Channel>)
        ensures
            client == self.spec_client(),
    {
        &self.client
    }

    /// The client that the service made of its channel and its origin when it
    /// was put together, and has held since.
    pub closed spec fn spec_client(&self) -> &ProxyClient<Channel> {
        &self.client
    }

    #[verifier::when_used_as_spec(spec_namespaces)]
    pub fn namespaces(&self) -> (namespaces: &S)
        ensures
            namespaces == self.spec_namespaces(),
    {
        &self.namespaces
    }

    #[verifier::when_used_as_spec(spec_user_auth_strategy)]
    pub fn user_auth_strategy(&self) -> (strategy: &A)
        ensures
            strategy == self.spec_user_auth_strategy(),
    {
        &self.user_auth_strategy
    }

    #[verifier::when_used_as_spec(spec_gate)]
    pub fn gate(&self) -> (gate: ForwardingGate)
        ensures
            gate == self.spec_gate(),
    {
        ForwardingGate::new(self.disable_namespaces)
    }
}

} // verus!
