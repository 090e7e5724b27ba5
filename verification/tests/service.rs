use replica_proxy::auth::{AuthContext, AuthStrategy, AuthenticatedIdentity, Verdict};
use replica_proxy::gate::ForwardingGate;
use replica_proxy::service::ReplicaProxyService;

/// Lets everybody in, and has a name to be known by.
#[derive(Debug, PartialEq)]
struct Open {
    name: &'static str,
}

impl AuthStrategy for Open {
    fn authenticate(&self, _context: &AuthContext) -> Verdict {
        Ok(AuthenticatedIdentity::new(self.name.as_bytes().to_vec()))
    }
}

fn service(
    disable_namespaces: bool,
) -> (tokio::runtime::Runtime, ReplicaProxyService<Vec<&'static str>, Open>) {
    let runtime = tokio::runtime::Builder::new_current_thread().build().unwrap();
    let service = {
        let _inside = runtime.enter();
        let channel = tonic::transport::Endpoint::from_static("http://127.0.0.1:1").connect_lazy();
        let uri = hyper::Uri::from_static("http://primary.invalid:5001");
        ReplicaProxyService::new(
            channel,
            uri,
            vec!["tenant1", "tenant2"],
            Open { name: "deployment" },
            disable_namespaces,
        )
    };
    (runtime, service)
}

#[test]
fn a_service_keeps_what_it_was_made_with() {
    let (_runtime, service) = service(false);
    assert_eq!(*service.namespaces(), vec!["tenant1", "tenant2"]);
    assert_eq!(*service.user_auth_strategy(), Open { name: "deployment" });
    assert_eq!(service.gate(), ForwardingGate::new(false));
    let _client = service.client().clone();
}

#[test]
fn a_service_remembers_that_namespaces_are_disabled() {
    let (_runtime, service) = service(true);
    assert_eq!(service.gate(), ForwardingGate { disable_namespaces: true });
    assert!(service.gate().disable_namespaces);
}
