use playit_operator::controller::{
    apply_result, cleanup_key, cleanup_result, desired_for, error_policy, finalizer_failure,
    needs_patch, reconcile_namespace, resolve_target, status_update, tunnel_key, Requeue,
    TunnelResource, FINALIZER,
};
use playit_operator::crd::{PlayitTunnelSpec, PlayitTunnelStatus, Protocol};
use playit_operator::error::Error;
use playit_operator::provider::ProvisionedTunnel;

fn resource(ns: Option<&str>, status: Option<PlayitTunnelStatus>) -> TunnelResource {
    TunnelResource {
        namespace: ns.map(|s| s.to_string()),
        name: "minecraft".to_string(),
        generation: Some(3),
        spec: PlayitTunnelSpec {
            protocol: Protocol::Tcp,
            service_name: "mc".to_string(),
            port: 25565,
            port_count: 1,
            region: None,
            custom_domain: Some("play.example.com".to_string()),
        },
        status,
    }
}

fn ready() -> ProvisionedTunnel {
    ProvisionedTunnel {
        tunnel_id: "t1".to_string(),
        address: "1.2.3.4:5".to_string(),
        custom_domain_ready: false,
    }
}

#[test]
fn finalizer_name() {
    assert_eq!(FINALIZER, "playit-operator.io/finalizer");
}

#[test]
fn keys() {
    assert_eq!(tunnel_key("default", "minecraft"), "default/minecraft");
    assert_eq!(cleanup_key(&resource(Some("ns"), None)), "ns/minecraft");
    assert_eq!(cleanup_key(&resource(None, None)), "/minecraft");
}

#[test]
fn namespace_is_required() {
    assert_eq!(reconcile_namespace(&resource(Some("ns"), None)).ok().unwrap(), "ns");
    match reconcile_namespace(&resource(None, None)) {
        Err(Error::MissingField(f)) => assert_eq!(f, "metadata.namespace"),
        _ => panic!("expected a missing field"),
    }
}

#[test]
fn targets() {
    assert_eq!(resolve_target(Some("10.0.0.5".to_string()), "mc", "ns"), "10.0.0.5");
    assert_eq!(resolve_target(Some("None".to_string()), "mc", "ns"), "mc.ns.svc.cluster.local");
    assert_eq!(resolve_target(None, "mc", "ns"), "mc.ns.svc.cluster.local");
}

#[test]
fn desired_from_lookup() {
    let r = resource(Some("default"), None);
    let d = desired_for(&r, "default", Ok(Some(Some("10.0.0.5".to_string())))).ok().unwrap();
    assert_eq!(d.key, "default/minecraft");
    assert_eq!(d.local_target, "10.0.0.5");
    assert_eq!(d.port, 25565);
    assert_eq!(d.custom_domain.as_deref(), Some("play.example.com"));
    let d = desired_for(&r, "default", Ok(Some(None))).ok().unwrap();
    assert_eq!(d.local_target, "mc.default.svc.cluster.local");
    match desired_for(&r, "default", Ok(None)) {
        Err(Error::ServiceNotFound(s, n)) => {
            assert_eq!(s, "mc");
            assert_eq!(n, "default");
        },
        _ => panic!("expected a missing service"),
    }
    match desired_for(&r, "default", Err(Error::Provider("x".to_string()))) {
        Err(Error::Provider(m)) => assert_eq!(m, "x"),
        _ => panic!("expected the lookup's error"),
    }
}

#[test]
fn ready_status_is_written_once() {
    let r = resource(Some("ns"), None);
    let u = status_update(&r, Ok(ready()));
    assert!(u.patch);
    assert_eq!(u.requeue, Requeue::After(300));
    assert_eq!(u.status.phase.as_deref(), Some("Ready"));
    assert_eq!(u.status.tunnel_id.as_deref(), Some("t1"));
    assert_eq!(u.status.address.as_deref(), Some("1.2.3.4:5"));
    assert_eq!(u.status.custom_domain_ready, Some(false));
    assert_eq!(u.status.observed_generation, Some(3));
    assert_eq!(u.status.message.as_deref(), Some("tunnel provisioned"));
    let r2 = resource(Some("ns"), Some(u.status));
    let u2 = status_update(&r2, Ok(ready()));
    assert!(!u2.patch);
    assert_eq!(u2.requeue, Requeue::After(300));
}

#[test]
fn error_status() {
    let r = resource(Some("ns"), None);
    let u = status_update(&r, Err(Error::Provider("boom".to_string())));
    assert!(u.patch);
    assert_eq!(u.requeue, Requeue::After(30));
    assert_eq!(u.status.phase.as_deref(), Some("Error"));
    assert_eq!(u.status.message.as_deref(), Some("playit provider error: boom"));
    assert_eq!(u.status.observed_generation, None);
    assert!(u.status.tunnel_id.is_none() && u.status.address.is_none());
    assert!(u.status.custom_domain_ready.is_none());
    let r2 = resource(Some("ns"), Some(u.status));
    assert!(!status_update(&r2, Err(Error::Provider("boom".to_string()))).patch);
    assert!(status_update(&r2, Err(Error::Provider("other".to_string()))).patch);
}

#[test]
fn patch_decision() {
    let s = PlayitTunnelStatus::default();
    assert!(needs_patch(None, &s));
    assert!(!needs_patch(Some(&PlayitTunnelStatus::default()), &s));
    let mut t = PlayitTunnelStatus::default();
    t.observed_generation = Some(1);
    assert!(needs_patch(Some(&t), &s));
}

#[test]
fn results_and_requeues() {
    let r = resource(Some("ns"), None);
    let u = status_update(&r, Ok(ready()));
    assert_eq!(apply_result(&u, Ok(())).ok().unwrap(), Requeue::After(300));
    assert!(apply_result(&u, Err(Error::Provider("p".to_string()))).is_err());
    assert_eq!(cleanup_result(Ok(())).ok().unwrap(), Requeue::AwaitChange);
    assert!(cleanup_result(Err(Error::NotImplemented("delete"))).is_err());
    assert_eq!(error_policy(&Error::Provider("x".to_string())), Requeue::After(15));
    match finalizer_failure("apply failed".to_string()) {
        Error::Provider(m) => assert_eq!(m, "apply failed"),
        _ => panic!("expected a provider error"),
    }
}

#[test]
fn failed_reconcile_keeps_last_reconciled_generation() {
    // Generation 3 was provisioned; the resource moves to generation 4 and the
    // provider fails: the status keeps 3 as the last reconciled generation.
    let ready_status = status_update(&resource(Some("ns"), None), Ok(ready())).status;
    assert_eq!(ready_status.observed_generation, Some(3));
    let mut r = resource(Some("ns"), Some(ready_status));
    r.generation = Some(4);
    let u = status_update(&r, Err(Error::Provider("down".to_string())));
    assert!(u.patch);
    assert_eq!(u.status.phase.as_deref(), Some("Error"));
    assert_eq!(u.status.observed_generation, Some(3));
    // The same failure again writes nothing.
    let r2 = TunnelResource { status: Some(u.status), ..r };
    assert!(!status_update(&r2, Err(Error::Provider("down".to_string()))).patch);
}
