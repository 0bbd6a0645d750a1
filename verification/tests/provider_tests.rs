use playit_operator::crd::{default_port_count, PlayitTunnelSpec, Protocol};
use playit_operator::error::Error;
use playit_operator::provider::dryrun::DryRunProvider;
use playit_operator::provider::playit::{
    build_protocol, check_target, data_error, decode_answer, read_error, transport_error, config_request, create_request, custom_domain_ready,
    decode_envelope, delete_request, find_named, find_with_id, host_part, local_config,
    plan_delete, plan_ensure, report_created, require_self_managed, tunnel_name, AgentPermissions,
    AgentRunDataV1, AgentTunnelAttr, AgentTunnelConfig, AgentTunnelV1, EndpointCreate, Envelope,
    EnsurePlan, OriginCreate, PlayitCredential, ProtocolCreate,
};
use playit_operator::provider::DesiredTunnel;

fn spec() -> PlayitTunnelSpec {
    PlayitTunnelSpec {
        protocol: Protocol::Udp,
        service_name: "minecraft".to_string(),
        port: 25565,
        port_count: 1,
        region: Some("eu-central".to_string()),
        custom_domain: None,
    }
}

fn desired(key: &str, target: &str, port: u16) -> DesiredTunnel {
    DesiredTunnel {
        key: key.to_string(),
        protocol: Protocol::Tcp,
        port,
        port_count: 1,
        region: None,
        custom_domain: None,
        local_target: target.to_string(),
        tunnel_type: None,
    }
}

fn attr(name: &str, value: &str) -> AgentTunnelAttr {
    AgentTunnelAttr { name: name.to_string(), value: value.to_string() }
}

fn tunnel(id: &str, name: Option<&str>, addr: Option<&str>, ip: &str, port: &str) -> AgentTunnelV1 {
    AgentTunnelV1 {
        id: id.to_string(),
        name: name.map(|s| s.to_string()),
        display_address: addr.map(|s| s.to_string()),
        agent_config: AgentTunnelConfig { fields: vec![attr("local_ip", ip), attr("local_port", port)] },
    }
}

fn rundata(tunnels: Vec<AgentTunnelV1>, self_managed: bool) -> AgentRunDataV1 {
    AgentRunDataV1 {
        agent_id: "agent-1".to_string(),
        tunnels,
        permissions: AgentPermissions { is_self_managed: self_managed },
    }
}

fn provider_message(e: Error) -> String {
    match e {
        Error::Provider(m) => m,
        _ => panic!("expected a provider error"),
    }
}

const NOT_SELF_MANAGED: &str = "this playit agent is not self-managed, so it can't create or modify tunnels. Claim a self-managed agent (agent_type=self-managed) and give the operator its key via PLAYIT_AGENT_KEY.";

#[test]
fn from_spec_copies_the_spec() {
    let s = spec();
    let d = DesiredTunnel::from_spec("default/minecraft".to_string(), &s, "10.0.0.5".to_string());
    assert_eq!(d.key, "default/minecraft");
    assert_eq!(d.protocol, Protocol::Udp);
    assert_eq!(d.port, 25565);
    assert_eq!(d.port_count, 1);
    assert_eq!(d.region.as_deref(), Some("eu-central"));
    assert_eq!(d.custom_domain, None);
    assert_eq!(d.local_target, "10.0.0.5");
    assert_eq!(d.tunnel_type, None);
}

#[test]
fn spec_defaults() {
    assert_eq!(default_port_count(), 1);
    assert_eq!(Protocol::default(), Protocol::Tcp);
}

#[test]
fn slug_replaces_and_trims() {
    assert_eq!(DryRunProvider::slug("default/minecraft"), "default-minecraft");
    assert_eq!(DryRunProvider::slug("--a.b--"), "a-b");
    assert_eq!(DryRunProvider::slug("///"), "");
    assert_eq!(DryRunProvider::slug(""), "");
    assert_eq!(DryRunProvider::slug("ns/My_App9"), "ns-My-App9");
    assert_eq!(DryRunProvider::slug("\u{f1}/x"), "x");
}

#[test]
fn slug_law_on_values() {
    for key in ["/a/", "x--y", "-", "A.b.C", "\u{e9}t\u{e9}/z"] {
        let s = DryRunProvider::slug(key);
        assert!(s.chars().all(|c| c.is_ascii_alphanumeric() || c == '-'));
        assert!(!s.starts_with('-') && !s.ends_with('-'));
    }
}

#[test]
fn dry_run_ensure_reports_synthetic_tunnel() {
    let p = DryRunProvider::default();
    let mut d = desired("default/minecraft", "10.0.0.5", 25565);
    let t = p.ensure(&d).ok().unwrap();
    assert_eq!(t.tunnel_id, "dryrun-default-minecraft");
    assert_eq!(t.address, "default-minecraft.dryrun.playit.gg:25565");
    assert!(!t.custom_domain_ready);
    d.custom_domain = Some("play.example.com".to_string());
    d.port = 0;
    let t = p.ensure(&d).ok().unwrap();
    assert_eq!(t.address, "default-minecraft.dryrun.playit.gg:0");
    assert!(t.custom_domain_ready);
}

#[test]
fn dry_run_is_deterministic_and_delete_succeeds() {
    let p = DryRunProvider;
    let d = desired("a/b", "x", 7);
    let t1 = p.ensure(&d).ok().unwrap();
    let t2 = p.ensure(&d).ok().unwrap();
    assert_eq!(t1.tunnel_id, t2.tunnel_id);
    assert_eq!(t1.address, t2.address);
    assert!(p.delete("a/b").is_ok());
    assert!(p.delete("a/b").is_ok());
}

#[test]
fn header_values_trim_the_key() {
    assert_eq!(PlayitCredential::AgentKey("  secret\n".to_string()).header_value(), "Agent-Key secret");
    assert_eq!(PlayitCredential::ApiKey("k".to_string()).header_value(), "Api-Key k");
    assert_eq!(PlayitCredential::ApiKey(" \t ".to_string()).header_value(), "Api-Key ");
}

#[test]
fn tunnel_names_prefix_the_key() {
    assert_eq!(tunnel_name("default/minecraft"), "k8s/default/minecraft");
    assert_eq!(tunnel_name(""), "k8s/");
    assert_ne!(tunnel_name("a/b"), tunnel_name("a/c"));
}

#[test]
fn local_config_and_field_round_trip() {
    let c = local_config("10.0.0.5", 8080);
    assert_eq!(c.fields.len(), 2);
    assert_eq!(c.fields[0].name, "local_ip");
    assert_eq!(c.fields[0].value, "10.0.0.5");
    assert_eq!(c.fields[1].name, "local_port");
    assert_eq!(c.fields[1].value, "8080");
    let t = AgentTunnelV1 { id: "t".to_string(), name: None, display_address: None, agent_config: c };
    assert_eq!(t.field("local_ip"), Some("10.0.0.5"));
    assert_eq!(t.field("local_port"), Some("8080"));
    assert_eq!(t.field("other"), None);
}

#[test]
fn field_takes_the_first_match() {
    let t = AgentTunnelV1 {
        id: "t".to_string(),
        name: None,
        display_address: None,
        agent_config: AgentTunnelConfig { fields: vec![attr("a", "1"), attr("a", "2")] },
    };
    assert_eq!(t.field("a"), Some("1"));
}

#[test]
fn protocols() {
    let mut d = desired("k", "1.2.3.4", 1);
    d.protocol = Protocol::Udp;
    d.port_count = 0;
    match build_protocol(&d) {
        ProtocolCreate::RawPorts(r) => {
            assert_eq!(r.port_type, "udp");
            assert_eq!(r.port_count, 1);
            assert_eq!(r.software_description, "playit-operator");
        },
        _ => panic!("expected raw ports"),
    }
    d.protocol = Protocol::Both;
    d.port_count = 5;
    match build_protocol(&d) {
        ProtocolCreate::RawPorts(r) => {
            assert_eq!(r.port_type, "both");
            assert_eq!(r.port_count, 5);
        },
        _ => panic!("expected raw ports"),
    }
    d.tunnel_type = Some("https".to_string());
    match build_protocol(&d) {
        ProtocolCreate::TunnelType(t) => assert_eq!(t, "https"),
        _ => panic!("expected a tunnel type"),
    }
}

#[test]
fn custom_domain_readiness() {
    let mut d = desired("k", "1.2.3.4", 1);
    let t = tunnel("t", None, Some("play.example.com:25565"), "1.2.3.4", "1");
    assert!(!custom_domain_ready(&d, &t));
    d.custom_domain = Some("play.example.com".to_string());
    assert!(custom_domain_ready(&d, &t));
    let t2 = tunnel("t", None, Some("147.185.221.3:25565"), "1.2.3.4", "1");
    assert!(!custom_domain_ready(&d, &t2));
    let t3 = tunnel("t", None, Some("play.example.com"), "1.2.3.4", "1");
    assert!(custom_domain_ready(&d, &t3));
    let t4 = tunnel("t", None, None, "1.2.3.4", "1");
    assert!(!custom_domain_ready(&d, &t4));
    assert_eq!(host_part("a:b:c"), "a");
    assert_eq!(host_part(":x"), "");
}

#[test]
fn self_managed_guard() {
    assert!(require_self_managed(&rundata(vec![], true)).is_ok());
    let e = require_self_managed(&rundata(vec![], false)).err().unwrap();
    assert_eq!(provider_message(e), NOT_SELF_MANAGED);
}

#[test]
fn target_must_be_an_ip() {
    let d = desired("k", "svc.ns.svc.cluster.local", 1);
    assert!(check_target(&d, true).is_ok());
    let e = check_target(&d, false).err().unwrap();
    assert_eq!(
        provider_message(e),
        "resolved local_ip `svc.ns.svc.cluster.local` is not an IP address \u{2014} playit forwards to a ClusterIP, so headless Services (clusterIP: None) aren't supported"
    );
}

#[test]
fn requests() {
    let mut d = desired("default/mc", "10.0.0.5", 25565);
    let req = create_request(&d, "agent-1");
    assert_eq!(req.name, "k8s/default/mc");
    assert!(req.enabled);
    assert!(req.firewall_id.is_none());
    match &req.origin {
        OriginCreate::Agent(o) => {
            assert_eq!(o.agent_id.as_deref(), Some("agent-1"));
            assert_eq!(o.config.fields[0].value, "10.0.0.5");
            assert_eq!(o.config.fields[1].value, "25565");
        },
    }
    match &req.endpoint {
        EndpointCreate::Region(u) => {
            assert_eq!(u.region, "global");
            assert!(u.port.is_none());
        },
    }
    d.region = Some("eu-central".to_string());
    match create_request(&d, "a").endpoint {
        EndpointCreate::Region(u) => assert_eq!(u.region, "eu-central"),
    }
    let c = config_request("tid", &d);
    assert_eq!(c.tunnel_id, "tid");
    assert!(c.new_agent_id.is_none());
    assert_eq!(c.new_config.unwrap().fields[1].value, "25565");
    assert_eq!(delete_request("tid").tunnel_id, "tid");
}

#[test]
fn finding_tunnels() {
    let ts = vec![
        tunnel("1", None, None, "a", "1"),
        tunnel("2", Some("k8s/x"), None, "a", "1"),
        tunnel("3", Some("k8s/x"), None, "a", "1"),
    ];
    assert_eq!(find_named(&ts, "k8s/x"), Some(1));
    assert_eq!(find_named(&ts, "k8s/y"), None);
    assert_eq!(find_with_id(&ts, "3"), Some(2));
    assert_eq!(find_with_id(&ts, "4"), None);
}

#[test]
fn ensure_creates_a_missing_tunnel() {
    let d = desired("default/mc", "10.0.0.5", 25565);
    match plan_ensure(&d, &rundata(vec![tunnel("o", Some("k8s/other"), None, "a", "1")], true)) {
        Ok(EnsurePlan::Create(req)) => assert_eq!(req.name, "k8s/default/mc"),
        _ => panic!("expected a create"),
    }
    let e = plan_ensure(&d, &rundata(vec![], false)).err().unwrap();
    assert_eq!(provider_message(e), NOT_SELF_MANAGED);
}

#[test]
fn ensure_reports_an_up_to_date_tunnel_without_writing() {
    let d = desired("default/mc", "10.0.0.5", 25565);
    let rd = rundata(
        vec![tunnel("t1", Some("k8s/default/mc"), Some("host.example:1234"), "10.0.0.5", "25565")],
        false,
    );
    match plan_ensure(&d, &rd) {
        Ok(EnsurePlan::Existing { tunnel, reconfigure }) => {
            assert_eq!(tunnel.tunnel_id, "t1");
            assert_eq!(tunnel.address, "host.example:1234");
            assert!(!tunnel.custom_domain_ready);
            assert!(reconfigure.is_none());
        },
        _ => panic!("expected an existing tunnel"),
    }
}

#[test]
fn ensure_is_idempotent_after_create() {
    let d = desired("default/mc", "10.0.0.5", 25565);
    let req = match plan_ensure(&d, &rundata(vec![], true)) {
        Ok(EnsurePlan::Create(req)) => req,
        _ => panic!("expected a create"),
    };
    let config = match req.origin {
        OriginCreate::Agent(o) => o.config,
    };
    let created = AgentTunnelV1 {
        id: "new".to_string(),
        name: Some(req.name.clone()),
        display_address: None,
        agent_config: config,
    };
    match plan_ensure(&d, &rundata(vec![created], true)) {
        Ok(EnsurePlan::Existing { tunnel, reconfigure }) => {
            assert_eq!(tunnel.tunnel_id, "new");
            assert_eq!(tunnel.address, "");
            assert!(reconfigure.is_none());
        },
        _ => panic!("expected the created tunnel"),
    }
}

#[test]
fn ensure_reconfigures_a_drifted_tunnel() {
    let d = desired("default/mc", "10.0.0.6", 25565);
    let rd = rundata(vec![tunnel("t1", Some("k8s/default/mc"), None, "10.0.0.5", "25565")], true);
    match plan_ensure(&d, &rd) {
        Ok(EnsurePlan::Existing { tunnel, reconfigure }) => {
            assert_eq!(tunnel.tunnel_id, "t1");
            let req = reconfigure.unwrap();
            assert_eq!(req.tunnel_id, "t1");
            assert_eq!(req.new_config.unwrap().fields[0].value, "10.0.0.6");
        },
        _ => panic!("expected a reconfigure"),
    }
    let rd = rundata(vec![tunnel("t1", Some("k8s/default/mc"), None, "10.0.0.6", "80")], false);
    let e = plan_ensure(&d, &rd).err().unwrap();
    assert_eq!(provider_message(e), NOT_SELF_MANAGED);
}

#[test]
fn report_after_create() {
    let mut d = desired("default/mc", "10.0.0.5", 25565);
    d.custom_domain = Some("play.example.com".to_string());
    let rd = rundata(vec![tunnel("new", None, Some("play.example.com:25565"), "a", "1")], true);
    let p = report_created(&d, "new".to_string(), &rd);
    assert_eq!(p.tunnel_id, "new");
    assert_eq!(p.address, "play.example.com:25565");
    assert!(p.custom_domain_ready);
    let p = report_created(&d, "missing".to_string(), &rd);
    assert_eq!(p.tunnel_id, "missing");
    assert_eq!(p.address, "");
    assert!(!p.custom_domain_ready);
}

#[test]
fn delete_plans() {
    let rd = rundata(vec![tunnel("t1", Some("k8s/default/mc"), None, "a", "1")], true);
    assert_eq!(plan_delete("default/mc", &rd).ok().unwrap().unwrap().tunnel_id, "t1");
    assert!(plan_delete("default/other", &rd).ok().unwrap().is_none());
    let rd = rundata(vec![tunnel("t1", Some("k8s/default/mc"), None, "a", "1")], false);
    let e = plan_delete("default/mc", &rd).err().unwrap();
    assert_eq!(provider_message(e), NOT_SELF_MANAGED);
    assert!(plan_delete("default/gone", &rd).ok().unwrap().is_none());
}

#[test]
fn envelopes() {
    let ok: Envelope<u32> = Envelope {
        status: Some("success".to_string()),
        data: Some(7),
        error_type: None,
        error_message: None,
    };
    assert_eq!(decode_envelope("/v1/agents/rundata", ok).ok().unwrap(), Some(7));
    let err: Envelope<u32> = Envelope {
        status: Some("error".to_string()),
        data: None,
        error_type: Some("NotAuthorized".to_string()),
        error_message: Some("bad key".to_string()),
    };
    let e = decode_envelope("/v1/tunnels/create", err).err().unwrap();
    assert_eq!(provider_message(e), "playit /v1/tunnels/create: NotAuthorized \u{2014} bad key");
    let bare: Envelope<u32> = Envelope { status: None, data: Some(1), error_type: None, error_message: None };
    let e = decode_envelope("/p", bare).err().unwrap();
    assert_eq!(provider_message(e), "playit /p: unknown \u{2014} ");
}

#[test]
fn answers() {
    let ok = r#"{"status":"success","data":{"id":"t1"}}"#;
    let data = decode_answer("/v1/tunnels/create", ok).ok().unwrap().unwrap();
    assert_eq!(data["id"], "t1");
    assert!(decode_answer("/p", r#"{"status":"success"}"#).ok().unwrap().is_none());
    let err = r#"{"status":"error","data":{"type":"NotAuthorized","message":"bad key"}}"#;
    assert_eq!(
        provider_message(decode_answer("/v1/tunnels/config", err).err().unwrap()),
        "playit /v1/tunnels/config: NotAuthorized \u{2014} bad key"
    );
    assert_eq!(
        provider_message(decode_answer("/p", r#"{"status":7,"data":{"type":3}}"#).err().unwrap()),
        "playit /p: unknown \u{2014} "
    );
    let m = provider_message(decode_answer("/v1/agents/rundata", "<html>").err().unwrap());
    let parse = serde_json::from_str::<serde_json::Value>("<html>").err().unwrap().to_string();
    assert_eq!(m, format!("decoding /v1/agents/rundata response: {parse}; body=<html>"));
    assert!(m.len() > "decoding /v1/agents/rundata response: ; body=<html>".len());
}

#[test]
fn call_failure_messages() {
    assert_eq!(provider_message(transport_error("/p", "refused")), "HTTP /p: refused");
    assert_eq!(provider_message(read_error("/p", "eof")), "reading /p response: eof");
    assert_eq!(provider_message(data_error("/p", "missing field `id`")), "decoding /p data: missing field `id`");
}
