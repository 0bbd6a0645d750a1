use playit_operator::claim::{
    claim_call_result, claim_progress, claim_timed_out, exchange_secret, setup_progress, contains, hex, to_ascii_lower, ClaimProgress,
};
use playit_operator::error::Error;
use playit_operator::provider::playit::{Envelope, PlayitCredential};
use playit_operator::startup::{choose_provider, ProviderChoice};
use playit_operator::text::{decimal_string, str_eq};

#[test]
fn decimal_rendering() {
    assert_eq!(decimal_string(0), "0");
    assert_eq!(decimal_string(7), "7");
    assert_eq!(decimal_string(10), "10");
    assert_eq!(decimal_string(25565), "25565");
    assert_eq!(decimal_string(65535), "65535");
}

#[test]
fn hex_encoding() {
    assert_eq!(hex(&[]), "");
    assert_eq!(hex(&[0x00, 0xff, 0x0a, 0xb1]), "00ff0ab1");
    let code = hex(&[1, 2, 3, 4, 5, 6, 7, 8]);
    assert_eq!(code.len(), 16);
    assert!(code.chars().all(|c| c.is_ascii_digit() || ('a'..='f').contains(&c)));
}

#[test]
fn lowercase_and_search() {
    assert_eq!(to_ascii_lower("AbC-\u{c9}"), vec!['a', 'b', 'c', '-', '\u{c9}']);
    let v: Vec<char> = "waitingforuser".chars().collect();
    assert!(contains(&v, "user"));
    assert!(contains(&v, ""));
    assert!(!contains(&v, "accept"));
    assert!(!contains(&vec!['a'], "ab"));
    assert!(str_eq("abc", "abc"));
    assert!(!str_eq("abc", "abd"));
}

#[test]
fn claim_progress_reading() {
    assert_eq!(claim_progress(&Some("UserAccepted".to_string())), ClaimProgress::Accepted);
    assert_eq!(claim_progress(&Some("UserRejected".to_string())), ClaimProgress::Rejected);
    assert_eq!(claim_progress(&Some("WaitingForUserVisit".to_string())), ClaimProgress::Pending);
    assert_eq!(claim_progress(&None), ClaimProgress::Pending);
}

#[test]
fn claim_call_outcomes() {
    let ok: Envelope<u8> = Envelope { status: Some("success".to_string()), data: None, error_type: None, error_message: None };
    assert_eq!(claim_call_result("/claim/setup", ok, "{}").ok().unwrap(), None);
    let err: Envelope<u8> = Envelope {
        status: Some("error".to_string()),
        data: None,
        error_type: Some("InvalidCode".to_string()),
        error_message: None,
    };
    assert_eq!(
        claim_call_result("/claim/exchange", err, "{\"status\":\"error\"}").err().unwrap(),
        "playit /claim/exchange: InvalidCode  (raw: {\"status\":\"error\"})"
    );
}

#[test]
fn provider_selection() {
    let s = |v: &str| Some(v.to_string());
    assert!(matches!(choose_provider(&None, s("k"), None), ProviderChoice::DryRun));
    assert!(matches!(choose_provider(&s("dry-run"), s("k"), None), ProviderChoice::DryRun));
    match choose_provider(&s("playit"), s("agent"), s("api")) {
        ProviderChoice::Playit(PlayitCredential::AgentKey(k)) => assert_eq!(k, "agent"),
        _ => panic!("expected the agent key"),
    }
    match choose_provider(&s("playit"), None, s("api")) {
        ProviderChoice::Playit(PlayitCredential::ApiKey(k)) => assert_eq!(k, "api"),
        _ => panic!("expected the api key"),
    }
    assert!(matches!(choose_provider(&s("playit"), None, None), ProviderChoice::MissingCredential));
}

#[test]
fn error_messages() {
    assert_eq!(
        Error::ServiceNotFound("mc".to_string(), "ns".to_string()).to_text(),
        "target Service `mc` not found in namespace `ns`"
    );
    assert_eq!(Error::MissingField("metadata.namespace").to_text(), "resource is missing required field: metadata.namespace");
    assert_eq!(Error::Provider("x".to_string()).to_text(), "playit provider error: x");
    assert_eq!(Error::NotImplemented("delete").to_text(), "provider operation not yet implemented: delete");
    let json_err = serde_json::from_str::<serde_json::Value>("{").err().unwrap();
    let text = Error::Serde(json_err).to_text();
    assert!(text.starts_with("serialization error: "));
    assert!(text.len() > "serialization error: ".len());
    let kube_err = kube::Error::LinesCodecMaxLineLengthExceeded;
    assert_eq!(Error::Kube(kube_err).to_text(), "Kubernetes API error: Error finding newline character");
}

#[test]
fn claim_timeout() {
    assert!(!claim_timed_out(0));
    assert!(!claim_timed_out(299));
    assert!(claim_timed_out(300));
    assert!(claim_timed_out(u64::MAX));
}

#[test]
fn claim_answers_data() {
    let v: serde_json::Value = serde_json::from_str(r#"{"secret_key":"abc123"}"#).unwrap();
    assert_eq!(exchange_secret(&v).ok().unwrap(), "abc123");
    let v: serde_json::Value = serde_json::from_str(r#"{"secret_key":5}"#).unwrap();
    assert_eq!(exchange_secret(&v).err().unwrap(), "no secret_key in exchange response: {\"secret_key\":5}");
    let v = serde_json::Value::String("UserAccepted".to_string());
    assert_eq!(setup_progress(&v), ClaimProgress::Accepted);
    assert_eq!(setup_progress(&serde_json::Value::Null), ClaimProgress::Pending);
}

#[test]
fn error_conversions() {
    let json_err = serde_json::from_str::<serde_json::Value>("{").err().unwrap();
    let shown = json_err.to_string();
    let e: Error = json_err.into();
    assert_eq!(e.to_text(), format!("serialization error: {shown}"));
    let e: Error = kube::Error::LinesCodecMaxLineLengthExceeded.into();
    assert!(matches!(e, Error::Kube(_)));
    let r: playit_operator::error::Result<u8> = Ok(1);
    assert_eq!(r.ok(), Some(1));
}
