//! Errors surfaced by the operator during reconciliation.

use vstd::prelude::*;
use kube::Error as KubeError;
use serde_json::Error as JsonError;

verus! {

/// The Kubernetes client's error type, carried through unexamined.
#[verifier::external_type_specification]
#[verifier::external_body]
pub struct ExKubeError(KubeError);

/// serde_json's error type, carried through unexamined.
#[verifier::external_type_specification]
#[verifier::external_body]
pub struct ExSerdeJsonError(JsonError);

/// Errors surfaced by the operator during reconciliation.
#[derive(Debug)]
pub enum Error {
    /// A call to the Kubernetes API failed.
    Kube(KubeError),
    /// The target Service (first field) does not exist in the namespace (second field).
    ServiceNotFound(String, String),
    /// The resource lacks a field that reconciliation needs.
    MissingField(&'static str),
    /// A recoverable failure returned by a tunnel provider.
    Provider(String),
    /// A provider operation that has not been implemented yet.
    NotImplemented(&'static str),
    /// Serializing or deserializing JSON failed.
    Serde(JsonError),
}

/// Crate-wide result type. Defaults its error to `Error`.
pub type Result<T, E = Error> = std::result::Result<T, E>;

/// What `Display` prints for a Kubernetes client error. The text is built by
/// the error type's own formatting from the value alone; where the error wraps
/// an operating-system error, that part is the system's message for its code.
pub uninterp spec fn kube_error_display(e: KubeError) -> Seq<char>;

/// What `Display` prints for a serde_json error: the error's description and
/// its position in the input.
pub uninterp spec fn json_error_display(e: JsonError) -> Seq<char>;

/// The text of a Kubernetes client error (`kube::Error`'s `Display`), named
/// `kube_error_display`.
#[verifier::external_body]
fn kube_error_text(e: &KubeError) -> (t: String)
    ensures
        t@ == kube_error_display(*e),
{
    e.to_string()
}

/// The text of a serde_json error (`serde_json::Error`'s `Display`), named
/// `json_error_display`.
#[verifier::external_body]
pub(crate) fn serde_json_error_text(e: &JsonError) -> (t: String)
    ensures
        t@ == json_error_display(*e),
{
    e.to_string()
}

/// The message of an error (what `Display` prints).
pub open spec fn error_text(e: Error) -> Seq<char> {
    match e {
        Error::ServiceNotFound(svc, ns) => "target Service `"@ + svc@ + "` not found in namespace `"@
            + ns@ + "`"@,
        Error::MissingField(f) => "resource is missing required field: "@ + f@,
        Error::Provider(m) => "playit provider error: "@ + m@,
        Error::NotImplemented(op) => "provider operation not yet implemented: "@ + op@,
        Error::Kube(k) => "Kubernetes API error: "@ + kube_error_display(k),
        Error::Serde(j) => "serialization error: "@ + json_error_display(j),
    }
}

impl From<KubeError> for Error {
    /// A Kubernetes client error becomes `Error::Kube`.
    fn from(e: KubeError) -> (r: Error) {
        Error::Kube(e)
    }
}

impl vstd::std_specs::convert::FromSpecImpl<KubeError> for Error {
    open spec fn obeys_from_spec() -> bool {
        true
    }

    open spec fn from_spec(e: KubeError) -> Error {
        Error::Kube(e)
    }
}

impl From<JsonError> for Error {
    /// A serde_json error becomes `Error::Serde`.
    fn from(e: JsonError) -> (r: Error) {
        Error::Serde(e)
    }
}

impl vstd::std_specs::convert::FromSpecImpl<JsonError> for Error {
    open spec fn obeys_from_spec() -> bool {
        true
    }

    open spec fn from_spec(e: JsonError) -> Error {
        Error::Serde(e)
    }
}

impl Error {
    /// The human-readable message of the error (what `Display` prints).
    pub fn to_text(&self) -> (t: String)
        ensures
            t@ == error_text(*self),
    {
        match self {
            Error::Kube(e) => {
                let mut t = String::from_str("Kubernetes API error: ");
                let inner = kube_error_text(e);
                t.append(inner.as_str());
                t
            },
            Error::ServiceNotFound(svc, ns) => {
                let mut t = String::from_str("target Service `");
                t.append(svc.as_str());
                t.append("` not found in namespace `");
                t.append(ns.as_str());
                t.append("`");
                t
            },
            Error::MissingField(f) => {
                let mut t = String::from_str("resource is missing required field: ");
                t.append(f);
                t
            },
            Error::Provider(m) => {
                let mut t = String::from_str("playit provider error: ");
                t.append(m.as_str());
                t
            },
            Error::NotImplemented(op) => {
                let mut t = String::from_str("provider operation not yet implemented: ");
                t.append(op);
                t
            },
            Error::Serde(e) => {
                let mut t = String::from_str("serialization error: ");
                let inner = serde_json_error_text(e);
                t.append(inner.as_str());
                t
            },
        }
    }
}

} // verus!
